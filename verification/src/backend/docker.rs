//! The decisions of the container backend: what a node is started with,
//! and how Docker's inspection reports become node and network reports.
//! Talking to the Docker daemon happens outside.
use vstd::prelude::*;
use crate::backend::{NetworkInfo, NodeInfo, NodeStatus};
use crate::text::{chars_of, copy_range, decimal, owned, push_decimal, push_str, string_from_chars, views};

verus! {

/// A name without its leading slashes (`trim_start_matches('/')`); Docker
/// reports container names as `/name`.
pub open spec fn strip_leading_slashes(s: Seq<char>) -> Seq<char>
    decreases s.len(),
{
    if s.len() > 0 && s[0] == '/' {
        strip_leading_slashes(s.drop_first())
    } else {
        s
    }
}

/// The text of an optional string, empty when absent (`unwrap_or_default`).
pub open spec fn text_or_empty(s: Option<String>) -> Seq<char> {
    match s {
        Some(t) => t@,
        None => Seq::empty(),
    }
}

/// A container name without its leading slashes.
pub fn node_name_from(raw: &str) -> (r: String)
    ensures
        r@ == strip_leading_slashes(raw@),
{
    let cs = chars_of(raw);
    let mut i: usize = 0;
    proof {
        assert(cs@.skip(0) =~= cs@);
    }
    while i < cs.len() && cs[i] == '/'
        invariant
            i <= cs.len(),
            strip_leading_slashes(cs@.skip(i as int)) == strip_leading_slashes(raw@),
            cs@ == raw@,
        decreases cs.len() - i,
    {
        proof {
            assert(cs@.skip(i as int).drop_first() =~= cs@.skip(i + 1));
        }
        i = i + 1;
    }
    proof {
        assert(cs@.subrange(i as int, cs@.len() as int) =~= cs@.skip(i as int));
    }
    let rest = copy_range(cs.as_slice(), i, cs.len());
    string_from_chars(rest.as_slice())
}

/// The status a container's state gives: running only when the state says
/// it runs.
pub fn container_status(running: Option<bool>) -> (r: NodeStatus)
    ensures
        r == (if running == Some(true) { NodeStatus::Running } else { NodeStatus::Stopped }),
{
    match running {
        Some(true) => NodeStatus::Running,
        _ => NodeStatus::Stopped,
    }
}

/// The node report from a container inspection: its id (also the
/// container id), its name without leading slashes, its status, and the
/// first network it is attached to with its address there (`unknown` for
/// both when it has none); no metadata.
pub fn node_info_from_container(
    id: Option<String>,
    raw_name: Option<String>,
    running: Option<bool>,
    first_network: Option<(String, Option<String>)>,
) -> (r: NodeInfo)
    ensures
        r.id@ == text_or_empty(id),
        r.container_id@ == text_or_empty(id),
        r.name@ == strip_leading_slashes(text_or_empty(raw_name)),
        r.status == (if running == Some(true) { NodeStatus::Running } else { NodeStatus::Stopped }),
        match first_network {
            Some((net, ip)) => r.network@ == net@ && r.ip_address@ == text_or_empty(ip),
            None => r.network@ == "unknown"@ && r.ip_address@ == "unknown"@,
        },
        r.metadata@.len() == 0,
{
    let container_id = match id {
        Some(s) => s,
        None => String::new(),
    };
    let name = match &raw_name {
        Some(n) => node_name_from(n.as_str()),
        None => {
            proof {
                assert(strip_leading_slashes(Seq::<char>::empty()) == Seq::<char>::empty());
            }
            String::new()
        },
    };
    let (network, ip_address) = match first_network {
        Some((net, ip)) => {
            let addr = match ip {
                Some(a) => a,
                None => String::new(),
            };
            (net, addr)
        },
        None => (owned("unknown"), owned("unknown")),
    };
    let id_copy = container_id.clone();
    NodeInfo {
        id: id_copy,
        name,
        container_id,
        ip_address,
        network,
        status: container_status(running),
        metadata: Vec::new(),
    }
}

/// The network report after creating a network: the subnet and gateway of
/// the first IPAM configuration Docker reports, falling back to the
/// requested subnet and `unknown`.
pub fn network_info_from_inspect(
    name: &str,
    id: Option<String>,
    requested_subnet: &str,
    first_ipam_config: Option<(Option<String>, Option<String>)>,
) -> (r: NetworkInfo)
    ensures
        r.name@ == name@,
        r.id@ == text_or_empty(id),
        r.subnet@ == (match first_ipam_config {
            Some((Some(s), _)) => s@,
            _ => requested_subnet@,
        }),
        r.gateway@ == (match first_ipam_config {
            Some((_, Some(g))) => g@,
            _ => "unknown"@,
        }),
{
    let (subnet, gateway) = match first_ipam_config {
        Some((s, g)) => {
            let subnet = match s {
                Some(x) => x,
                None => owned(requested_subnet),
            };
            let gateway = match g {
                Some(x) => x,
                None => owned("unknown"),
            };
            (subnet, gateway)
        },
        None => (owned(requested_subnet), owned("unknown")),
    };
    NetworkInfo {
        name: owned(name),
        id: match id {
            Some(s) => s,
            None => String::new(),
        },
        subnet,
        gateway,
    }
}

/// `key=value` for each environment variable, in the order given.
pub open spec fn assignments(pairs: Seq<(String, String)>) -> Seq<Seq<char>> {
    pairs.map_values(|p: (String, String)| p.0@ + "="@ + p.1@)
}

/// The environment of a node as `key=value` entries.
pub fn env_assignments(pairs: &[(String, String)]) -> (r: Vec<String>)
    ensures
        views(r@) == assignments(pairs@),
{
    let mut out: Vec<String> = Vec::new();
    let mut i: usize = 0;
    while i < pairs.len()
        invariant
            i <= pairs.len(),
            views(out@) == assignments(pairs@.take(i as int)),
        decreases pairs.len() - i,
    {
        let mut s = owned(pairs[i].0.as_str());
        push_str(&mut s, "=");
        push_str(&mut s, pairs[i].1.as_str());
        let ghost entry = s@;
        let ghost before = out@;
        out.push(s);
        proof {
            assert(entry == pairs@[i as int].0@ + "="@ + pairs@[i as int].1@);
            assert(views(out@) =~= views(before).push(entry));
            assert(assignments(pairs@.take(i + 1)) =~= assignments(pairs@.take(i as int)).push(entry));
            assert(pairs@.take(i + 1) =~= pairs@.take(i as int).push(pairs@[i as int]));
            assert(views(out@) =~= assignments(pairs@.take(i + 1)));
        }
        i = i + 1;
    }
    proof {
        assert(pairs@.take(pairs@.len() as int) =~= pairs@);
    }
    out
}

/// The command a node's container runs: a shell that sleeps forever.
pub fn container_command() -> (r: Vec<String>)
    ensures
        views(r@) == seq!["/bin/sh"@, "-c"@, "sleep infinity"@],
{
    let mut v: Vec<String> = Vec::new();
    v.push(owned("/bin/sh"));
    v.push(owned("-c"));
    v.push(owned("sleep infinity"));
    proof {
        assert(views(v@) =~= seq!["/bin/sh"@, "-c"@, "sleep infinity"@]);
    }
    v
}

/// The `tc` command that shapes a node's traffic: a netem qdisc on `eth0`
/// with the delay, loss and rate that are set, each in that order; the
/// loss is given as the caller prints the percentage.
pub open spec fn netem_args(latency_ms: Option<u32>, loss_text: Option<Seq<char>>, bandwidth_kbps: Option<u32>) -> Seq<Seq<char>> {
    let base = seq!["tc"@, "qdisc"@, "add"@, "dev"@, "eth0"@, "root"@, "netem"@];
    let with_delay = match latency_ms {
        Some(l) => base + seq!["delay"@, decimal(l as nat) + "ms"@],
        None => base,
    };
    let with_loss = match loss_text {
        Some(t) => with_delay + seq!["loss"@, t + "%"@],
        None => with_delay,
    };
    match bandwidth_kbps {
        Some(b) => with_loss + seq!["rate"@, decimal(b as nat) + "kbit"@],
        None => with_loss,
    }
}

/// The traffic-shaping command for the conditions that are set, or none
/// when no condition is.
pub fn tc_netem_args(latency_ms: Option<u32>, loss_text: Option<&str>, bandwidth_kbps: Option<u32>) -> (r: Option<Vec<String>>)
    ensures
        (latency_ms is None && loss_text is None && bandwidth_kbps is None) ==> r is None,
        !(latency_ms is None && loss_text is None && bandwidth_kbps is None) ==> (r matches Some(v)
            && views(v@) == netem_args(
                latency_ms,
                match loss_text {
                    Some(t) => Some(t@),
                    None => None,
                },
                bandwidth_kbps,
            )),
{
    if latency_ms.is_none() && loss_text.is_none() && bandwidth_kbps.is_none() {
        return None;
    }
    let ghost loss_view: Option<Seq<char>> = match loss_text {
        Some(t) => Some(t@),
        None => None,
    };
    let mut v: Vec<String> = Vec::new();
    v.push(owned("tc"));
    v.push(owned("qdisc"));
    v.push(owned("add"));
    v.push(owned("dev"));
    v.push(owned("eth0"));
    v.push(owned("root"));
    v.push(owned("netem"));
    let ghost base = seq!["tc"@, "qdisc"@, "add"@, "dev"@, "eth0"@, "root"@, "netem"@];
    proof {
        assert(views(v@) =~= base);
    }
    if let Some(l) = latency_ms {
        let ghost before = views(v@);
        v.push(owned("delay"));
        let mut d = String::new();
        push_decimal(&mut d, l as u64);
        push_str(&mut d, "ms");
        v.push(d);
        proof {
            assert(views(v@) =~= before + seq!["delay"@, decimal(l as nat) + "ms"@]);
        }
    }
    let ghost with_delay = views(v@);
    if let Some(t) = loss_text {
        v.push(owned("loss"));
        let mut s = owned(t);
        push_str(&mut s, "%");
        v.push(s);
        proof {
            assert(views(v@) =~= with_delay + seq!["loss"@, t@ + "%"@]);
        }
    }
    let ghost with_loss = views(v@);
    if let Some(b) = bandwidth_kbps {
        v.push(owned("rate"));
        let mut s = String::new();
        push_decimal(&mut s, b as u64);
        push_str(&mut s, "kbit");
        v.push(s);
        proof {
            assert(views(v@) =~= with_loss + seq!["rate"@, decimal(b as nat) + "kbit"@]);
        }
    }
    proof {
        assert(views(v@) =~= netem_args(latency_ms, loss_view, bandwidth_kbps));
    }
    Some(v)
}

/// The exit code of a finished exec: the one Docker reports, or 1 when it
/// reports none.
pub fn exec_exit_code(reported: Option<i64>) -> (r: i64)
    ensures
        r == (match reported {
            Some(c) => c,
            None => 1,
        }),
{
    match reported {
        Some(c) => c,
        None => 1,
    }
}

} // verus!
