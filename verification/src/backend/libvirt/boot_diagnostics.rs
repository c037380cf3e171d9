//! Diagnostics of a failed VM boot: the state summary, the kernel command
//! line, and the report that gathers them with the console and journal.
//! Reading them from libvirt and the guest happens outside.
use vstd::prelude::*;
use crate::text::{
    after_first, before_first, chars_of, contains_seq, copy_range, decimal, find_chars, first_index,
    is_first_occurrence, join, join_strings, lines_chars, lines_of, owned, push_decimal, push_str,
    seqs_of, string_from_chars, views, lemma_first_index,
};

verus! {

/// The word `virsh dominfo` uses for a libvirt domain state code.
pub open spec fn state_word(state: u32) -> Seq<char> {
    if state == 0 {
        "no state"@
    } else if state == 1 {
        "running"@
    } else if state == 2 {
        "idle"@
    } else if state == 3 {
        "paused"@
    } else if state == 4 {
        "in shutdown"@
    } else if state == 5 {
        "shut off"@
    } else if state == 6 {
        "crashed"@
    } else if state == 7 {
        "pmsuspended"@
    } else {
        "unknown"@
    }
}

/// The word for a libvirt domain state code (`virDomainState`).
pub fn domain_state_str(state: u32) -> (r: &'static str)
    ensures
        r@ == state_word(state),
{
    if state == 0 {
        "no state"
    } else if state == 1 {
        "running"
    } else if state == 2 {
        "idle"
    } else if state == 3 {
        "paused"
    } else if state == 4 {
        "in shutdown"
    } else if state == 5 {
        "shut off"
    } else if state == 6 {
        "crashed"
    } else if state == 7 {
        "pmsuspended"
    } else {
        "unknown"
    }
}

/// What libvirt reports of a domain.
#[derive(Debug, Clone, Copy, PartialEq, Eq)]
pub struct DomainInfo {
    /// State code.
    pub state: u32,
    /// Maximum memory in KiB.
    pub max_mem: u64,
    /// Memory in use in KiB.
    pub memory: u64,
    /// Virtual CPUs.
    pub nr_virt_cpu: u32,
    /// CPU time used, in nanoseconds.
    pub cpu_time: u64,
}

/// A `virsh dominfo`-like summary of a domain.
pub open spec fn dominfo_text(vm_name: Seq<char>, info: DomainInfo) -> Seq<char> {
    "Name:           "@ + vm_name + "\nState:          "@ + state_word(info.state)
        + "\nCPU(s):         "@ + decimal(info.nr_virt_cpu as nat) + "\nCPU time:       "@ + decimal(
        info.cpu_time as nat,
    ) + "\nMax memory:     "@ + decimal(info.max_mem as nat) + " KiB\nUsed memory:    "@ + decimal(
        info.memory as nat,
    ) + " KiB\n"@
}

/// A `virsh dominfo`-like summary of a domain.
pub fn format_dominfo_like(vm_name: &str, info: &DomainInfo) -> (r: String)
    ensures
        r@ == dominfo_text(vm_name@, *info),
{
    let mut s = owned("Name:           ");
    push_str(&mut s, vm_name);
    push_str(&mut s, "\nState:          ");
    push_str(&mut s, domain_state_str(info.state));
    push_str(&mut s, "\nCPU(s):         ");
    push_decimal(&mut s, info.nr_virt_cpu as u64);
    push_str(&mut s, "\nCPU time:       ");
    push_decimal(&mut s, info.cpu_time);
    push_str(&mut s, "\nMax memory:     ");
    push_decimal(&mut s, info.max_mem);
    push_str(&mut s, " KiB\nUsed memory:    ");
    push_decimal(&mut s, info.memory);
    push_str(&mut s, " KiB\n");
    s
}

/// The kernel command line of a domain XML: the text between the first
/// `<cmdline>` and the first `</cmdline>` after it.
pub open spec fn cmdline_of(xml: Seq<char>) -> Option<Seq<char>> {
    match after_first(xml, "<cmdline>"@) {
        Some(rest) => if contains_seq(rest, "</cmdline>"@) {
            Some(before_first(rest, "</cmdline>"@))
        } else {
            None
        },
        None => None,
    }
}

/// The kernel command line of a domain XML, if it has one.
pub fn kernel_cmdline_from_xml(xml: &str) -> (r: Option<String>)
    ensures
        match cmdline_of(xml@) {
            Some(c) => r matches Some(s) && s@ == c,
            None => r is None,
        },
{
    let cs = chars_of(xml);
    let open = chars_of("<cmdline>");
    let close = chars_of("</cmdline>");
    match crate::text::after_first_chars(cs.as_slice(), open.as_slice()) {
        Some(rest) => {
            match find_chars(rest.as_slice(), close.as_slice()) {
                Some(i) => {
                    proof {
                        lemma_first_index(rest@, close@, i as int);
                    }
                    Some(string_from_chars(copy_range(rest.as_slice(), 0, i).as_slice()))
                },
                None => None,
            }
        },
        None => None,
    }
}

/// The users a guest's journal is read as, in order.
pub open spec fn journal_users() -> Seq<Seq<char>> {
    seq!["ubuntu"@, "reagent"@, "builder"@, "cosmic"@]
}

/// The users a guest's journal is read as, in order.
pub fn journal_users_list() -> (r: Vec<String>)
    ensures
        views(r@) == journal_users(),
{
    let mut v: Vec<String> = Vec::new();
    v.push(owned("ubuntu"));
    v.push(owned("reagent"));
    v.push(owned("builder"));
    v.push(owned("cosmic"));
    proof {
        assert(views(v@) =~= journal_users());
    }
    v
}

/// The command the guest runs to report its warnings: the journal, else
/// the cloud-init log.
pub open spec fn journal_command() -> Seq<char> {
    "journalctl --no-pager --boot -0 --priority warning --lines 200 2>/dev/null || cat /var/log/cloud-init-output.log 2>/dev/null || echo 'no journal available'"@
}

/// The `ssh` arguments that run [`journal_command`] as `user` at `ip`:
/// no host key checks, a 5 s connect timeout, batch mode.
pub open spec fn journal_args(user: Seq<char>, ip: Seq<char>) -> Seq<Seq<char>> {
    seq![
        "-o"@, "StrictHostKeyChecking=no"@, "-o"@, "UserKnownHostsFile=/dev/null"@,
        "-o"@, "ConnectTimeout=5"@, "-o"@, "BatchMode=yes"@,
        user + "@"@ + ip, journal_command(),
    ]
}

/// The `ssh` arguments that read the guest's warnings from the journal as
/// `user` at `ip`, falling back to the cloud-init log.
pub fn journal_ssh_args(user: &str, ip: &str) -> (r: Vec<String>)
    ensures
        views(r@) == journal_args(user@, ip@),
{
    let mut v: Vec<String> = Vec::new();
    v.push(owned("-o"));
    v.push(owned("StrictHostKeyChecking=no"));
    v.push(owned("-o"));
    v.push(owned("UserKnownHostsFile=/dev/null"));
    v.push(owned("-o"));
    v.push(owned("ConnectTimeout=5"));
    v.push(owned("-o"));
    v.push(owned("BatchMode=yes"));
    let mut addr = owned(user);
    push_str(&mut addr, "@");
    push_str(&mut addr, ip);
    v.push(addr);
    v.push(owned("journalctl --no-pager --boot -0 --priority warning --lines 200 2>/dev/null || cat /var/log/cloud-init-output.log 2>/dev/null || echo 'no journal available'"));
    proof {
        assert(views(v@) =~= journal_args(user@, ip@));
    }
    v
}

/// The diagnostics of a failed boot.
#[derive(Debug, Clone)]
pub struct BootDiagnosticsReport {
    /// VM name.
    pub vm_name: String,
    /// Serial console output.
    pub serial_console: String,
    /// Journal warnings from the guest.
    pub journal_logs: String,
    /// Kernel command line.
    pub boot_parameters: String,
    /// Domain state summary.
    pub vm_state: String,
}

/// The last 50 lines of a text (all of them when there are fewer), on
/// lines of their own.
pub open spec fn last_lines(text: Seq<char>) -> Seq<char> {
    let ls = lines_of(text);
    let k: int = if ls.len() > 50 {
        ls.len() - 50
    } else {
        0
    };
    join(ls.skip(k), "\n"@)
}

/// The report as text: a banner, the VM's name, then its state, boot
/// parameters, the last 50 console lines and the journal, each under a
/// heading.
pub open spec fn report_text(r: BootDiagnosticsReport) -> Seq<char> {
    "\n╔══════════════════════════════════════════════════════════════════════╗\n║                  BOOT DIAGNOSTICS REPORT                             ║\n╚══════════════════════════════════════════════════════════════════════╝\n\nVM: "@ + r.vm_name@ + "\n\n═══════════════════════════════════════════════════════════════════════\nVM STATE\n═══════════════════════════════════════════════════════════════════════\n"@ + r.vm_state@ + "\n\n═══════════════════════════════════════════════════════════════════════\nBOOT PARAMETERS\n═══════════════════════════════════════════════════════════════════════\n"@ + r.boot_parameters@ + "\n\n═══════════════════════════════════════════════════════════════════════\nSERIAL CONSOLE OUTPUT (Last 50 lines)\n═══════════════════════════════════════════════════════════════════════\n"@
        + last_lines(r.serial_console@) + "\n\n═══════════════════════════════════════════════════════════════════════\nSYSTEMD JOURNAL (Priority: Warning+, Last 200 lines)\n═══════════════════════════════════════════════════════════════════════\n"@ + r.journal_logs@ + "\n\n"@
}

fn last_lines_string(text: &str) -> (r: String)
    ensures
        r@ == last_lines(text@),
{
    let cs = chars_of(text);
    let ls = lines_chars(cs.as_slice());
    let ghost all = lines_of(text@);
    let n = ls.len();
    let k: usize = if n > 50 {
        n - 50
    } else {
        0
    };
    let mut parts: Vec<String> = Vec::new();
    let mut i: usize = k;
    while i < n
        invariant
            k <= i <= n,
            n == ls@.len(),
            seqs_of(ls@) == all,
            views(parts@) == all.subrange(k as int, i as int),
        decreases n - i,
    {
        let ghost before = views(parts@);
        parts.push(string_from_chars(ls[i].as_slice()));
        proof {
            assert(seqs_of(ls@)[i as int] == ls@[i as int]@);
            assert(views(parts@) =~= before.push(ls@[i as int]@));
            assert(all.subrange(k as int, i + 1) =~= all.subrange(k as int, i as int).push(all[i as int]));
        }
        i = i + 1;
    }
    proof {
        assert(all.subrange(k as int, n as int) =~= all.skip(k as int));
    }
    join_strings(&parts, "\n")
}

impl BootDiagnosticsReport {
    /// The report as text.
    pub fn format(&self) -> (r: String)
        ensures
            r@ == report_text(*self),
    {
        let mut s = owned("\n╔══════════════════════════════════════════════════════════════════════╗\n║                  BOOT DIAGNOSTICS REPORT                             ║\n╚══════════════════════════════════════════════════════════════════════╝\n\nVM: ");
        push_str(&mut s, self.vm_name.as_str());
        push_str(&mut s, "\n\n═══════════════════════════════════════════════════════════════════════\nVM STATE\n═══════════════════════════════════════════════════════════════════════\n");
        push_str(&mut s, self.vm_state.as_str());
        push_str(&mut s, "\n\n═══════════════════════════════════════════════════════════════════════\nBOOT PARAMETERS\n═══════════════════════════════════════════════════════════════════════\n");
        push_str(&mut s, self.boot_parameters.as_str());
        push_str(&mut s, "\n\n═══════════════════════════════════════════════════════════════════════\nSERIAL CONSOLE OUTPUT (Last 50 lines)\n═══════════════════════════════════════════════════════════════════════\n");
        let tail = last_lines_string(self.serial_console.as_str());
        push_str(&mut s, tail.as_str());
        push_str(&mut s, "\n\n═══════════════════════════════════════════════════════════════════════\nSYSTEMD JOURNAL (Priority: Warning+, Last 200 lines)\n═══════════════════════════════════════════════════════════════════════\n");
        push_str(&mut s, self.journal_logs.as_str());
        push_str(&mut s, "\n\n");
        s
    }
}

} // verus!
