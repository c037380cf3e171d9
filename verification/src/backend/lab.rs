//! Laboratory hygiene: taking stock of the QEMU processes and libvirt
//! domains on a host, and deciding what a cleanup removes. Listing
//! processes and domains, reading file sizes and killing processes happen
//! outside; CPU shares and run times, which are fractional, stay there too.
use vstd::prelude::*;
use crate::text::{
    before_first, before_first_chars, chars_of, ends_with_chars, ends_with_seq, lines_chars,
    lines_of, owned, parse_unsigned, parse_unsigned_chars, push_str, seqs_of, split_second,
    split_second_chars, starts_with_chars, starts_with_seq, str_contains, contains_seq,
    string_from_chars, views, words_chars, words_of,
};

verus! {

/// Laboratory hygiene for the VMs whose disks live in one directory.
pub struct LabHygiene {
    image_dir: String,
}

impl LabHygiene {
    /// The images directory.
    pub closed spec fn dir(&self) -> Seq<char> {
        self.image_dir@
    }

    /// Hygiene for VMs whose disks live in `image_dir`.
    pub fn new(image_dir: &str) -> (r: Self)
        ensures
            r.dir() == image_dir@,
    {
        LabHygiene { image_dir: owned(image_dir) }
    }

    /// The images directory.
    pub fn image_dir(&self) -> (r: &str)
        ensures
            r@ == self.dir(),
    {
        self.image_dir.as_str()
    }
}

/// A QEMU process running a VM, as `ps auxww` shows it.
#[derive(Debug, Clone)]
pub struct QemuProcess {
    /// Process ID.
    pub pid: u32,
    /// The guest's name (`-name guest=<name>`).
    pub vm_name: String,
    /// The VNC TCP port (display + 5900), when VNC is on.
    pub vnc_port: Option<u16>,
    /// Memory in use, in MB; worked out by the caller from the process's
    /// memory share.
    pub memory_mb: u64,
}

/// A `ps auxww` line of a QEMU process that runs a guest.
pub open spec fn is_guest_line(line: Seq<char>) -> bool {
    contains_seq(line, "qemu-system-x86_64"@) && contains_seq(line, "-name guest="@)
}

/// The guest name of a QEMU command line: after `-name guest=`, up to the
/// first comma.
pub open spec fn guest_name(line: Seq<char>) -> Option<Seq<char>> {
    match split_second(line, "-name guest="@) {
        Some(rest) => Some(before_first(rest, ","@)),
        None => None,
    }
}

/// The VNC display number of a QEMU command line: in the first word after
/// `-vnc `, between its first `:` and the next comma.
pub open spec fn vnc_display(line: Seq<char>) -> Option<nat> {
    match split_second(line, "-vnc "@) {
        Some(rest) => {
            let ws = words_of(rest);
            if ws.len() == 0 {
                None
            } else {
                match split_second(ws[0], ":"@) {
                    Some(d) => parse_unsigned(before_first(d, ","@), 0xffff),
                    None => None,
                }
            }
        },
        None => None,
    }
}

/// A VNC display whose port does not fit a `u16`: reading it overflows.
pub open spec fn vnc_port_overflows(line: Seq<char>) -> bool {
    match vnc_display(line) {
        Some(d) => d + 5900 > 0xffff,
        None => false,
    }
}

/// The process fields a `ps auxww` line gives: at least 11 words, the PID
/// the second word, and a guest name; the VNC port when there is one.
pub open spec fn process_fields(line: Seq<char>) -> Option<(u32, Seq<char>, Option<u16>)> {
    let ws = words_of(line);
    if ws.len() < 11 {
        None
    } else {
        match (parse_unsigned(ws[1], 0xffff_ffff), guest_name(line)) {
            (Some(pid), Some(name)) => Some(
                (
                    pid as u32,
                    name,
                    match vnc_display(line) {
                        Some(d) => Some((d + 5900) as u16),
                        None => None,
                    },
                ),
            ),
            _ => None,
        }
    }
}

fn vnc_display_exec(line: &[char]) -> (r: Option<u64>)
    ensures
        match vnc_display(line@) {
            Some(d) => r == Some(d as u64),
            None => r is None,
        },
{
    let pat = chars_of("-vnc ");
    let rest = match split_second_chars(line, pat.as_slice()) {
        Some(r) => r,
        None => return None,
    };
    let ws = words_chars(rest.as_slice());
    proof {
        assert(seqs_of(ws@).len() == ws@.len());
    }
    if ws.len() == 0 {
        return None;
    }
    proof {
        assert(seqs_of(ws@)[0] == ws@[0]@);
    }
    let colon = chars_of(":");
    let d = match split_second_chars(ws[0].as_slice(), colon.as_slice()) {
        Some(d) => d,
        None => return None,
    };
    let comma = chars_of(",");
    let digits = before_first_chars(d.as_slice(), comma.as_slice());
    parse_unsigned_chars(digits.as_slice(), 0xffff)
}

/// Whether the VNC port of a `ps auxww` line fits a `u16`, so that the
/// line can be read.
pub fn vnc_port_fits(line: &str) -> (r: bool)
    ensures
        r == !vnc_port_overflows(line@),
{
    let cs = chars_of(line);
    match vnc_display_exec(cs.as_slice()) {
        Some(d) => d + 5900 <= 0xffff,
        None => true,
    }
}

/// Reads the PID, guest name and VNC port of a QEMU process from its
/// `ps auxww` line; memory is left at zero for the caller to fill in.
pub fn parse_qemu_process(line: &str) -> (r: Option<QemuProcess>)
    requires
        !vnc_port_overflows(line@),
    ensures
        match process_fields(line@) {
            Some(f) => r matches Some(p) && p.pid == f.0 && p.vm_name@ == f.1 && p.vnc_port == f.2
                && p.memory_mb == 0,
            None => r is None,
        },
{
    let cs = chars_of(line);
    let ws = words_chars(cs.as_slice());
    proof {
        assert(seqs_of(ws@).len() == ws@.len());
    }
    if ws.len() < 11 {
        return None;
    }
    proof {
        assert(seqs_of(ws@)[1] == ws@[1]@);
    }
    let pid = match parse_unsigned_chars(ws[1].as_slice(), 0xffff_ffff) {
        Some(p) => p as u32,
        None => return None,
    };
    let pat = chars_of("-name guest=");
    let rest = match split_second_chars(cs.as_slice(), pat.as_slice()) {
        Some(r) => r,
        None => return None,
    };
    let comma = chars_of(",");
    let name = before_first_chars(rest.as_slice(), comma.as_slice());
    let vnc_port = match vnc_display_exec(cs.as_slice()) {
        Some(d) => Some((d + 5900) as u16),
        None => None,
    };
    Some(QemuProcess { pid, vm_name: string_from_chars(name.as_slice()), vnc_port, memory_mb: 0 })
}

/// A libvirt domain as the lab sees it.
#[derive(Debug, Clone)]
pub struct DomainEntry {
    /// Domain name.
    pub name: String,
    /// Domain ID as libvirt prints it.
    pub id: String,
    /// Whether the domain is running.
    pub is_active: bool,
}

/// What a lab experiment is.
#[derive(Debug, Clone, Copy, PartialEq, Eq, Structural)]
pub enum ExperimentKind {
    /// Managed by libvirt and running, with its domain ID and the index of
    /// its QEMU process.
    Active { id: u32, process: usize },
    /// Defined in libvirt but shut off, with its QEMU process if one runs.
    Inactive { process: Option<usize> },
    /// A QEMU process that libvirt does not manage.
    Orphaned { process: usize },
    /// In an unknown state.
    Zombie,
}

/// One experiment of the lab: a VM name and what it is.
#[derive(Debug, Clone)]
pub struct ExperimentPlan {
    /// VM name.
    pub name: String,
    /// What the experiment is.
    pub kind: ExperimentKind,
}

/// The position of the domain named `name`, if there is one.
pub open spec fn domain_pos(domains: Seq<DomainEntry>, name: Seq<char>) -> Option<int> {
    if exists|d: int| 0 <= d < domains.len() && #[trigger] domains[d].name@ == name {
        Some(choose|d: int| 0 <= d < domains.len() && #[trigger] domains[d].name@ == name)
    } else {
        None
    }
}

/// A domain ID read as `str::parse::<u32>` does, 0 when it does not read.
pub open spec fn domain_id(id: Seq<char>) -> u32 {
    match parse_unsigned(id, 0xffff_ffff) {
        Some(v) => v as u32,
        None => 0,
    }
}

/// What the `i`-th QEMU process is: active or inactive when libvirt knows
/// its guest, orphaned when not.
pub open spec fn process_kind(domains: Seq<DomainEntry>, procs: Seq<QemuProcess>, i: int) -> ExperimentKind {
    match domain_pos(domains, procs[i].vm_name@) {
        Some(d) => if domains[d].is_active {
            ExperimentKind::Active { id: domain_id(domains[d].id@), process: i as usize }
        } else {
            ExperimentKind::Inactive { process: Some(i as usize) }
        },
        None => ExperimentKind::Orphaned { process: i as usize },
    }
}

/// Some process runs the guest `name`.
pub open spec fn has_process(procs: Seq<QemuProcess>, name: Seq<char>) -> bool {
    exists|i: int| 0 <= i < procs.len() && #[trigger] procs[i].vm_name@ == name
}

/// The domains no QEMU process runs, in order.
pub open spec fn idle_domains(domains: Seq<DomainEntry>, procs: Seq<QemuProcess>) -> Seq<DomainEntry>
    decreases domains.len(),
{
    if domains.len() == 0 {
        Seq::empty()
    } else {
        let rest = idle_domains(domains.drop_last(), procs);
        if has_process(procs, domains.last().name@) {
            rest
        } else {
            rest.push(domains.last())
        }
    }
}

/// No two domains share a name.
pub open spec fn distinct_domains(ds: Seq<DomainEntry>) -> bool {
    forall|a: int, b: int| 0 <= a < b < ds.len() ==> #[trigger] ds[a].name@ != #[trigger] ds[b].name@
}

/// No two processes run the same guest.
pub open spec fn distinct_processes(ps: Seq<QemuProcess>) -> bool {
    forall|a: int, b: int| 0 <= a < b < ps.len() ==> #[trigger] ps[a].vm_name@ != #[trigger] ps[b].vm_name@
}

fn find_domain(domains: &[DomainEntry], name: &str) -> (r: Option<usize>)
    requires
        distinct_domains(domains@),
    ensures
        match r {
            Some(d) => domain_pos(domains@, name@) == Some(d as int),
            None => domain_pos(domains@, name@) is None,
        },
{
    let mut i: usize = 0;
    while i < domains.len()
        invariant
            i <= domains.len(),
            distinct_domains(domains@),
            forall|j: int| 0 <= j < i ==> #[trigger] domains@[j].name@ != name@,
        decreases domains.len() - i,
    {
        if crate::text::str_eq(domains[i].name.as_str(), name) {
            proof {
                let c = choose|c: int| 0 <= c < domains@.len() && #[trigger] domains@[c].name@ == name@;
                if c != i {
                    assert(domains@[c].name@ != domains@[i as int].name@);
                }
            }
            return Some(i);
        }
        i = i + 1;
    }
    None
}

fn any_process(procs: &[QemuProcess], name: &str) -> (r: bool)
    ensures
        r == has_process(procs@, name@),
{
    let mut i: usize = 0;
    while i < procs.len()
        invariant
            i <= procs.len(),
            forall|j: int| 0 <= j < i ==> #[trigger] procs@[j].vm_name@ != name@,
        decreases procs.len() - i,
    {
        if crate::text::str_eq(procs[i].vm_name.as_str(), name) {
            return true;
        }
        i = i + 1;
    }
    false
}

fn parse_id(id: &str) -> (r: u32)
    ensures
        r == domain_id(id@),
{
    let cs = chars_of(id);
    match parse_unsigned_chars(cs.as_slice(), 0xffff_ffff) {
        Some(v) => v as u32,
        None => 0,
    }
}

/// The experiments are those of the processes, in order, then those of
/// the domains no process runs.
pub open spec fn classified(r: Seq<ExperimentPlan>, domains: Seq<DomainEntry>, procs: Seq<QemuProcess>) -> bool {
    &&& r.len() == procs.len() + idle_domains(domains, procs).len()
    &&& forall|i: int| 0 <= i < procs.len() ==> #[trigger] r[i].name@ == procs[i].vm_name@
        && r[i].kind == process_kind(domains, procs, i)
    &&& forall|j: int| procs.len() <= j < r.len() ==> #[trigger] r[j].name@ == idle_domains(domains, procs)[j
        - procs.len()].name@ && r[j].kind == (ExperimentKind::Inactive { process: None })
}

/// The lab's experiments: one per QEMU process, in order, active or
/// inactive when libvirt knows the guest and orphaned when not; then one
/// inactive experiment per domain that no process runs.
#[verifier::spinoff_prover]
pub fn classify_experiments(domains: &[DomainEntry], procs: &[QemuProcess]) -> (r: Vec<ExperimentPlan>)
    requires
        distinct_domains(domains@),
        distinct_processes(procs@),
    ensures
        classified(r@, domains@, procs@),
{
    let mut out: Vec<ExperimentPlan> = Vec::new();
    let mut i: usize = 0;
    while i < procs.len()
        invariant
            i <= procs.len(),
            distinct_domains(domains@),
            out@.len() == i,
            forall|j: int| 0 <= j < i ==> #[trigger] out@[j].name@ == procs@[j].vm_name@
                && out@[j].kind == process_kind(domains@, procs@, j),
        decreases procs.len() - i,
    {
        let p = &procs[i];
        let kind = match find_domain(domains, p.vm_name.as_str()) {
            Some(d) => {
                if domains[d].is_active {
                    ExperimentKind::Active { id: parse_id(domains[d].id.as_str()), process: i }
                } else {
                    ExperimentKind::Inactive { process: Some(i) }
                }
            },
            None => ExperimentKind::Orphaned { process: i },
        };
        out.push(ExperimentPlan { name: p.vm_name.clone(), kind });
        i = i + 1;
    }
    assert(i == procs@.len());
    proof {
        assert forall|j: int| 0 <= j < procs@.len() implies #[trigger] out@[j].name@ == procs@[j].vm_name@
            && out@[j].kind == process_kind(domains@, procs@, j) by {
            assert(j < i);
        }
        assert(domains@.take(0) =~= Seq::<DomainEntry>::empty());
        assert(idle_domains(domains@.take(0), procs@) =~= Seq::<DomainEntry>::empty());
    }
    let mut d: usize = 0;
    while d < domains.len()
        invariant
            d <= domains.len(),
            out@.len() == procs@.len() + idle_domains(domains@.take(d as int), procs@).len(),
            forall|j: int| 0 <= j < procs@.len() ==> #[trigger] out@[j].name@ == procs@[j].vm_name@
                && out@[j].kind == process_kind(domains@, procs@, j),
            forall|m: int| 0 <= m < idle_domains(domains@.take(d as int), procs@).len() ==> #[trigger] out@[procs@.len() + m].name@
                == idle_domains(domains@.take(d as int), procs@)[m].name@ && out@[procs@.len() + m].kind
                == (ExperimentKind::Inactive { process: None }),
        decreases domains.len() - d,
    {
        proof {
            assert(domains@.take(d + 1).drop_last() =~= domains@.take(d as int));
            assert(domains@.take(d + 1).last() == domains@[d as int]);
        }
        let ghost t = domains@.take(d + 1);
        let ghost prev = idle_domains(domains@.take(d as int), procs@);
        let ghost before = out@;
        if !any_process(procs, domains[d].name.as_str()) {
            out.push(ExperimentPlan { name: domains[d].name.clone(), kind: ExperimentKind::Inactive { process: None } });
            proof {
                assert(idle_domains(t, procs@) == prev.push(domains@[d as int]));
                assert forall|m: int| 0 <= m < idle_domains(t, procs@).len() implies #[trigger] out@[procs@.len() + m].name@
                    == idle_domains(t, procs@)[m].name@ && out@[procs@.len() + m].kind
                    == (ExperimentKind::Inactive { process: None }) by {
                    if m < prev.len() {
                        assert(out@[procs@.len() + m] == before[procs@.len() + m]);
                    }
                }
            }
        } else {
            proof {
                assert(idle_domains(t, procs@) == prev);
            }
        }
        d = d + 1;
    }
    proof {
        assert(d == domains@.len());
        assert(domains@.take(domains@.len() as int) =~= domains@);
        let idle = idle_domains(domains@, procs@);
        assert(idle == idle_domains(domains@.take(d as int), procs@));
        assert(out@.len() == procs@.len() + idle.len());
        assert forall|i: int| 0 <= i < procs@.len() implies #[trigger] out@[i].name@ == procs@[i].vm_name@
            && out@[i].kind == process_kind(domains@, procs@, i) by {}
        assert forall|j: int| procs@.len() <= j < out@.len() implies #[trigger] out@[j].name@
            == idle[j - procs@.len()].name@ && out@[j].kind == (ExperimentKind::Inactive { process: None }) by {
            let k = j - procs@.len();
            assert(0 <= k < idle.len());
            assert(out@[procs@.len() + k] == out@[j]);
        }
        assert(classified(out@, domains@, procs@));
    }
    out
}

/// The counts and sums of a lab's status report.
#[derive(Debug, Clone, Copy, PartialEq, Eq)]
pub struct LabTotals {
    /// All experiments.
    pub total_vms: usize,
    /// Active experiments.
    pub active_vms: usize,
    /// Orphaned experiments.
    pub orphaned_vms: usize,
    /// Zombie experiments.
    pub zombie_vms: usize,
    /// Memory of the active and orphaned experiments, in MB.
    pub total_memory_mb: u64,
    /// Disk of all experiments, in MB.
    pub total_disk_mb: u64,
}

/// The memory an experiment uses: its process's, when it is active or
/// orphaned.
pub open spec fn experiment_memory(kind: ExperimentKind, procs: Seq<QemuProcess>) -> nat {
    match kind {
        ExperimentKind::Active { process, .. } => if process < procs.len() {
            procs[process as int].memory_mb as nat
        } else {
            0
        },
        ExperimentKind::Orphaned { process } => if process < procs.len() {
            procs[process as int].memory_mb as nat
        } else {
            0
        },
        _ => 0,
    }
}

/// The sum of the experiments' memory.
pub open spec fn memory_sum(exps: Seq<ExperimentPlan>, procs: Seq<QemuProcess>) -> nat
    decreases exps.len(),
{
    if exps.len() == 0 {
        0
    } else {
        memory_sum(exps.drop_last(), procs) + experiment_memory(exps.last().kind, procs)
    }
}

/// The sum of a list of sizes.
pub open spec fn size_sum(sizes: Seq<u64>) -> nat
    decreases sizes.len(),
{
    if sizes.len() == 0 {
        0
    } else {
        size_sum(sizes.drop_last()) + sizes.last() as nat
    }
}

/// How many experiments are of the kind `pick` accepts.
pub open spec fn count_kind(exps: Seq<ExperimentPlan>, pick: spec_fn(ExperimentKind) -> bool) -> nat
    decreases exps.len(),
{
    if exps.len() == 0 {
        0
    } else {
        count_kind(exps.drop_last(), pick) + if pick(exps.last().kind) {
            1nat
        } else {
            0nat
        }
    }
}

proof fn lemma_count_le(exps: Seq<ExperimentPlan>, pick: spec_fn(ExperimentKind) -> bool)
    ensures
        count_kind(exps, pick) <= exps.len(),
    decreases exps.len(),
{
    if exps.len() > 0 {
        lemma_count_le(exps.drop_last(), pick);
    }
}

proof fn lemma_memory_sum_mono(exps: Seq<ExperimentPlan>, procs: Seq<QemuProcess>, i: int)
    requires
        0 <= i <= exps.len(),
    ensures
        memory_sum(exps.take(i), procs) <= memory_sum(exps, procs),
    decreases exps.len() - i,
{
    if i < exps.len() {
        lemma_memory_sum_mono(exps, procs, i + 1);
        assert(exps.take(i + 1).drop_last() =~= exps.take(i));
    } else {
        assert(exps.take(i) =~= exps);
    }
}

proof fn lemma_size_sum_mono(sizes: Seq<u64>, i: int)
    requires
        0 <= i <= sizes.len(),
    ensures
        size_sum(sizes.take(i)) <= size_sum(sizes),
    decreases sizes.len() - i,
{
    if i < sizes.len() {
        lemma_size_sum_mono(sizes, i + 1);
        assert(sizes.take(i + 1).drop_last() =~= sizes.take(i));
    } else {
        assert(sizes.take(i) =~= sizes);
    }
}

/// The lab report's totals over its experiments, with each experiment's
/// disk use in MB at the same position in `disk_mb`.
pub fn lab_totals(exps: &[ExperimentPlan], procs: &[QemuProcess], disk_mb: &[u64]) -> (r: LabTotals)
    requires
        disk_mb@.len() == exps@.len(),
        memory_sum(exps@, procs@) <= u64::MAX,
        size_sum(disk_mb@) <= u64::MAX,
    ensures
        r.total_vms == exps@.len(),
        r.active_vms == count_kind(exps@, |k: ExperimentKind| k is Active),
        r.orphaned_vms == count_kind(exps@, |k: ExperimentKind| k is Orphaned),
        r.zombie_vms == count_kind(exps@, |k: ExperimentKind| k is Zombie),
        r.total_memory_mb == memory_sum(exps@, procs@),
        r.total_disk_mb == size_sum(disk_mb@),
{
    let ghost is_active = |k: ExperimentKind| k is Active;
    let ghost is_orphaned = |k: ExperimentKind| k is Orphaned;
    let ghost is_zombie = |k: ExperimentKind| k is Zombie;
    let mut t = LabTotals {
        total_vms: exps.len(),
        active_vms: 0,
        orphaned_vms: 0,
        zombie_vms: 0,
        total_memory_mb: 0,
        total_disk_mb: 0,
    };
    let mut i: usize = 0;
    while i < exps.len()
        invariant
            i <= exps.len(),
            disk_mb@.len() == exps@.len(),
            memory_sum(exps@, procs@) <= u64::MAX,
            size_sum(disk_mb@) <= u64::MAX,
            t.total_vms == exps@.len(),
            t.active_vms == count_kind(exps@.take(i as int), is_active),
            t.orphaned_vms == count_kind(exps@.take(i as int), is_orphaned),
            t.zombie_vms == count_kind(exps@.take(i as int), is_zombie),
            t.total_memory_mb == memory_sum(exps@.take(i as int), procs@),
            t.total_disk_mb == size_sum(disk_mb@.take(i as int)),
            is_active == (|k: ExperimentKind| k is Active),
            is_orphaned == (|k: ExperimentKind| k is Orphaned),
            is_zombie == (|k: ExperimentKind| k is Zombie),
        decreases exps.len() - i,
    {
        proof {
            assert(exps@.take(i + 1).drop_last() =~= exps@.take(i as int));
            assert(exps@.take(i + 1).last() == exps@[i as int]);
            assert(disk_mb@.take(i + 1).drop_last() =~= disk_mb@.take(i as int));
            assert(disk_mb@.take(i + 1).last() == disk_mb@[i as int]);
            lemma_count_le(exps@.take(i as int), is_active);
            lemma_count_le(exps@.take(i as int), is_orphaned);
            lemma_count_le(exps@.take(i as int), is_zombie);
            lemma_memory_sum_mono(exps@, procs@, i + 1);
            lemma_size_sum_mono(disk_mb@, i + 1);
        }
        let mem: u64 = match exps[i].kind {
            ExperimentKind::Active { process, .. } => if process < procs.len() {
                procs[process].memory_mb
            } else {
                0
            },
            ExperimentKind::Orphaned { process } => if process < procs.len() {
                procs[process].memory_mb
            } else {
                0
            },
            _ => 0,
        };
        match exps[i].kind {
            ExperimentKind::Active { .. } => {
                t.active_vms = t.active_vms + 1;
            },
            ExperimentKind::Orphaned { .. } => {
                t.orphaned_vms = t.orphaned_vms + 1;
            },
            ExperimentKind::Zombie => {
                t.zombie_vms = t.zombie_vms + 1;
            },
            _ => {},
        }
        t.total_memory_mb = t.total_memory_mb + mem;
        t.total_disk_mb = t.total_disk_mb + disk_mb[i];
        i = i + 1;
    }
    proof {
        assert(exps@.take(exps@.len() as int) =~= exps@);
        assert(disk_mb@.take(disk_mb@.len() as int) =~= disk_mb@);
    }
    t
}

/// A file of a VM's in the images directory: its name starts with the
/// VM's name and it is a disk or an ISO.
pub open spec fn is_vm_file(file_name: Seq<char>, vm_name: Seq<char>) -> bool {
    starts_with_seq(file_name, vm_name) && (ends_with_seq(file_name, ".qcow2"@) || ends_with_seq(
        file_name,
        ".iso"@,
    ))
}

/// Whether a file in the images directory belongs to a VM.
pub fn is_associated_disk_image(file_name: &str, vm_name: &str) -> (r: bool)
    ensures
        r == is_vm_file(file_name@, vm_name@),
{
    let f = chars_of(file_name);
    let v = chars_of(vm_name);
    let q = chars_of(".qcow2");
    let i = chars_of(".iso");
    starts_with_chars(f.as_slice(), v.as_slice()) && (ends_with_chars(f.as_slice(), q.as_slice())
        || ends_with_chars(f.as_slice(), i.as_slice()))
}

/// The disk use in MB of files of the given byte sizes: each size in
/// whole megabytes (10^6 bytes), summed.
pub open spec fn disk_mb_of(sizes: Seq<u64>) -> nat
    decreases sizes.len(),
{
    if sizes.len() == 0 {
        0
    } else {
        disk_mb_of(sizes.drop_last()) + (sizes.last() / 1_000_000) as nat
    }
}

/// The disk use in MB of files of the given byte sizes.
pub fn calculate_disk_size(sizes: &[u64]) -> (r: u64)
    requires
        disk_mb_of(sizes@) <= u64::MAX,
    ensures
        r == disk_mb_of(sizes@),
{
    let mut total: u64 = 0;
    let mut i: usize = 0;
    while i < sizes.len()
        invariant
            i <= sizes.len(),
            total == disk_mb_of(sizes@.take(i as int)),
            disk_mb_of(sizes@) <= u64::MAX,
        decreases sizes.len() - i,
    {
        proof {
            assert(sizes@.take(i + 1).drop_last() =~= sizes@.take(i as int));
            lemma_disk_mb_mono(sizes@, i + 1);
        }
        total = total + sizes[i] / 1_000_000;
        i = i + 1;
    }
    proof {
        assert(sizes@.take(sizes@.len() as int) =~= sizes@);
    }
    total
}

proof fn lemma_disk_mb_mono(sizes: Seq<u64>, i: int)
    requires
        0 <= i <= sizes.len(),
    ensures
        disk_mb_of(sizes.take(i)) <= disk_mb_of(sizes),
    decreases sizes.len() - i,
{
    if i < sizes.len() {
        lemma_disk_mb_mono(sizes, i + 1);
        assert(sizes.take(i + 1).drop_last() =~= sizes.take(i));
    } else {
        assert(sizes.take(i) =~= sizes);
    }
}

/// The PIDs of the QEMU processes whose guest starts with `prefix` and is
/// not a libvirt domain, in order.
pub open spec fn orphaned_pids(procs: Seq<QemuProcess>, domains: Seq<Seq<char>>, prefix: Seq<char>) -> Seq<u32>
    decreases procs.len(),
{
    if procs.len() == 0 {
        Seq::empty()
    } else {
        let rest = orphaned_pids(procs.drop_last(), domains, prefix);
        let p = procs.last();
        if starts_with_seq(p.vm_name@, prefix) && !domains.contains(p.vm_name@) {
            rest.push(p.pid)
        } else {
            rest
        }
    }
}

/// The QEMU processes of an experiment that libvirt does not manage.
pub fn find_orphaned_qemu_processes(procs: &[QemuProcess], domain_names: &[String], prefix: &str) -> (r: Vec<u32>)
    ensures
        r@ == orphaned_pids(procs@, views(domain_names@), prefix@),
{
    let p = chars_of(prefix);
    let mut out: Vec<u32> = Vec::new();
    let mut i: usize = 0;
    while i < procs.len()
        invariant
            i <= procs.len(),
            p@ == prefix@,
            out@ == orphaned_pids(procs@.take(i as int), views(domain_names@), prefix@),
        decreases procs.len() - i,
    {
        proof {
            assert(procs@.take(i + 1).drop_last() =~= procs@.take(i as int));
            assert(procs@.take(i + 1).last() == procs@[i as int]);
        }
        let n = chars_of(procs[i].vm_name.as_str());
        if starts_with_chars(n.as_slice(), p.as_slice()) && !name_in(domain_names, n.as_slice()) {
            out.push(procs[i].pid);
        }
        i = i + 1;
    }
    proof {
        assert(procs@.take(procs@.len() as int) =~= procs@);
    }
    out
}

fn name_in(names: &[String], n: &[char]) -> (r: bool)
    ensures
        r == views(names@).contains(n@),
{
    let mut i: usize = 0;
    while i < names.len()
        invariant
            i <= names.len(),
            forall|j: int| 0 <= j < i ==> names@[j]@ != n@,
        decreases names.len() - i,
    {
        let c = chars_of(names[i].as_str());
        if crate::text::chars_eq(c.as_slice(), n) {
            proof {
                assert(views(names@)[i as int] == n@);
            }
            return true;
        }
        i = i + 1;
    }
    proof {
        if views(names@).contains(n@) {
            let k = choose|k: int| 0 <= k < views(names@).len() && views(names@)[k] == n@;
            assert(names@[k]@ == n@);
        }
    }
    false
}

/// The total memory `/proc/meminfo` reports, in MB: the number after the
/// first `MemTotal:` line that has one, in kB divided by 1024; 8192 when
/// there is none.
pub open spec fn mem_total_mb_of(lines: Seq<Seq<char>>) -> u64
    decreases lines.len(),
{
    if lines.len() == 0 {
        8192
    } else {
        let l = lines[0];
        let ws = words_of(l);
        if starts_with_seq(l, "MemTotal:"@) && ws.len() >= 2 && parse_unsigned(ws[1], u64::MAX as nat) is Some {
            (parse_unsigned(ws[1], u64::MAX as nat)->0 / 1024) as u64
        } else {
            mem_total_mb_of(lines.drop_first())
        }
    }
}

/// The total memory `/proc/meminfo` reports, in MB.
pub fn system_memory_mb(meminfo: &str) -> (r: u64)
    ensures
        r == mem_total_mb_of(lines_of(meminfo@)),
{
    let cs = chars_of(meminfo);
    let ls = lines_chars(cs.as_slice());
    let ghost all = lines_of(meminfo@);
    let key = chars_of("MemTotal:");
    let mut i: usize = 0;
    proof {
        assert(all.skip(0) =~= all);
    }
    while i < ls.len()
        invariant
            i <= ls.len(),
            seqs_of(ls@) == all,
            all == lines_of(meminfo@),
            key@ == "MemTotal:"@,
            mem_total_mb_of(all) == mem_total_mb_of(all.skip(i as int)),
        decreases ls.len() - i,
    {
        let l = ls[i].as_slice();
        proof {
            assert(all.skip(i as int)[0] == l@);
            assert(all.skip(i as int).drop_first() =~= all.skip(i + 1));
        }
        if starts_with_chars(l, key.as_slice()) {
            let ws = words_chars(l);
            proof {
                assert(seqs_of(ws@).len() == ws@.len());
            }
            if ws.len() >= 2 {
                proof {
                    assert(seqs_of(ws@)[1] == ws@[1]@);
                }
                match parse_unsigned_chars(ws[1].as_slice(), u64::MAX) {
                    Some(kb) => {
                        proof {
                            let ws_s = words_of(l@);
                            assert(ws_s[1] == ws@[1]@);
                            assert(parse_unsigned(ws_s[1], u64::MAX as nat) == Some(kb as nat));
                            assert(mem_total_mb_of(all.skip(i as int)) == (kb / 1024) as u64);
                        }
                        return kb / 1024;
                    },
                    None => {},
                }
            }
        }
        i = i + 1;
    }
    8192
}

/// What a lab cleanup reports.
#[derive(Debug, Clone)]
pub struct CleanupReport {
    /// The VMs chosen for cleanup, in order.
    pub vms_to_clean: Vec<String>,
    /// How many were cleaned.
    pub vms_cleaned: usize,
    /// Disk the chosen VMs use, in MB.
    pub disk_to_free_mb: u64,
    /// Memory the chosen VMs use, in MB.
    pub memory_to_free_mb: u64,
    /// One line per failed cleanup.
    pub errors: Vec<String>,
}

impl Default for CleanupReport {
    fn default() -> (r: Self)
        ensures
            r.vms_to_clean@.len() == 0,
            r.vms_cleaned == 0,
            r.disk_to_free_mb == 0,
            r.memory_to_free_mb == 0,
            r.errors@.len() == 0,
    {
        CleanupReport {
            vms_to_clean: Vec::new(),
            vms_cleaned: 0,
            disk_to_free_mb: 0,
            memory_to_free_mb: 0,
            errors: Vec::new(),
        }
    }
}

/// Whether a cleanup removes an experiment: an active one only when active
/// VMs are not preserved; an orphaned one unless it is recent and recent
/// ones are preserved (`orphan_is_recent` is `None` when they are not);
/// every inactive and zombie one.
pub open spec fn cleans(kind: ExperimentKind, preserve_active: bool, orphan_is_recent: Option<bool>) -> bool {
    match kind {
        ExperimentKind::Active { .. } => !preserve_active,
        ExperimentKind::Orphaned { .. } => match orphan_is_recent {
            Some(recent) => !recent,
            None => true,
        },
        _ => true,
    }
}

/// Whether a cleanup removes an experiment. Whether an orphaned one is
/// recent compares run times in fractional hours, which the caller does.
pub fn should_clean(kind: ExperimentKind, preserve_active: bool, orphan_is_recent: Option<bool>) -> (r: bool)
    ensures
        r == cleans(kind, preserve_active, orphan_is_recent),
{
    match kind {
        ExperimentKind::Active { .. } => !preserve_active,
        ExperimentKind::Orphaned { .. } => match orphan_is_recent {
            Some(recent) => !recent,
            None => true,
        },
        _ => true,
    }
}

impl CleanupReport {
    /// Notes an experiment chosen for cleanup, with its disk use and, for
    /// an active or orphaned one, its memory.
    pub fn note_candidate(&mut self, name: String, disk_mb: u64, memory_mb: Option<u64>)
        requires
            old(self).disk_to_free_mb + disk_mb <= u64::MAX,
            old(self).memory_to_free_mb + match memory_mb {
                Some(m) => m as int,
                None => 0,
            } <= u64::MAX,
        ensures
            final(self).vms_to_clean@ == old(self).vms_to_clean@.push(name),
            final(self).disk_to_free_mb == old(self).disk_to_free_mb + disk_mb,
            final(self).memory_to_free_mb == old(self).memory_to_free_mb + match memory_mb {
                Some(m) => m as int,
                None => 0,
            },
            final(self).vms_cleaned == old(self).vms_cleaned,
            final(self).errors@ == old(self).errors@,
    {
        self.vms_to_clean.push(name);
        self.disk_to_free_mb = self.disk_to_free_mb + disk_mb;
        match memory_mb {
            Some(m) => {
                self.memory_to_free_mb = self.memory_to_free_mb + m;
            },
            None => {},
        }
    }

    /// Notes an experiment that was cleaned.
    pub fn note_cleaned(&mut self)
        requires
            old(self).vms_cleaned < usize::MAX,
        ensures
            final(self).vms_cleaned == old(self).vms_cleaned + 1,
            final(self).vms_to_clean@ == old(self).vms_to_clean@,
            final(self).errors@ == old(self).errors@,
            final(self).disk_to_free_mb == old(self).disk_to_free_mb,
            final(self).memory_to_free_mb == old(self).memory_to_free_mb,
    {
        self.vms_cleaned = self.vms_cleaned + 1;
    }

    /// Notes an experiment whose cleanup failed: `<name>: <error>`.
    pub fn note_failure(&mut self, name: &str, error: &str)
        ensures
            final(self).errors@.len() == old(self).errors@.len() + 1,
            final(self).errors@.last()@ == name@ + ": "@ + error@,
            forall|i: int| 0 <= i < old(self).errors@.len() ==> final(self).errors@[i] == old(self).errors@[i],
            final(self).vms_cleaned == old(self).vms_cleaned,
            final(self).vms_to_clean@ == old(self).vms_to_clean@,
            final(self).disk_to_free_mb == old(self).disk_to_free_mb,
            final(self).memory_to_free_mb == old(self).memory_to_free_mb,
    {
        let mut m = owned(name);
        push_str(&mut m, ": ");
        push_str(&mut m, error);
        self.errors.push(m);
    }
}


/// The orphaned QEMU processes of an experiment are exactly those whose
/// guest starts with the prefix and is no libvirt domain: every returned
/// PID is such a process's, and every such process's PID is returned.
pub proof fn law_orphans_are_unmanaged_guests(procs: Seq<QemuProcess>, domains: Seq<Seq<char>>, prefix: Seq<char>)
    ensures
        forall|k: int|
            0 <= k < orphaned_pids(procs, domains, prefix).len() ==> exists|i: int|
                0 <= i < procs.len() && procs[i].pid == #[trigger] orphaned_pids(procs, domains, prefix)[k]
                    && starts_with_seq(procs[i].vm_name@, prefix) && !domains.contains(procs[i].vm_name@),
        forall|i: int|
            0 <= i < procs.len() && starts_with_seq(procs[i].vm_name@, prefix) && !domains.contains(
                procs[i].vm_name@,
            ) ==> orphaned_pids(procs, domains, prefix).contains(#[trigger] procs[i].pid),
    decreases procs.len(),
{
    if procs.len() > 0 {
        let init = procs.drop_last();
        law_orphans_are_unmanaged_guests(init, domains, prefix);
        let rest = orphaned_pids(init, domains, prefix);
        let out = orphaned_pids(procs, domains, prefix);
        assert forall|k: int| 0 <= k < out.len() implies exists|i: int|
            0 <= i < procs.len() && procs[i].pid == #[trigger] out[k] && starts_with_seq(procs[i].vm_name@, prefix)
                && !domains.contains(procs[i].vm_name@) by {
            if k < rest.len() {
                assert(out[k] == rest[k]);
                let i = choose|i: int|
                    0 <= i < init.len() && init[i].pid == rest[k] && starts_with_seq(init[i].vm_name@, prefix)
                        && !domains.contains(init[i].vm_name@);
                assert(procs[i] == init[i]);
            } else {
                assert(procs[procs.len() - 1] == procs.last());
            }
        }
        assert forall|i: int|
            0 <= i < procs.len() && starts_with_seq(procs[i].vm_name@, prefix) && !domains.contains(
                procs[i].vm_name@,
            ) implies out.contains(#[trigger] procs[i].pid) by {
            if i < procs.len() - 1 {
                assert(init[i] == procs[i]);
                assert(rest.contains(init[i].pid));
                let j = choose|j: int| 0 <= j < rest.len() && rest[j] == init[i].pid;
                assert(out[j] == rest[j]);
            } else {
                assert(out[out.len() - 1] == procs[i].pid);
            }
        }
    }
}

} // verus!
