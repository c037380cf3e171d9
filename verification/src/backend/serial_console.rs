//! Serial console logs: boot completion, boot time, per-severity counts
//! and error lines.
use vstd::prelude::*;
use crate::text::{
    chars_of, contains_seq, copy_range, find_chars, is_first_occurrence, lines_chars, lines_of,
    parse_unsigned, parse_unsigned_chars, seqs_of, str_contains, string_from_chars, views,
};

verus! {

/// The boot logger reported completion.
pub open spec fn boot_complete(log: Seq<char>) -> bool {
    contains_seq(log, "BiomeOS Init Complete"@) || contains_seq(log, "[Success]"@)
}

/// Whether the boot logger reported completion.
pub fn is_boot_complete(log_content: &str) -> (r: bool)
    ensures
        r == boot_complete(log_content@),
{
    let cs = chars_of(log_content);
    str_contains(cs.as_slice(), "BiomeOS Init Complete") || str_contains(cs.as_slice(), "[Success]")
}

/// The first position of `p` in `s`, if it occurs.
pub open spec fn find_in(s: Seq<char>, p: Seq<char>) -> Option<int> {
    if contains_seq(s, p) {
        Some(choose|i: int| is_first_occurrence(s, p, i))
    } else {
        None
    }
}

/// The milliseconds a completion line reports in `(…ms)`: the text between
/// the first `(` and the first `ms)`, read as a `u64`.
pub open spec fn line_boot_time(line: Seq<char>) -> Option<nat> {
    if !contains_seq(line, "BiomeOS Init Complete"@) {
        None
    } else {
        match (find_in(line, "("@), find_in(line, "ms)"@)) {
            (Some(s), Some(e)) => if s + 1 <= e {
                parse_unsigned(line.subrange(s + 1, e), 0xffff_ffff_ffff_ffff)
            } else {
                None
            },
            _ => None,
        }
    }
}

/// The boot time of the first completion line that reports one.
pub open spec fn boot_time_in(lines: Seq<Seq<char>>) -> Option<nat>
    decreases lines.len(),
{
    if lines.len() == 0 {
        None
    } else {
        match line_boot_time(lines[0]) {
            Some(v) => Some(v),
            None => boot_time_in(lines.drop_first()),
        }
    }
}

fn find_str(s: &[char], p: &str) -> (r: Option<usize>)
    ensures
        match r {
            Some(i) => find_in(s@, p@) == Some(i as int) && is_first_occurrence(s@, p@, i as int),
            None => find_in(s@, p@) is None,
        },
{
    let pc = chars_of(p);
    match find_chars(s, pc.as_slice()) {
        Some(i) => {
            proof {
                let c = choose|j: int| is_first_occurrence(s@, p@, j);
                assert(is_first_occurrence(s@, p@, i as int));
                if c < i {
                    assert(!crate::text::occurs_at(s@, p@, c));
                } else if c > i {
                    assert(!crate::text::occurs_at(s@, p@, i as int));
                }
            }
            Some(i)
        },
        None => None,
    }
}

fn line_boot_time_exec(line: &[char]) -> (r: Option<u64>)
    ensures
        match line_boot_time(line@) {
            Some(v) => r == Some(v as u64),
            None => r is None,
        },
{
    if !str_contains(line, "BiomeOS Init Complete") {
        return None;
    }
    let s = match find_str(line, "(") {
        Some(s) => s,
        None => return None,
    };
    let e = match find_str(line, "ms)") {
        Some(e) => e,
        None => return None,
    };
    if s >= e {
        return None;
    }
    proof {
        assert(e <= line@.len());
    }
    let body = copy_range(line, s + 1, e);
    parse_unsigned_chars(body.as_slice(), 0xffff_ffff_ffff_ffff)
}

/// The boot time the boot logger reports, e.g. 178 for a line
/// `BiomeOS Init Complete (178ms)`.
pub fn parse_boot_time_ms(log_content: &str) -> (r: Option<u64>)
    ensures
        match boot_time_in(lines_of(log_content@)) {
            Some(v) => r == Some(v as u64),
            None => r is None,
        },
{
    let cs = chars_of(log_content);
    let lines = lines_chars(cs.as_slice());
    let ghost all = lines_of(log_content@);
    let mut i: usize = 0;
    proof {
        assert(all.skip(0) =~= all);
    }
    while i < lines.len()
        invariant
            seqs_of(lines@) == all,
            all == lines_of(log_content@),
            i <= lines.len(),
            boot_time_in(all) == boot_time_in(all.skip(i as int)),
        decreases lines.len() - i,
    {
        let line = &lines[i];
        proof {
            assert(all.skip(i as int)[0] == line@);
            assert(all.skip(i as int).drop_first() =~= all.skip(i + 1));
        }
        match line_boot_time_exec(line.as_slice()) {
            Some(v) => return Some(v),
            None => {},
        }
        i = i + 1;
    }
    None
}

/// Log entries by severity.
#[derive(Debug, Clone, Copy, PartialEq, Eq)]
pub struct LogStats {
    /// Info-level messages.
    pub info_count: usize,
    /// Warnings.
    pub warn_count: usize,
    /// Errors.
    pub error_count: usize,
    /// Success messages.
    pub success_count: usize,
}

/// The severity a line counts under: 0 info, 1 warning, 2 error,
/// 3 success, 4 none; the first tag found in that order wins.
pub open spec fn severity(line: Seq<char>) -> nat {
    if contains_seq(line, "[Info]"@) {
        0
    } else if contains_seq(line, "[Warn]"@) {
        1
    } else if contains_seq(line, "[Error]"@) {
        2
    } else if contains_seq(line, "[Success]"@) {
        3
    } else {
        4
    }
}

/// How many of the lines count under severity `k`.
pub open spec fn count_severity(lines: Seq<Seq<char>>, k: nat) -> nat
    decreases lines.len(),
{
    if lines.len() == 0 {
        0
    } else {
        count_severity(lines.drop_last(), k) + if severity(lines.last()) == k {
            1nat
        } else {
            0nat
        }
    }
}

proof fn lemma_count_bound(lines: Seq<Seq<char>>, k: nat)
    ensures
        count_severity(lines, k) <= lines.len(),
    decreases lines.len(),
{
    if lines.len() > 0 {
        lemma_count_bound(lines.drop_last(), k);
    }
}

/// Counts the log's lines by severity.
pub fn analyze_log(log_content: &str) -> (r: LogStats)
    ensures
        r.info_count == count_severity(lines_of(log_content@), 0),
        r.warn_count == count_severity(lines_of(log_content@), 1),
        r.error_count == count_severity(lines_of(log_content@), 2),
        r.success_count == count_severity(lines_of(log_content@), 3),
{
    let cs = chars_of(log_content);
    let lines = lines_chars(cs.as_slice());
    let ghost all = lines_of(log_content@);
    let mut stats = LogStats { info_count: 0, warn_count: 0, error_count: 0, success_count: 0 };
    let mut i: usize = 0;
    while i < lines.len()
        invariant
            seqs_of(lines@) == all,
            i <= lines.len(),
            stats.info_count == count_severity(all.take(i as int), 0),
            stats.warn_count == count_severity(all.take(i as int), 1),
            stats.error_count == count_severity(all.take(i as int), 2),
            stats.success_count == count_severity(all.take(i as int), 3),
        decreases lines.len() - i,
    {
        let line = lines[i].as_slice();
        proof {
            assert(all.take(i + 1).drop_last() =~= all.take(i as int));
            assert(all.take(i + 1).last() == line@);
            lemma_count_bound(all.take(i as int), 0);
            lemma_count_bound(all.take(i as int), 1);
            lemma_count_bound(all.take(i as int), 2);
            lemma_count_bound(all.take(i as int), 3);
        }
        if str_contains(line, "[Info]") {
            stats.info_count = stats.info_count + 1;
        } else if str_contains(line, "[Warn]") {
            stats.warn_count = stats.warn_count + 1;
        } else if str_contains(line, "[Error]") {
            stats.error_count = stats.error_count + 1;
        } else if str_contains(line, "[Success]") {
            stats.success_count = stats.success_count + 1;
        }
        i = i + 1;
    }
    proof {
        assert(all.take(lines@.len() as int) =~= all);
    }
    stats
}

/// The lines that carry `[Error]`, in order.
pub open spec fn error_lines(lines: Seq<Seq<char>>) -> Seq<Seq<char>>
    decreases lines.len(),
{
    if lines.len() == 0 {
        Seq::empty()
    } else if contains_seq(lines.last(), "[Error]"@) {
        error_lines(lines.drop_last()).push(lines.last())
    } else {
        error_lines(lines.drop_last())
    }
}

/// The log's error lines.
pub fn extract_errors(log_content: &str) -> (r: Vec<String>)
    ensures
        views(r@) == error_lines(lines_of(log_content@)),
{
    let cs = chars_of(log_content);
    let lines = lines_chars(cs.as_slice());
    let ghost all = lines_of(log_content@);
    let mut out: Vec<String> = Vec::new();
    let mut i: usize = 0;
    while i < lines.len()
        invariant
            seqs_of(lines@) == all,
            i <= lines.len(),
            views(out@) == error_lines(all.take(i as int)),
        decreases lines.len() - i,
    {
        let line = lines[i].as_slice();
        proof {
            assert(all.take(i + 1).drop_last() =~= all.take(i as int));
            assert(all.take(i + 1).last() == line@);
        }
        if str_contains(line, "[Error]") {
            let ghost before = views(out@);
            out.push(string_from_chars(line));
            proof {
                assert(views(out@) =~= before.push(line@));
            }
        }
        i = i + 1;
    }
    proof {
        assert(all.take(lines@.len() as int) =~= all);
    }
    out
}

} // verus!
