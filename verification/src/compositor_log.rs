//! Reading SteamVR's `vrcompositor.txt` log tail for crash and warp-mesh signatures.

use vstd::prelude::*;
use crate::text::{chars_of, contains, line_ranges, range_contains, text_lines};

verus! {

/// How many bytes at the end of the compositor log are examined.
pub const COMPOSITOR_LOG_TAIL_BYTES: u64 = 65536;

/// Lines examined when looking for crash signatures.
pub const UNHEALTHY_SCAN_LINES: usize = 80;

/// Lines examined when looking for a healthy warp mesh.
pub const HEALTHY_SCAN_LINES: usize = 40;

/// Offset at which reading the log starts: the last `COMPOSITOR_LOG_TAIL_BYTES` bytes of a
/// longer file, the whole file otherwise.
pub fn log_tail_start(file_len: u64) -> (r: u64)
    ensures
        r == if file_len > COMPOSITOR_LOG_TAIL_BYTES {
            file_len - COMPOSITOR_LOG_TAIL_BYTES
        } else {
            0
        },
{
    if file_len > COMPOSITOR_LOG_TAIL_BYTES {
        file_len - COMPOSITOR_LOG_TAIL_BYTES
    } else {
        0
    }
}

/// The last `n` lines of `t` (all of them when there are fewer).
pub open spec fn last_lines(t: Seq<char>, n: nat) -> Seq<Seq<char>> {
    let ls = text_lines(t);
    if ls.len() > n {
        ls.subrange(ls.len() - n, ls.len() as int)
    } else {
        ls
    }
}

/// A compositor start-up failure line.
pub open spec fn is_crash_signature(line: Seq<char>) -> bool {
    contains(line, "Fail (-203)"@) || contains(line, "BInit failed"@)
}

/// A warp mesh that covers nothing (`covers 0.00%`); `shrink wrap saved 0.00%` is not this.
pub open spec fn is_collapsed_warp_mesh(line: Seq<char>) -> bool {
    contains(line, "Warp mesh"@) && contains(line, "covers 0.00%"@)
}

/// A warp mesh line reporting a non-zero coverage.
pub open spec fn is_healthy_warp_mesh(line: Seq<char>) -> bool {
    contains(line, "Warp mesh"@) && contains(line, "covers"@) && !contains(line, "covers 0.00%"@)
}

/// One of the last 80 lines is a crash signature or a collapsed warp mesh.
pub open spec fn log_unhealthy(t: Seq<char>) -> bool {
    let ls = last_lines(t, UNHEALTHY_SCAN_LINES as nat);
    exists|i: int| 0 <= i < ls.len() && (is_crash_signature(ls[i]) || is_collapsed_warp_mesh(ls[i]))
}

/// One of the last 40 lines reports a healthy warp mesh.
pub open spec fn log_has_healthy_warp_mesh(t: Seq<char>) -> bool {
    let ls = last_lines(t, HEALTHY_SCAN_LINES as nat);
    exists|i: int| 0 <= i < ls.len() && is_healthy_warp_mesh(ls[i])
}

/// Whether the recent compositor log shows a crash; a missing or unreadable log is not one.
pub fn compositor_log_unhealthy(tail: Option<&str>) -> (r: bool)
    ensures
        r == match tail {
            Some(t) => log_unhealthy(t@),
            None => false,
        },
{
    match tail {
        Some(t) => tail_shows_crash(t),
        None => false,
    }
}

fn tail_shows_crash(t: &str) -> (r: bool)
    ensures
        r == log_unhealthy(t@),
{
    let text = chars_of(t);
    let ranges = line_ranges(&text);
    let fail_203 = chars_of("Fail (-203)");
    let binit = chars_of("BInit failed");
    let warp = chars_of("Warp mesh");
    let covers_zero = chars_of("covers 0.00%");
    let ghost ls = text_lines(text@);
    let ghost recent = last_lines(text@, UNHEALTHY_SCAN_LINES as nat);
    let n = ranges.len();
    let first = if n > UNHEALTHY_SCAN_LINES {
        n - UNHEALTHY_SCAN_LINES
    } else {
        0
    };
    assert(forall|i: int| 0 <= i < recent.len() ==> recent[i] == ls[first + i]);
    let mut k: usize = first;
    while k < n
        invariant
            first <= k <= n,
            n == ranges@.len(),
            n == ls.len(),
            ls == text_lines(text@),
            text@ == t@,
            recent == last_lines(text@, UNHEALTHY_SCAN_LINES as nat),
            recent.len() == n - first,
            forall|i: int| 0 <= i < recent.len() ==> recent[i] == ls[first + i],
            forall|i: int| 0 <= i < ranges@.len() ==> #[trigger] ranges@[i].0 <= ranges@[i].1 <= text@.len(),
            forall|i: int|
                0 <= i < ranges@.len() ==> #[trigger] ls[i] == text@.subrange(
                    ranges@[i].0 as int,
                    ranges@[i].1 as int,
                ),
            fail_203@ == "Fail (-203)"@,
            binit@ == "BInit failed"@,
            warp@ == "Warp mesh"@,
            covers_zero@ == "covers 0.00%"@,
            forall|i: int|
                first <= i < k ==> !(is_crash_signature(ls[i]) || is_collapsed_warp_mesh(ls[i])),
        decreases n - k,
    {
        let (a, b) = ranges[k];
        assert(ls[k as int] == text@.subrange(a as int, b as int));
        let bad = range_contains(&text, a, b, &fail_203) || range_contains(&text, a, b, &binit) || (
        range_contains(&text, a, b, &warp) && range_contains(&text, a, b, &covers_zero));
        if bad {
            assert(recent[k - first] == ls[k as int]);
            assert(is_crash_signature(ls[k as int]) || is_collapsed_warp_mesh(ls[k as int]));
            assert(0 <= k - first < recent.len());
            assert(is_crash_signature(recent[k - first]) || is_collapsed_warp_mesh(recent[k - first]));
            assert(log_unhealthy(t@));
            return true;
        }
        k = k + 1;
    }
    assert forall|i: int| 0 <= i < recent.len() implies !(is_crash_signature(recent[i])
        || is_collapsed_warp_mesh(recent[i])) by {
        assert(recent[i] == ls[first + i]);
    }
    false
}

/// Whether one of the recent compositor log lines reports a healthy warp mesh (the
/// `shrink wrap saved 0.00%` lines of a working compositor count as healthy).
pub fn compositor_log_has_healthy_warp_mesh(tail: Option<&str>) -> (r: bool)
    ensures
        r == match tail {
            Some(t) => log_has_healthy_warp_mesh(t@),
            None => false,
        },
{
    match tail {
        Some(t) => tail_shows_healthy_warp_mesh(t),
        None => false,
    }
}

fn tail_shows_healthy_warp_mesh(t: &str) -> (r: bool)
    ensures
        r == log_has_healthy_warp_mesh(t@),
{
    let text = chars_of(t);
    let ranges = line_ranges(&text);
    let warp = chars_of("Warp mesh");
    let covers = chars_of("covers");
    let covers_zero = chars_of("covers 0.00%");
    let ghost ls = text_lines(text@);
    let ghost recent = last_lines(text@, HEALTHY_SCAN_LINES as nat);
    let n = ranges.len();
    let first = if n > HEALTHY_SCAN_LINES {
        n - HEALTHY_SCAN_LINES
    } else {
        0
    };
    assert(forall|i: int| 0 <= i < recent.len() ==> recent[i] == ls[first + i]);
    let mut k: usize = first;
    while k < n
        invariant
            first <= k <= n,
            n == ranges@.len(),
            n == ls.len(),
            ls == text_lines(text@),
            text@ == t@,
            recent == last_lines(text@, HEALTHY_SCAN_LINES as nat),
            recent.len() == n - first,
            forall|i: int| 0 <= i < recent.len() ==> recent[i] == ls[first + i],
            forall|i: int| 0 <= i < ranges@.len() ==> #[trigger] ranges@[i].0 <= ranges@[i].1 <= text@.len(),
            forall|i: int|
                0 <= i < ranges@.len() ==> #[trigger] ls[i] == text@.subrange(
                    ranges@[i].0 as int,
                    ranges@[i].1 as int,
                ),
            warp@ == "Warp mesh"@,
            covers@ == "covers"@,
            covers_zero@ == "covers 0.00%"@,
            forall|i: int| first <= i < k ==> !is_healthy_warp_mesh(ls[i]),
        decreases n - k,
    {
        let (a, b) = ranges[k];
        assert(ls[k as int] == text@.subrange(a as int, b as int));
        let good = range_contains(&text, a, b, &warp) && range_contains(&text, a, b, &covers)
            && !range_contains(&text, a, b, &covers_zero);
        if good {
            assert(recent[k - first] == ls[k as int]);
            assert(is_healthy_warp_mesh(ls[k as int]));
            assert(0 <= k - first < recent.len());
            assert(is_healthy_warp_mesh(recent[k - first]));
            assert(log_has_healthy_warp_mesh(t@));
            return true;
        }
        k = k + 1;
    }
    assert forall|i: int| 0 <= i < recent.len() implies !is_healthy_warp_mesh(recent[i]) by {
        assert(recent[i] == ls[first + i]);
    }
    false
}

} // verus!
