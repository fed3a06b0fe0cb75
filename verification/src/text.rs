//! Character-level text utilities shared by the path, log and record helpers.

use vstd::prelude::*;

verus! {

/// Appends one character to a `String` (std's `String::push`).
#[verifier::external_body]
pub(crate) fn push_char(s: &mut String, c: char)
    ensures
        final(s)@ == old(s)@.push(c),
{
    s.push(c);
}

/// The characters of `s`, in order.
pub fn chars_of(s: &str) -> (r: Vec<char>)
    ensures
        r@ == s@,
{
    let mut out: Vec<char> = Vec::new();
    for c in it: s.chars()
        invariant
            out@ == it.seq().take(it.index() as int),
            it.seq() == s@,
    {
        out.push(c);
    }
    out
}

/// Appends the characters `v[from..to]` to `s`.
pub(crate) fn append_chars(s: &mut String, v: &Vec<char>, from: usize, to: usize)
    requires
        from <= to <= v.len(),
    ensures
        final(s)@ == old(s)@ + v@.subrange(from as int, to as int),
{
    let mut i: usize = from;
    while i < to
        invariant
            from <= i <= to <= v.len(),
            s@ == old(s)@ + v@.subrange(from as int, i as int),
        decreases to - i,
    {
        push_char(s, v[i]);
        assert(v@.subrange(from as int, i + 1) == v@.subrange(from as int, i as int).push(v@[i as int]));
        i = i + 1;
    }
}

/// Appends all characters of `t` to `s`.
pub(crate) fn append_str(s: &mut String, t: &str)
    ensures
        final(s)@ == old(s)@ + t@,
{
    let v = chars_of(t);
    append_chars(s, &v, 0, v.len());
    assert(v@.subrange(0, v@.len() as int) == v@);
}

/// `hay` has `needle` as a contiguous part starting at `i`.
pub open spec fn occurs_at(hay: Seq<char>, needle: Seq<char>, i: int) -> bool {
    0 <= i && i + needle.len() <= hay.len() && hay.subrange(i, i + needle.len()) == needle
}

/// `hay` contains `needle` as a contiguous part (what `str::contains` tests for a `&str` pattern).
pub open spec fn contains(hay: Seq<char>, needle: Seq<char>) -> bool {
    exists|i: int| occurs_at(hay, needle, i)
}

/// Whether `text[from..to]` contains `needle`.
pub fn range_contains(text: &Vec<char>, from: usize, to: usize, needle: &Vec<char>) -> (r: bool)
    requires
        from <= to <= text.len(),
    ensures
        r == contains(text@.subrange(from as int, to as int), needle@),
{
    let ghost hay = text@.subrange(from as int, to as int);
    let n = needle.len();
    if n > to - from {
        assert forall|i: int| !occurs_at(hay, needle@, i) by {}
        return false;
    }
    let last = to - from - n;
    let mut i: usize = 0;
    while i <= last
        invariant
            from <= to <= text.len(),
            n == needle.len(),
            n <= to - from,
            last == to - from - n,
            hay == text@.subrange(from as int, to as int),
            forall|k: int| 0 <= k < i ==> !occurs_at(hay, needle@, k),
        decreases last + 1 - i,
    {
        let mut j: usize = 0;
        let mut same = true;
        while j < n
            invariant
                from <= to <= text.len(),
                n == needle.len(),
                i <= last,
                last == to - from - n,
                j <= n,
                same == (forall|m: int| 0 <= m < j ==> text@[from + i + m] == needle@[m]),
            decreases n - j,
        {
            if text[from + i + j] != needle[j] {
                same = false;
            }
            j = j + 1;
        }
        if same {
            assert(hay.subrange(i as int, i + n) =~= needle@);
            assert(occurs_at(hay, needle@, i as int));
            return true;
        }
        assert(!occurs_at(hay, needle@, i as int)) by {
            if occurs_at(hay, needle@, i as int) {
                let m = choose|m: int| 0 <= m < n && text@[from + i + m] != needle@[m];
                assert(hay.subrange(i as int, i + n)[m] == needle@[m]);
            }
        }
        i = i + 1;
    }
    assert forall|k: int| !occurs_at(hay, needle@, k) by {
        if occurs_at(hay, needle@, k) {
            assert(k < i);
        }
    }
    false
}


/// The ASCII digit for `d` (`0 <= d < 10`).
pub open spec fn digit_char(d: nat) -> char {
    ((d + 48) as u8) as char
}

/// Decimal representation of `n`, most significant digit first, no leading zeros
/// (what `Display` prints for an unsigned integer).
pub open spec fn decimal(n: nat) -> Seq<char>
    decreases n,
{
    if n < 10 {
        seq![digit_char(n)]
    } else {
        decimal(n / 10).push(digit_char(n % 10))
    }
}

fn digit(d: u128) -> (c: char)
    requires
        d < 10,
    ensures
        c == digit_char(d as nat),
{
    let b: u8 = (d as u8) + 48;
    b as char
}

/// Appends the decimal representation of `n` to `s`.
pub fn append_decimal(s: &mut String, n: u128)
    ensures
        final(s)@ == old(s)@ + decimal(n as nat),
    decreases n,
{
    if n >= 10 {
        append_decimal(s, n / 10);
    }
    push_char(s, digit(n % 10));
}


/// Index of the first `'\n'` in `t`, or `t.len()` when there is none.
pub open spec fn first_newline(t: Seq<char>) -> int
    decreases t.len(),
{
    if t.len() == 0 {
        0
    } else if t[0] == '\n' {
        0
    } else {
        1 + first_newline(t.drop_first())
    }
}

/// `first_newline` lies in `0..=t.len()`, and no `'\n'` comes before it.
pub proof fn lemma_first_newline(t: Seq<char>)
    ensures
        0 <= first_newline(t) <= t.len(),
        first_newline(t) < t.len() ==> t[first_newline(t)] == '\n',
        forall|p: int| 0 <= p < first_newline(t) ==> t[p] != '\n',
    decreases t.len(),
{
    if t.len() > 0 && t[0] != '\n' {
        lemma_first_newline(t.drop_first());
        assert forall|p: int| 0 <= p < first_newline(t) implies t[p] != '\n' by {
            if p > 0 {
                assert(t[p] == t.drop_first()[p - 1]);
            }
        }
    }
}

/// A position `k` with no `'\n'` before it, and either the end or a `'\n'` at it, is `first_newline`.
pub proof fn lemma_first_newline_at(t: Seq<char>, k: int)
    requires
        0 <= k <= t.len(),
        k < t.len() ==> t[k] == '\n',
        forall|p: int| 0 <= p < k ==> t[p] != '\n',
    ensures
        first_newline(t) == k,
    decreases k,
{
    if k > 0 {
        let u = t.drop_first();
        assert forall|p: int| 0 <= p < k - 1 implies u[p] != '\n' by {
            assert(u[p] == t[p + 1]);
        }
        if k - 1 < u.len() {
            assert(u[k - 1] == t[k]);
        }
        lemma_first_newline_at(u, k - 1);
    }
}

/// A line with the `'\r'` of a `"\r\n"` terminator removed.
pub open spec fn strip_cr(line: Seq<char>) -> Seq<char> {
    if line.len() > 0 && line.last() == '\r' {
        line.drop_last()
    } else {
        line
    }
}

/// The lines of `t` as `str::lines` yields them: split at `'\n'`, a `'\r'` right before a
/// `'\n'` dropped, and no empty last line after a final terminator.
pub open spec fn text_lines(t: Seq<char>) -> Seq<Seq<char>>
    decreases t.len(),
{
    if t.len() == 0 {
        seq![]
    } else {
        let k = first_newline(t);
        if k >= t.len() {
            seq![t]
        } else {
            proof {
                lemma_first_newline(t);
            }
            seq![strip_cr(t.take(k))] + text_lines(t.skip(k + 1))
        }
    }
}

/// The `(start, end)` character ranges of the lines of `text` (see `text_lines`).
pub fn line_ranges(text: &Vec<char>) -> (r: Vec<(usize, usize)>)
    ensures
        r@.len() == text_lines(text@).len(),
        forall|i: int| 0 <= i < r@.len() ==> #[trigger] r@[i].0 <= r@[i].1 <= text@.len(),
        forall|i: int|
            0 <= i < r@.len() ==> #[trigger] text_lines(text@)[i] == text@.subrange(
                r@[i].0 as int,
                r@[i].1 as int,
            ),
{
    let n = text.len();
    let mut r: Vec<(usize, usize)> = Vec::new();
    let mut start: usize = 0;
    let ghost t = text@;
    assert(t.skip(0) == t);
    while start < n
        invariant
            n == text.len(),
            t == text@,
            start <= n,
            r@.len() + text_lines(t.skip(start as int)).len() == text_lines(t).len(),
            forall|i: int| 0 <= i < r@.len() ==> #[trigger] r@[i].0 <= r@[i].1 <= n,
            forall|i: int|
                0 <= i < r@.len() ==> #[trigger] text_lines(t)[i] == t.subrange(
                    r@[i].0 as int,
                    r@[i].1 as int,
                ),
            forall|i: int|
                0 <= i < text_lines(t.skip(start as int)).len() ==> #[trigger] text_lines(t.skip(
                    start as int,
                ))[i] == text_lines(t)[r@.len() + i],
        decreases n - start,
    {
        let mut j: usize = start;
        while j < n && text[j] != '\n'
            invariant
                n == text.len(),
                start <= j <= n,
                forall|p: int| start <= p < j ==> text@[p] != '\n',
            decreases n - j,
        {
            j = j + 1;
        }
        let ghost rest = t.skip(start as int);
        proof {
            assert forall|p: int| 0 <= p < j - start implies rest[p] != '\n' by {
                assert(rest[p] == t[start + p]);
            }
            if j < n {
                assert(rest[j - start] == t[j as int]);
            }
            lemma_first_newline_at(rest, j - start);
        }
        let ghost old_r = r@;
        if j == n {
            assert(rest == t.subrange(start as int, n as int));
            assert(text_lines(rest) == seq![rest]);
            assert(text_lines(t)[old_r.len() as int] == text_lines(rest)[0]);
            assert(text_lines(t)[old_r.len() as int] == t.subrange(start as int, n as int));
            r.push((start, n));
            assert(r@[old_r.len() as int] == (start, n));
            assert(t.skip(n as int).len() == 0);
            assert(text_lines(t.skip(n as int)) == Seq::<Seq<char>>::empty());
            start = n;
        } else {
            let end = if j > start && text[j - 1] == '\r' {
                j - 1
            } else {
                j
            };
            let ghost line = rest.take(j - start);
            assert(line == t.subrange(start as int, j as int));
            assert(strip_cr(line) == t.subrange(start as int, end as int));
            assert(rest.skip(j - start + 1) == t.skip(j + 1));
            assert(text_lines(rest) == seq![strip_cr(line)] + text_lines(t.skip(j + 1)));
            assert(text_lines(t)[old_r.len() as int] == text_lines(rest)[0]);
            assert(text_lines(rest)[0] == strip_cr(line));
            assert(text_lines(t)[old_r.len() as int] == t.subrange(start as int, end as int));
            assert(start <= end <= n);
            r.push((start, end));
            assert(r@[old_r.len() as int] == (start, end));
            assert forall|i: int| 0 <= i < text_lines(t.skip(j + 1)).len() implies #[trigger] text_lines(
                t.skip(j + 1),
            )[i] == text_lines(t)[r@.len() + i] by {
                assert(text_lines(t.skip(j + 1))[i] == text_lines(rest)[i + 1]);
            }
            start = j + 1;
        }
        assert forall|i: int| 0 <= i < r@.len() implies #[trigger] r@[i].0 <= r@[i].1 <= n && text_lines(t)[i]
            == t.subrange(r@[i].0 as int, r@[i].1 as int) by {
            if i < old_r.len() {
                assert(r@[i] == old_r[i]);
                assert(text_lines(t)[i] == t.subrange(old_r[i].0 as int, old_r[i].1 as int));
                assert(old_r[i].0 <= old_r[i].1 <= n);
            } else {
                assert(i == old_r.len());
            }
        }
    }
    assert(t.skip(n as int).len() == 0);
    r
}

} // verus!
