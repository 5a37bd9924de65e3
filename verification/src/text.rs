//! Character-level text utilities: locating characters, prefix tests,
//! quoted-substring extraction, and splitting a document into lines.

use vstd::prelude::*;

verus! {

/// Index of the first occurrence of `c` in `s`, if any.
pub open spec fn spec_find(s: Seq<char>, c: char) -> Option<int>
    decreases s.len(),
{
    if s.len() == 0 {
        None
    } else if s[0] == c {
        Some(0int)
    } else {
        match spec_find(s.subrange(1, s.len() as int), c) {
            None => None,
            Some(i) => Some(i + 1),
        }
    }
}

/// Index of the last occurrence of `c` in `s`, if any.
pub open spec fn spec_rfind(s: Seq<char>, c: char) -> Option<int>
    decreases s.len(),
{
    if s.len() == 0 {
        None
    } else if s[s.len() - 1] == c {
        Some(s.len() - 1)
    } else {
        spec_rfind(s.subrange(0, s.len() - 1), c)
    }
}

/// `spec_find` returns the first occurrence: the character is there and no
/// earlier position holds it; `None` means the character does not occur.
pub proof fn lemma_spec_find(s: Seq<char>, c: char)
    ensures
        match spec_find(s, c) {
            Some(i) => 0 <= i < s.len() && s[i] == c && forall|j: int| 0 <= j < i ==> s[j] != c,
            None => forall|j: int| 0 <= j < s.len() ==> s[j] != c,
        },
    decreases s.len(),
{
    if s.len() == 0 {
    } else if s[0] == c {
    } else {
        let t = s.subrange(1, s.len() as int);
        lemma_spec_find(t, c);
        match spec_find(t, c) {
            None => {
                assert forall|j: int| 0 <= j < s.len() implies s[j] != c by {
                    if j > 0 {
                        assert(t[j - 1] == s[j]);
                    }
                }
            },
            Some(i) => {
                assert(t[i] == s[i + 1]);
                assert forall|j: int| 0 <= j < i + 1 implies s[j] != c by {
                    if j > 0 {
                        assert(t[j - 1] == s[j]);
                    }
                }
            },
        }
    }
}

/// `spec_rfind` returns the last occurrence: the character is there and no
/// later position holds it; `None` means the character does not occur.
pub proof fn lemma_spec_rfind(s: Seq<char>, c: char)
    ensures
        match spec_rfind(s, c) {
            Some(i) => 0 <= i < s.len() && s[i] == c && forall|j: int| i < j < s.len() ==> s[j] != c,
            None => forall|j: int| 0 <= j < s.len() ==> s[j] != c,
        },
    decreases s.len(),
{
    if s.len() == 0 {
    } else if s[s.len() - 1] == c {
    } else {
        let t = s.subrange(0, s.len() - 1);
        lemma_spec_rfind(t, c);
        match spec_rfind(t, c) {
            None => {
                assert forall|j: int| 0 <= j < s.len() implies s[j] != c by {
                    if j < s.len() - 1 {
                        assert(t[j] == s[j]);
                    }
                }
            },
            Some(i) => {
                assert(t[i] == s[i]);
                assert forall|j: int| i < j < s.len() implies s[j] != c by {
                    if j < s.len() - 1 {
                        assert(t[j] == s[j]);
                    }
                }
            },
        }
    }
}

/// First occurrence of `c` in `s`, as `str::find` reports it for a single
/// character, counted in characters rather than bytes.
pub fn find_char(s: &str, c: char) -> (r: Option<usize>)
    ensures
        match r {
            Some(i) => spec_find(s@, c) == Some(i as int),
            None => spec_find(s@, c) is None,
        },
{
    proof {
        lemma_spec_find(s@, c);
    }
    let n = s.unicode_len();
    let mut i: usize = 0;
    while i < n
        invariant
            n == s@.len(),
            0 <= i <= n,
            forall|j: int| 0 <= j < i ==> s@[j] != c,
            match spec_find(s@, c) {
                Some(k) => 0 <= k < s@.len() && s@[k] == c && forall|j: int| 0 <= j < k ==> s@[j] != c,
                None => forall|j: int| 0 <= j < s@.len() ==> s@[j] != c,
            },
        decreases n - i,
    {
        if s.get_char(i) == c {
            return Some(i);
        }
        i += 1;
    }
    None
}

/// Last occurrence of `c` in `s`, as `str::rfind` reports it for a single
/// character, counted in characters rather than bytes.
pub fn rfind_char(s: &str, c: char) -> (r: Option<usize>)
    ensures
        match r {
            Some(i) => spec_rfind(s@, c) == Some(i as int),
            None => spec_rfind(s@, c) is None,
        },
{
    proof {
        lemma_spec_rfind(s@, c);
    }
    let n = s.unicode_len();
    let mut i: usize = n;
    while i > 0
        invariant
            n == s@.len(),
            0 <= i <= n,
            forall|j: int| i <= j < n ==> s@[j] != c,
            match spec_rfind(s@, c) {
                Some(k) => 0 <= k < s@.len() && s@[k] == c && forall|j: int| k < j < s@.len() ==> s@[j] != c,
                None => forall|j: int| 0 <= j < s@.len() ==> s@[j] != c,
            },
        decreases i,
    {
        if s.get_char(i - 1) == c {
            return Some(i - 1);
        }
        i -= 1;
    }
    None
}

/// `s` begins with the prefix `p`.
pub open spec fn spec_starts_with(s: Seq<char>, p: Seq<char>) -> bool {
    p.len() <= s.len() && s.subrange(0, p.len() as int) == p
}

/// Prefix test, counted in characters.
pub fn str_starts_with(s: &str, p: &str) -> (r: bool)
    ensures
        r == spec_starts_with(s@, p@),
{
    let n = s.unicode_len();
    let m = p.unicode_len();
    if m > n {
        assert(!spec_starts_with(s@, p@));
        return false;
    }
    let mut i: usize = 0;
    while i < m
        invariant
            n == s@.len(),
            m == p@.len(),
            m <= n,
            0 <= i <= m,
            forall|j: int| 0 <= j < i ==> s@[j] == p@[j],
        decreases m - i,
    {
        if s.get_char(i) != p.get_char(i) {
            assert(s@.subrange(0, p@.len() as int)[i as int] != p@[i as int]);
            return false;
        }
        i += 1;
    }
    assert(s@.subrange(0, p@.len() as int) =~= p@);
    true
}

/// One trailing carriage return is removed, as `str::lines` does for a line
/// that ended in `\r\n`.
pub open spec fn spec_strip_cr(l: Seq<char>) -> Seq<char> {
    if l.len() > 0 && l[l.len() - 1] == '\r' {
        l.subrange(0, l.len() - 1)
    } else {
        l
    }
}

fn strip_cr<'a>(s: &'a str) -> (r: &'a str)
    ensures
        r@ == spec_strip_cr(s@),
{
    let n = s.unicode_len();
    if n > 0 && s.get_char(n - 1) == '\r' {
        s.substring_char(0, n - 1)
    } else {
        s
    }
}

/// The segments of `s` between occurrences of `sep`; always at least one
/// segment, and one more segment than separators.
pub open spec fn spec_split(s: Seq<char>, sep: char) -> Seq<Seq<char>>
    decreases s.len(),
    via spec_split_decreases
{
    match spec_find(s, sep) {
        None => seq![s],
        Some(i) => seq![s.subrange(0, i)] + spec_split(s.subrange(i + 1, s.len() as int), sep),
    }
}

#[via_fn]
proof fn spec_split_decreases(s: Seq<char>, sep: char) {
    lemma_spec_find(s, sep);
}

/// The lines of `s`, as `str::lines` yields them: split at `\n`, a final
/// line ending optional, and a `\r` that stood before a `\n` removed.
pub open spec fn spec_lines(s: Seq<char>) -> Seq<Seq<char>> {
    let segs = spec_split(s, '\n');
    let m = if segs[segs.len() - 1].len() == 0 {
        segs.len() - 1
    } else {
        segs.len() as int
    };
    Seq::new(m as nat, |i: int| if i + 1 < segs.len() { spec_strip_cr(segs[i]) } else { segs[i] })
}

proof fn lemma_split_nonempty(s: Seq<char>, sep: char)
    ensures
        spec_split(s, sep).len() >= 1,
{
    lemma_spec_find(s, sep);
}

/// Splitting off the first line: when `s` holds a newline at `i`, its lines
/// are the stripped text before it followed by the lines of the text after it.
proof fn lemma_lines_step(s: Seq<char>, i: int)
    requires
        spec_find(s, '\n') == Some(i),
    ensures
        spec_lines(s) == seq![spec_strip_cr(s.subrange(0, i))] + spec_lines(
            s.subrange(i + 1, s.len() as int),
        ),
{
    lemma_spec_find(s, '\n');
    let tail = s.subrange(i + 1, s.len() as int);
    let segs = spec_split(s, '\n');
    let tail_segs = spec_split(tail, '\n');
    lemma_split_nonempty(tail, '\n');
    assert(segs == seq![s.subrange(0, i)] + tail_segs);
    assert(segs.len() == tail_segs.len() + 1);
    assert(segs[segs.len() - 1] == tail_segs[tail_segs.len() - 1]);
    let left = spec_lines(s);
    let right = seq![spec_strip_cr(s.subrange(0, i))] + spec_lines(tail);
    assert(left.len() == right.len());
    assert forall|k: int| 0 <= k < left.len() implies left[k] == right[k] by {
        if k == 0 {
            assert(segs[0] == s.subrange(0, i));
        } else {
            assert(segs[k] == tail_segs[k - 1]);
        }
    }
    assert(left =~= right);
}

/// Lines of a text without any newline: none when the text is empty, the
/// whole text otherwise.
proof fn lemma_lines_end(s: Seq<char>)
    requires
        spec_find(s, '\n') is None,
    ensures
        s.len() == 0 ==> spec_lines(s) == Seq::<Seq<char>>::empty(),
        s.len() > 0 ==> spec_lines(s) == seq![s],
{
    let segs = spec_split(s, '\n');
    assert(segs == seq![s]);
    if s.len() == 0 {
        assert(spec_lines(s) =~= Seq::<Seq<char>>::empty());
    } else {
        assert(spec_lines(s) =~= seq![s]);
    }
}

/// The lines of `text`, as `str::lines` yields them.
pub fn split_lines(text: &str) -> (r: Vec<String>)
    ensures
        r.deep_view() == spec_lines(text@),
{
    let mut out: Vec<String> = Vec::new();
    let mut rest: &str = text;
    loop
        invariant
            spec_lines(text@) == out.deep_view() + spec_lines(rest@),
        ensures
            spec_lines(text@) == out.deep_view() + spec_lines(rest@),
            spec_find(rest@, '\n') is None,
        decreases rest@.len(),
    {
        let ghost prefix = out.deep_view();
        match find_char(rest, '\n') {
            Some(i) => {
                proof {
                    lemma_spec_find(rest@, '\n');
                    lemma_lines_step(rest@, i as int);
                }
                let seg = rest.substring_char(0, i);
                let stripped = strip_cr(seg);
                out.push(stripped.to_owned());
                let n = rest.unicode_len();
                let ghost old_rest = rest@;
                rest = rest.substring_char(i + 1, n);
                proof {
                    assert(out.deep_view() =~= prefix.push(
                        spec_strip_cr(old_rest.subrange(0, i as int)),
                    ));
                    assert(out.deep_view() + spec_lines(rest@) =~= prefix + spec_lines(old_rest));
                }
            },
            None => {
                break;
            },
        }
    }
    proof {
        lemma_lines_end(rest@);
    }
    let ghost prefix = out.deep_view();
    if rest.unicode_len() > 0 {
        out.push(rest.to_owned());
        proof {
            assert(out.deep_view() =~= prefix.push(rest@));
            assert(out.deep_view() =~= prefix + spec_lines(rest@));
        }
    } else {
        proof {
            assert(out.deep_view() =~= prefix + spec_lines(rest@));
        }
    }
    out
}

/// The text between the first and the last double quote of `line`, exclusive;
/// empty when the line does not hold two distinct quote characters.
pub open spec fn spec_quoted(line: Seq<char>) -> Seq<char> {
    match (spec_find(line, '"'), spec_rfind(line, '"')) {
        (Some(a), Some(b)) => if a + 1 <= b {
            line.subrange(a + 1, b)
        } else {
            Seq::empty()
        },
        _ => Seq::empty(),
    }
}

/// Extracts the quoted value of a manifest line: the characters strictly
/// between the first and the last double quote. A line with fewer than two
/// quote characters yields the empty string.
pub fn quoted_value(line: &str) -> (r: String)
    ensures
        r@ == spec_quoted(line@),
{
    proof {
        lemma_spec_find(line@, '"');
        lemma_spec_rfind(line@, '"');
    }
    match (find_char(line, '"'), rfind_char(line, '"')) {
        (Some(a), Some(b)) => {
            if a < b {
                line.substring_char(a + 1, b).to_owned()
            } else {
                String::new()
            }
        },
        _ => String::new(),
    }
}

/// `line` holds a well-formed quoted value: at least two quote characters,
/// so that an opening quote stands strictly before the closing one.
pub open spec fn spec_well_quoted(line: Seq<char>) -> bool {
    match (spec_find(line, '"'), spec_rfind(line, '"')) {
        (Some(a), Some(b)) => a < b,
        _ => false,
    }
}

/// Tests whether the line holds a well-formed quoted value; where it does
/// not, `quoted_value` yields the empty string and the caller owes a warning.
pub fn well_quoted(line: &str) -> (r: bool)
    ensures
        r == spec_well_quoted(line@),
{
    match (find_char(line, '"'), rfind_char(line, '"')) {
        (Some(a), Some(b)) => a < b,
        _ => false,
    }
}

/// Every `.` replaced by `,`; the other characters unchanged. This is what
/// splitting on `.` and joining the parts with `,` comes to.
pub open spec fn spec_dots_to_commas(s: Seq<char>) -> Seq<char> {
    Seq::new(s.len(), |i: int| if s[i] == '.' { ',' } else { s[i] })
}

/// Derives the comma-joined file version from a dotted version string.
pub fn dots_to_commas(s: &str) -> (r: String)
    ensures
        r@ == spec_dots_to_commas(s@),
{
    proof {
        reveal_strlit(",");
    }
    let n = s.unicode_len();
    let mut out = String::new();
    let mut i: usize = 0;
    while i < n
        invariant
            n == s@.len(),
            0 <= i <= n,
            out@ == spec_dots_to_commas(s@).subrange(0, i as int),
            ","@ =~= seq![','],
        decreases n - i,
    {
        let ghost before = out@;
        if s.get_char(i) == '.' {
            out.append(",");
        } else {
            let piece = s.substring_char(i, i + 1);
            out.append(piece);
        }
        i += 1;
        proof {
            assert(out@ =~= spec_dots_to_commas(s@).subrange(0, i as int));
        }
    }
    proof {
        assert(spec_dots_to_commas(s@).subrange(0, n as int) =~= spec_dots_to_commas(s@));
    }
    out
}

} // verus!
