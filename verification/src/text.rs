//! Text helpers shared by the rest of the crate: views of string lists,
//! joining, and the few `std` string operations that need a stated contract.

use vstd::prelude::*;
use vstd::string::*;

verus! {

/// The character sequences of a list of strings.
pub open spec fn strings_view(v: Seq<String>) -> Seq<Seq<char>> {
    v.map_values(|s: String| s@)
}

/// `parts` written one after the other with `sep` between neighbours.
pub open spec fn join_spec(parts: Seq<Seq<char>>, sep: Seq<char>) -> Seq<char>
    decreases parts.len(),
{
    if parts.len() == 0 {
        Seq::empty()
    } else if parts.len() == 1 {
        parts[0]
    } else {
        join_spec(parts.drop_last(), sep) + sep + parts.last()
    }
}

/// The name that stands for a missing one.
pub open spec fn unknown_name() -> Seq<char> {
    seq!['U', 'n', 'k', 'n', 'o', 'w', 'n']
}

/// `hay` holds `needle` as a contiguous run of characters.
pub open spec fn contains_text(hay: Seq<char>, needle: Seq<char>) -> bool {
    exists|i: int|
        0 <= i && i + needle.len() <= hay.len() && #[trigger] hay.subrange(
            i,
            i + needle.len(),
        ) == needle
}

/// The lowercase form of a text, as `str::to_lowercase` computes it.
pub uninterp spec fn lowercase_text(s: Seq<char>) -> Seq<char>;

/// `str::to_lowercase`: the result is the Unicode lowercase form of the
/// argument, which this crate only names.
#[verifier::external_body]
pub(crate) fn to_lowercase(s: &str) -> (r: String)
    ensures
        r@ == lowercase_text(s@),
{
    s.to_lowercase()
}

/// The characters of a text, one by one.
pub fn chars_of(text: &str) -> (r: Vec<char>)
    ensures
        r@ == text@,
{
    let n = text.unicode_len();
    let mut out: Vec<char> = Vec::new();
    let mut i: usize = 0;
    while i < n
        invariant
            i <= n,
            n == text@.len(),
            out@ == text@.subrange(0, i as int),
        decreases n - i,
    {
        out.push(text.get_char(i));
        assert(out@ =~= text@.subrange(0, i + 1));
        i += 1;
    }
    assert(text@.subrange(0, n as int) =~= text@);
    out
}

/// Whether `needle` stands in `hay` at the position `at`.
pub fn occurs_at(hay: &Vec<char>, needle: &Vec<char>, at: usize) -> (r: bool)
    requires
        at + needle@.len() <= hay@.len(),
    ensures
        r == (hay@.subrange(at as int, at + needle@.len()) == needle@),
{
    let m = needle.len();
    let n = hay.len();
    let mut j: usize = 0;
    while j < m
        invariant
            j <= m,
            m == needle@.len(),
            n == hay@.len(),
            at + m <= n,
            forall|k: int| 0 <= k < j ==> hay@[at + k] == needle@[k],
        decreases m - j,
    {
        if hay[at + j] != needle[j] {
            assert(hay@.subrange(at as int, at + m)[j as int] != needle@[j as int]);
            return false;
        }
        j += 1;
    }
    assert(hay@.subrange(at as int, at + m) =~= needle@);
    true
}

/// Whether `hay` holds `needle` as a contiguous run of characters.
pub fn contains(hay: &str, needle: &str) -> (r: bool)
    ensures
        r == contains_text(hay@, needle@),
{
    let h = chars_of(hay);
    let p = chars_of(needle);
    let n = h.len();
    let m = p.len();
    if m > n {
        return false;
    }
    let last = n - m;
    let mut i: usize = 0;
    while i < last
        invariant
            m <= n,
            last == n - m,
            n == h@.len(),
            m == p@.len(),
            h@ == hay@,
            p@ == needle@,
            i <= last,
            forall|k: int| 0 <= k < i ==> #[trigger] h@.subrange(k, k + m) != p@,
        decreases last - i,
    {
        if occurs_at(&h, &p, i) {
            return true;
        }
        i += 1;
    }
    occurs_at(&h, &p, last)
}

/// The place of the first occurrence of `sep` in `text` that starts at
/// `from` or behind it, or the length of `text` where there is none.
pub open spec fn find_from(text: Seq<char>, sep: Seq<char>, from: int) -> int
    decreases text.len() - from,
{
    if from < 0 || sep.len() == 0 || from + sep.len() > text.len() {
        text.len() as int
    } else if text.subrange(from, from + sep.len()) == sep {
        from
    } else {
        find_from(text, sep, from + 1)
    }
}

/// The parts of `text` behind the position `from`, cut at every occurrence
/// of `sep` as they are found from the left.
pub open spec fn split_from(text: Seq<char>, sep: Seq<char>, from: int) -> Seq<Seq<char>>
    decreases text.len() - from,
{
    let next = find_from(text, sep, from);
    if sep.len() == 0 || from < 0 || next < from || next + sep.len() > text.len() {
        seq![text.subrange(from, text.len() as int)]
    } else {
        seq![text.subrange(from, next)] + split_from(text, sep, next + sep.len())
    }
}

/// The parts of `text` between the occurrences of `sep`, found from the
/// left: one part more than there are occurrences. The empty separator
/// occurs nowhere, so it gives the whole text as the one part.
pub open spec fn split_spec(text: Seq<char>, sep: Seq<char>) -> Seq<Seq<char>> {
    split_from(text, sep, 0)
}

/// Where no occurrence starts in a stretch, the first occurrence behind the
/// start of the stretch is the first behind its end.
pub proof fn lemma_find_skips(text: Seq<char>, sep: Seq<char>, from: int, to: int)
    requires
        0 <= from <= to,
        to + sep.len() <= text.len() || to == text.len(),
        sep.len() > 0,
        forall|k: int| from <= k < to && k + sep.len() <= text.len() ==> #[trigger] text.subrange(
            k,
            k + sep.len(),
        ) != sep,
    ensures
        find_from(text, sep, from) == find_from(text, sep, to),
    decreases to - from,
{
    if from < to {
        if from + sep.len() <= text.len() {
            assert(text.subrange(from, from + sep.len()) != sep);
            lemma_find_skips(text, sep, from + 1, to);
        }
    }
}

/// Cuts `text` at every occurrence of `sep`. The empty separator occurs
/// nowhere: it leaves the text in one part.
pub fn split(text: &str, sep: &str) -> (r: Vec<String>)
    ensures
        strings_view(r@) == split_spec(text@, sep@),
        r@.len() >= 1,
        sep@.len() == 0 ==> r@.len() == 1 && r@[0]@ == text@,
{
    let t = chars_of(text);
    let p = chars_of(sep);
    let n = t.len();
    let m = p.len();
    let mut parts: Vec<String> = Vec::new();
    let mut start: usize = 0;
    assert(strings_view(parts@) =~= Seq::empty());
    if 0 < m && m <= n {
        let last = n - m;
        let mut cur: usize = 0;
        while cur <= last
            invariant
                n == t@.len(),
                m == p@.len(),
                0 < m <= n,
                last == n - m,
                t@ == text@,
                p@ == sep@,
                start <= cur <= n,
                forall|k: int|
                    start <= k < cur && k + m <= n ==> #[trigger] t@.subrange(k, k + m) != p@,
                split_spec(t@, p@) == strings_view(parts@) + split_from(t@, p@, start as int),
            decreases n - cur,
        {
            if occurs_at(&t, &p, cur) {
                proof {
                    lemma_find_skips(t@, p@, start as int, cur as int);
                    assert(find_from(t@, p@, cur as int) == cur);
                }
                let ghost done = strings_view(parts@);
                let ghost part = t@.subrange(start as int, cur as int);
                parts.push(String::from_str(text.substring_char(start, cur)));
                proof {
                    assert(strings_view(parts@) =~= done.push(part));
                    assert(done + (seq![part] + split_from(t@, p@, cur + m)) =~= done.push(part)
                        + split_from(t@, p@, cur + m));
                }
                cur = cur + m;
                start = cur;
            } else {
                cur += 1;
            }
        }
        proof {
            assert forall|k: int| start <= k < n && k + m <= n implies #[trigger] t@.subrange(
                k,
                k + m,
            ) != p@ by {
                assert(k < cur);
            }
        }
    }
    proof {
        if m > 0 {
            lemma_find_skips(t@, p@, start as int, n as int);
            assert(find_from(t@, p@, n as int) == n);
        }
    }
    let ghost done = strings_view(parts@);
    let ghost rest = t@.subrange(start as int, n as int);
    parts.push(String::from_str(text.substring_char(start, n)));
    assert(strings_view(parts@) =~= done.push(rest));
    assert(done + seq![rest] =~= done.push(rest));
    proof {
        if m == 0 {
            assert(rest =~= text@);
        }
    }
    parts
}

/// `String::push`: appends one character.
#[verifier::external_body]
pub(crate) fn push_char(s: &mut String, c: char)
    ensures
        final(s)@ == old(s)@.push(c),
{
    s.push(c)
}

/// Removes the last character of a text and returns it, if there is one.
pub fn pop_char(s: &mut String) -> (r: Option<char>)
    ensures
        old(s)@.len() == 0 ==> r is None && final(s)@ == old(s)@,
        old(s)@.len() > 0 ==> r == Some(old(s)@.last()) && final(s)@ == old(s)@.drop_last(),
{
    let n = s.as_str().unicode_len();
    if n == 0 {
        return None;
    }
    let last = s.as_str().get_char(n - 1);
    let head = String::from_str(s.as_str().substring_char(0, n - 1));
    assert(head@ =~= s@.drop_last());
    *s = head;
    Some(last)
}

/// Copies a list of strings.
pub fn clone_strings(v: &Vec<String>) -> (r: Vec<String>)
    ensures
        strings_view(r@) == strings_view(v@),
        r@.len() == v@.len(),
{
    let mut out: Vec<String> = Vec::new();
    let mut i: usize = 0;
    while i < v.len()
        invariant
            i <= v.len(),
            out@.len() == i,
            forall|k: int| 0 <= k < i ==> out@[k]@ == v@[k]@,
        decreases v.len() - i,
    {
        out.push(v[i].clone());
        i += 1;
    }
    assert(strings_view(out@) =~= strings_view(v@));
    out
}

/// Joins `parts` with `sep` between neighbours.
pub fn join_strings(parts: &Vec<String>, sep: &str) -> (r: String)
    ensures
        r@ == join_spec(strings_view(parts@), sep@),
{
    let ghost all = strings_view(parts@);
    let mut out = String::new();
    let mut i: usize = 0;
    while i < parts.len()
        invariant
            i <= parts.len(),
            all == strings_view(parts@),
            out@ == join_spec(all.subrange(0, i as int), sep@),
        decreases parts.len() - i,
    {
        let ghost before = all.subrange(0, i as int);
        let ghost after = all.subrange(0, i + 1);
        proof {
            assert(after.drop_last() =~= before);
            assert(after.last() == parts@[i as int]@);
        }
        if i > 0 {
            out.append(sep);
        } else {
            assert(out@ + parts@[i as int]@ =~= parts@[i as int]@);
        }
        out.append(parts[i].as_str());
        i += 1;
    }
    assert(all.subrange(0, parts.len() as int) =~= all);
    out
}

/// The character of a decimal digit.
pub open spec fn digit_char(d: int) -> char {
    if d == 0 {
        '0'
    } else if d == 1 {
        '1'
    } else if d == 2 {
        '2'
    } else if d == 3 {
        '3'
    } else if d == 4 {
        '4'
    } else if d == 5 {
        '5'
    } else if d == 6 {
        '6'
    } else if d == 7 {
        '7'
    } else if d == 8 {
        '8'
    } else {
        '9'
    }
}

/// A natural number in decimal digits, without leading zeros.
pub open spec fn decimal(n: nat) -> Seq<char>
    decreases n,
{
    if n < 10 {
        seq![digit_char(n as int)]
    } else {
        decimal(n / 10).push(digit_char((n % 10) as int))
    }
}

/// An integer in decimal digits, with a minus sign in front of a negative
/// one.
pub open spec fn signed_decimal(n: int) -> Seq<char> {
    if n < 0 {
        seq!['-'] + decimal((-n) as nat)
    } else {
        decimal(n as nat)
    }
}

/// The character of the decimal digit `d`.
pub fn digit(d: u64) -> (r: char)
    requires
        d < 10,
    ensures
        r == digit_char(d as int),
{
    if d == 0 {
        '0'
    } else if d == 1 {
        '1'
    } else if d == 2 {
        '2'
    } else if d == 3 {
        '3'
    } else if d == 4 {
        '4'
    } else if d == 5 {
        '5'
    } else if d == 6 {
        '6'
    } else if d == 7 {
        '7'
    } else if d == 8 {
        '8'
    } else {
        '9'
    }
}

/// Writes a number in decimal digits.
pub fn decimal_string(n: u64) -> (r: String)
    ensures
        r@ == decimal(n as nat),
    decreases n,
{
    if n < 10 {
        let mut s = String::new();
        push_char(&mut s, digit(n));
        assert(s@ =~= seq![digit_char(n as int)]);
        s
    } else {
        let mut s = decimal_string(n / 10);
        push_char(&mut s, digit(n % 10));
        s
    }
}

/// Writes a count in decimal digits.
pub fn count_string(n: usize) -> (r: String)
    ensures
        r@ == decimal(n as nat),
{
    decimal_string(n as u64)
}

/// Writes an integer in decimal digits, with its sign.
pub fn signed_string(n: i32) -> (r: String)
    ensures
        r@ == signed_decimal(n as int),
{
    if n < 0 {
        let magnitude: u64 = (-(n as i64)) as u64;
        proof {
            reveal_strlit("-");
            assert("-"@ =~= seq!['-']);
        }
        let digits = decimal_string(magnitude);
        String::from_str("-").concat(digits.as_str())
    } else {
        decimal_string(n as u64)
    }
}

} // verus!
