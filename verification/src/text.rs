//! Text primitives shared by the rest of the crate, stated over `Seq<char>`.

use vstd::prelude::*;
use vstd::std_specs::iter::IteratorSpec;
use vstd::string::StrSliceExecFns;
use vstd::string::StringExecFns;
use vstd::string::StringSliceAdditionalSpecFns;
use vstd::utf8::encode_utf8_decode_utf8;

verus! {

/// Whether two string slices hold the same characters.
pub fn str_eq(a: &str, b: &str) -> (same: bool)
    ensures
        same == (a@ == b@),
{
    let x = a.as_bytes();
    let y = b.as_bytes();
    proof {
        encode_utf8_decode_utf8(a@);
        encode_utf8_decode_utf8(b@);
    }
    if x.len() != y.len() {
        return false;
    }
    let mut i: usize = 0;
    while i < x.len()
        invariant
            i <= x.len(),
            x.len() == y.len(),
            x@ == a.spec_bytes(),
            y@ == b.spec_bytes(),
            forall|k: int| 0 <= k < i ==> x@[k] == y@[k],
        decreases x.len() - i,
    {
        if x[i] != y[i] {
            return false;
        }
        i += 1;
    }
    assert(x@ =~= y@);
    true
}

/// The texts of a list of strings, in order.
pub open spec fn texts(list: Seq<String>) -> Seq<Seq<char>> {
    list.map_values(|s: String| s@)
}

/// Whether `list` holds the text `name`.
pub fn contains_text(list: &Vec<String>, name: &str) -> (found: bool)
    ensures
        found == texts(list@).contains(name@),
{
    let mut k: usize = 0;
    while k < list.len()
        invariant
            k <= list.len(),
            forall|j: int| 0 <= j < k ==> texts(list@)[j] != name@,
        decreases list.len() - k,
    {
        if str_eq(list[k].as_str(), name) {
            assert(texts(list@)[k as int] == name@);
            return true;
        }
        k += 1;
    }
    false
}

/// `n` spaces.
pub open spec fn spaces(n: nat) -> Seq<char> {
    Seq::new(n, |i: int| ' ')
}

/// `s`, followed by as many spaces as it takes to reach `width` characters;
/// a longer `s` stays as it is.
pub open spec fn padded(s: Seq<char>, width: nat) -> Seq<char> {
    if s.len() < width {
        s + spaces((width - s.len()) as nat)
    } else {
        s
    }
}

/// Pads `s` with spaces on the right to at least `width` characters.
pub fn pad(s: &str, width: usize) -> (out: String)
    ensures
        out@ == padded(s@, width as nat),
{
    let n = s.unicode_len();
    let mut out = s.to_owned();
    if n >= width {
        return out;
    }
    let missing = width - n;
    let mut k: usize = 0;
    while k < missing
        invariant
            k <= missing,
            out@ == s@ + spaces(k as nat),
        decreases missing - k,
    {
        proof {
            reveal_strlit(" ");
        }
        out.append(" ");
        assert(out@ =~= s@ + spaces((k + 1) as nat));
        k += 1;
    }
    out
}

/// The items of `list` in order, with `sep` between each two neighbours.
pub open spec fn joined(list: Seq<Seq<char>>, sep: Seq<char>) -> Seq<char>
    decreases list.len(),
{
    if list.len() == 0 {
        Seq::empty()
    } else if list.len() == 1 {
        list[0]
    } else {
        joined(list.drop_last(), sep) + sep + list.last()
    }
}

/// Joins the strings of `list`, putting `sep` between them.
pub fn join(list: &Vec<String>, sep: &str) -> (out: String)
    ensures
        out@ == joined(texts(list@), sep@),
{
    let ghost items = texts(list@);
    let mut out = String::new();
    let mut k: usize = 0;
    while k < list.len()
        invariant
            k <= list.len(),
            items == texts(list@),
            out@ == joined(items.take(k as int), sep@),
        decreases list.len() - k,
    {
        if k > 0 {
            out.append(sep);
        }
        out.append(list[k].as_str());
        proof {
            let next = items.take(k + 1);
            assert(next.drop_last() =~= items.take(k as int));
            assert(next.last() == list@[k as int]@);
            if k == 0 {
                assert(out@ =~= next[0]);
            }
        }
        k += 1;
    }
    assert(items.take(list.len() as int) =~= items);
    out
}

/// Whether a character is whitespace: the characters with the Unicode
/// property `White_Space`, which are a tab, the line and page breaks, the
/// spaces of every width and the separators of lines and paragraphs.
pub open spec fn white_space(c: char) -> bool {
    ||| '\u{9}' <= c <= '\u{d}'
    ||| c == ' '
    ||| c == '\u{85}'
    ||| c == '\u{a0}'
    ||| c == '\u{1680}'
    ||| '\u{2000}' <= c <= '\u{200a}'
    ||| c == '\u{2028}'
    ||| c == '\u{2029}'
    ||| c == '\u{202f}'
    ||| c == '\u{205f}'
    ||| c == '\u{3000}'
}

/// Whether a character is whitespace.
pub fn is_white_space(c: char) -> (yes: bool)
    ensures
        yes == white_space(c),
{
    ('\u{9}' <= c && c <= '\u{d}') || c == ' ' || c == '\u{85}' || c == '\u{a0}' || c
        == '\u{1680}' || ('\u{2000}' <= c && c <= '\u{200a}') || c == '\u{2028}' || c
        == '\u{2029}' || c == '\u{202f}' || c == '\u{205f}' || c == '\u{3000}'
}

/// A space and a line break are whitespace; a letter, a digit and a dash
/// are not.
pub proof fn law_white_space()
    ensures
        white_space(' '),
        white_space('\n'),
        white_space('\t'),
        !white_space('a'),
        !white_space('0'),
        !white_space('-'),
{
}

/// `s` without its leading whitespace.
pub open spec fn trimmed_start(s: Seq<char>) -> Seq<char>
    decreases s.len(),
{
    if s.len() > 0 && white_space(s.first()) {
        trimmed_start(s.drop_first())
    } else {
        s
    }
}

/// `s` without its trailing whitespace.
pub open spec fn trimmed_end(s: Seq<char>) -> Seq<char>
    decreases s.len(),
{
    if s.len() > 0 && white_space(s.last()) {
        trimmed_end(s.drop_last())
    } else {
        s
    }
}

/// `s` without its leading and trailing whitespace.
pub open spec fn trimmed(s: Seq<char>) -> Seq<char> {
    trimmed_end(trimmed_start(s))
}

/// Leading whitespace ends at the first character that is none.
proof fn lemma_trimmed_start(s: Seq<char>, k: int)
    requires
        0 <= k <= s.len(),
        forall|j: int| 0 <= j < k ==> white_space(#[trigger] s[j]),
        k < s.len() ==> !white_space(s[k]),
    ensures
        trimmed_start(s) == s.subrange(k, s.len() as int),
    decreases k,
{
    if k == 0 {
        assert(s.subrange(0, s.len() as int) =~= s);
    } else {
        let rest = s.drop_first();
        assert(white_space(s[0]));
        assert forall|j: int| 0 <= j < k - 1 implies white_space(#[trigger] rest[j]) by {
            assert(rest[j] == s[j + 1]);
        }
        lemma_trimmed_start(rest, k - 1);
        assert(rest.subrange(k - 1, rest.len() as int) =~= s.subrange(k, s.len() as int));
    }
}

/// Trailing whitespace begins after the last character that is none.
proof fn lemma_trimmed_end(s: Seq<char>, k: int)
    requires
        0 <= k <= s.len(),
        forall|j: int| k <= j < s.len() ==> white_space(#[trigger] s[j]),
        0 < k ==> !white_space(s[k - 1]),
    ensures
        trimmed_end(s) == s.subrange(0, k),
    decreases s.len() - k,
{
    if k == s.len() {
        assert(s.subrange(0, k) =~= s);
    } else {
        let rest = s.drop_last();
        assert(white_space(s[s.len() - 1]));
        lemma_trimmed_end(rest, k);
        assert(rest.subrange(0, k) =~= s.subrange(0, k));
    }
}

/// The part of `s` between its leading and its trailing whitespace.
pub fn trim(s: &str) -> (middle: &str)
    ensures
        middle@ == trimmed(s@),
{
    let n = s.unicode_len();
    // `from` counts the leading whitespace; `to` is one past the last
    // character seen so far that is no whitespace.
    let mut from: usize = 0;
    let mut to: usize = 0;
    let mut i: usize = 0;
    for c in it: s.chars()
        invariant
            n == s@.len(),
            it.seq() == s@,
            i == it.index(),
            from <= i <= n,
            forall|j: int| 0 <= j < from ==> white_space(#[trigger] s@[j]),
            from < i ==> !white_space(s@[from as int]),
            from < i ==> from < to <= i && !white_space(s@[to - 1]),
            from == i ==> to == 0,
            from < i ==> forall|j: int| to <= j < i ==> white_space(#[trigger] s@[j]),
    {
        let blank = is_white_space(c);
        if blank && from == i {
            from = i + 1;
        } else if !blank {
            to = i + 1;
        }
        i += 1;
    }
    if from == n {
        to = from;
    }
    proof {
        lemma_trimmed_start(s@, from as int);
        let rest = s@.subrange(from as int, n as int);
        assert forall|j: int| to - from <= j < rest.len() implies white_space(#[trigger] rest[j]) by {
            assert(rest[j] == s@[j + from]);
        }
        lemma_trimmed_end(rest, to - from);
        assert(rest.subrange(0, to - from) =~= s@.subrange(from as int, to as int));
    }
    s.substring_char(from, to)
}

} // verus!
