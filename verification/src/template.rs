//! URL templates. A template is text in which the placeholder `{{ word }}`,
//! also written `{{ word | urlencode }}`, stands for the search word. Filling
//! a template in puts the percent-encoded word in the place of each
//! placeholder.

use crate::escape::{error_text, escape, percent_encoded, WORD};
use vstd::prelude::*;
use vstd::std_specs::iter::IteratorSpec;
use vstd::string::StrSliceExecFns;
use vstd::string::StringExecFns;

verus! {

/// Why a URL template could not be filled in.
#[derive(Debug)]
pub enum TemplateError {
    /// At this position, counted in characters, the template opens a tag
    /// that is not the placeholder for the word.
    Syntax(usize),
    /// The engine failed to encode the word. What is trusted of the engine
    /// rules this out; should it fail all the same, its error is handed on
    /// in this form.
    Engine(tera::Error),
}

/// The characters that may pad the inside of a placeholder.
pub open spec fn is_blank(c: char) -> bool {
    c == ' ' || c == '\t' || c == '\r' || c == '\n'
}

/// The number of blanks that `s` holds in a row from position `i` on.
pub open spec fn blanks_from(s: Seq<char>, i: int) -> nat
    decreases s.len() - i,
{
    if 0 <= i < s.len() && is_blank(s[i]) {
        1 + blanks_from(s, i + 1)
    } else {
        0
    }
}

/// Whether `s` holds `part` at position `i`.
pub open spec fn has_at(s: Seq<char>, i: int, part: Seq<char>) -> bool {
    0 <= i && i + part.len() <= s.len() && s.subrange(i, i + part.len()) == part
}

/// The position behind `part`, taken to stand at position `i` of `s`, and
/// behind the blanks that follow it.
pub open spec fn behind(s: Seq<char>, i: int, part: Seq<char>) -> int {
    i + part.len() + blanks_from(s, i + part.len())
}

/// Whether a tag opens at position `i` of `s`: `{{`, `{%` or `{#`.
pub open spec fn opens_tag(s: Seq<char>, i: int) -> bool {
    0 <= i && i + 1 < s.len() && s[i] == '{' && (s[i + 1] == '{' || s[i + 1] == '%' || s[i + 1]
        == '#')
}

/// Where the placeholder ends that `s` holds at position `i`, if it holds
/// one there: `{{`, `word`, optionally `|` and `urlencode`, and `}}`, with
/// any number of blanks between them.
pub open spec fn placeholder_end(s: Seq<char>, i: int) -> Option<int> {
    let word = behind(s, i, "{{"@);
    let after_word = behind(s, word, WORD@);
    let filter = behind(s, after_word, "|"@);
    let after_filter = behind(s, filter, "urlencode"@);
    if !has_at(s, i, "{{"@) || !has_at(s, word, WORD@) {
        None
    } else if has_at(s, after_word, "}}"@) {
        Some(after_word + "}}"@.len())
    } else if has_at(s, after_word, "|"@) && has_at(s, filter, "urlencode"@) && has_at(
        s,
        after_filter,
        "}}"@,
    ) {
        Some(after_filter + "}}"@.len())
    } else {
        None
    }
}

/// The first position from `i` on at which `s` opens a tag that is no
/// placeholder, if there is one. Placeholders are passed over as a whole.
pub open spec fn fault_from(s: Seq<char>, i: int) -> Option<int>
    decreases s.len() - i,
{
    if i < 0 || i >= s.len() {
        None
    } else if opens_tag(s, i) {
        match placeholder_end(s, i) {
            Some(end) => {
                proof {
                    reveal_strlit("{{");
                    reveal_strlit("}}");
                    assert(i < end <= s.len());
                }
                fault_from(s, end)
            },
            None => Some(i),
        }
    } else {
        fault_from(s, i + 1)
    }
}

/// The first position at which the template `s` is at fault, if it is.
pub open spec fn fault(s: Seq<char>) -> Option<int> {
    fault_from(s, 0)
}

/// The part of `s` from `i` on, with `value` in the place of each
/// placeholder. It says nothing of a part that is at fault.
pub open spec fn filled_from(s: Seq<char>, i: int, value: Seq<char>) -> Seq<char>
    decreases s.len() - i,
{
    if i < 0 || i >= s.len() {
        Seq::empty()
    } else if opens_tag(s, i) {
        match placeholder_end(s, i) {
            Some(end) => {
                proof {
                    reveal_strlit("{{");
                    reveal_strlit("}}");
                    assert(i < end <= s.len());
                }
                value + filled_from(s, end, value)
            },
            None => Seq::empty(),
        }
    } else {
        seq![s[i]] + filled_from(s, i + 1, value)
    }
}

/// The template `s` with `value` in the place of each placeholder.
pub open spec fn filled(s: Seq<char>, value: Seq<char>) -> Seq<char> {
    filled_from(s, 0, value)
}

/// The characters of `s`.
fn chars_of(s: &str) -> (chars: Vec<char>)
    ensures
        chars@ == s@,
{
    let mut chars: Vec<char> = Vec::new();
    for c in it: s.chars()
        invariant
            it.seq() == s@,
            chars@ == s@.take(it.index()),
    {
        chars.push(c);
        assert(chars@ =~= s@.take(it.index() + 1));
    }
    assert(s@.take(s@.len() as int) =~= s@);
    chars
}

fn blank(c: char) -> (yes: bool)
    ensures
        yes == is_blank(c),
{
    c == ' ' || c == '\t' || c == '\r' || c == '\n'
}

/// The position behind the blanks that `chars` holds from position `i` on.
fn skip_blanks(chars: &Vec<char>, i: usize) -> (j: usize)
    requires
        i <= chars.len(),
    ensures
        j == i + blanks_from(chars@, i as int),
        j <= chars.len(),
{
    let mut j = i;
    while j < chars.len() && blank(chars[j])
        invariant
            i <= j <= chars.len(),
            i + blanks_from(chars@, i as int) == j + blanks_from(chars@, j as int),
        decreases chars.len() - j,
    {
        j += 1;
    }
    j
}

/// Whether `chars` holds `part` at position `i`.
fn holds_at(chars: &Vec<char>, i: usize, part: &str) -> (yes: bool)
    requires
        i <= chars.len(),
    ensures
        yes == has_at(chars@, i as int, part@),
{
    let n = part.unicode_len();
    if n > chars.len() - i {
        return false;
    }
    let mut k: usize = 0;
    while k < n
        invariant
            k <= n,
            n == part@.len(),
            i + n <= chars.len(),
            forall|j: int| 0 <= j < k ==> chars@[i + j] == part@[j],
        decreases n - k,
    {
        if chars[i + k] != part.get_char(k) {
            assert(chars@.subrange(i as int, i + n)[k as int] != part@[k as int]);
            return false;
        }
        k += 1;
    }
    assert(chars@.subrange(i as int, i + n) =~= part@);
    true
}

/// Whether a tag opens at position `i` of `chars`.
fn tag_opens(chars: &Vec<char>, i: usize) -> (yes: bool)
    requires
        i < chars.len(),
    ensures
        yes == opens_tag(chars@, i as int),
{
    if chars[i] != '{' || i + 1 >= chars.len() {
        return false;
    }
    let next = chars[i + 1];
    next == '{' || next == '%' || next == '#'
}

/// Where the placeholder ends that `chars` holds at position `i`, if it
/// holds one there.
fn end_of_placeholder(chars: &Vec<char>, i: usize) -> (end: Option<usize>)
    requires
        i < chars.len(),
    ensures
        match placeholder_end(chars@, i as int) {
            Some(e) => end == Some(e as usize) && i < e <= chars.len(),
            None => end is None,
        },
{
    proof {
        reveal_strlit("{{");
        reveal_strlit("word");
        reveal_strlit("}}");
        reveal_strlit("|");
        reveal_strlit("urlencode");
    }
    if !holds_at(chars, i, "{{") {
        return None;
    }
    let word = skip_blanks(chars, i + 2);
    if !holds_at(chars, word, WORD) {
        return None;
    }
    let after_word = skip_blanks(chars, word + 4);
    if holds_at(chars, after_word, "}}") {
        return Some(after_word + 2);
    }
    if !holds_at(chars, after_word, "|") {
        return None;
    }
    let filter = skip_blanks(chars, after_word + 1);
    if !holds_at(chars, filter, "urlencode") {
        return None;
    }
    let after_filter = skip_blanks(chars, filter + 9);
    if holds_at(chars, after_filter, "}}") {
        Some(after_filter + 2)
    } else {
        None
    }
}

/// Across text in which no tag opens, a fault lies behind the text.
proof fn lemma_fault_behind_text(s: Seq<char>, from: int, to: int)
    requires
        0 <= from <= to <= s.len(),
        forall|j: int| from <= j < to ==> !opens_tag(s, j),
    ensures
        fault_from(s, from) == fault_from(s, to),
    decreases to - from,
{
    if from < to {
        lemma_fault_behind_text(s, from + 1, to);
    }
}

/// Text in which no tag opens is filled in as it stands.
proof fn lemma_filled_behind_text(s: Seq<char>, from: int, to: int, value: Seq<char>)
    requires
        0 <= from <= to <= s.len(),
        forall|j: int| from <= j < to ==> !opens_tag(s, j),
    ensures
        filled_from(s, from, value) == s.subrange(from, to) + filled_from(s, to, value),
    decreases to - from,
{
    if from < to {
        lemma_filled_behind_text(s, from + 1, to, value);
        assert(seq![s[from]] + s.subrange(from + 1, to) =~= s.subrange(from, to));
        assert(seq![s[from]] + (s.subrange(from + 1, to) + filled_from(s, to, value)) =~= s.subrange(
            from,
            to,
        ) + filled_from(s, to, value));
    } else {
        assert(s.subrange(from, to) + filled_from(s, to, value) =~= filled_from(s, to, value));
    }
}

/// A template in which no tag opens has no fault and is filled in as it
/// stands.
pub proof fn lemma_plain_template(s: Seq<char>, value: Seq<char>)
    requires
        forall|j: int| !opens_tag(s, j),
    ensures
        fault(s) is None,
        filled(s, value) == s,
{
    lemma_fault_behind_text(s, 0, s.len() as int);
    lemma_filled_behind_text(s, 0, s.len() as int, value);
    assert(s.subrange(0, s.len() as int) + Seq::<char>::empty() =~= s);
}

/// Looks for the first fault of a template, and where there is none, says
/// whether a placeholder occurs.
fn check(chars: &Vec<char>) -> (found: Result<bool, usize>)
    ensures
        match fault(chars@) {
            Some(p) => found == Err::<bool, usize>(p as usize) && 0 <= p < chars.len(),
            None => found matches Ok(any) && any == exists|j: int| opens_tag(chars@, j),
        },
{
    let ghost s = chars@;
    let mut any = false;
    let ghost mut first: int = 0;
    let mut i: usize = 0;
    while i < chars.len()
        invariant
            i <= chars.len(),
            s == chars@,
            fault(s) == fault_from(s, i as int),
            any ==> opens_tag(s, first),
            !any ==> forall|j: int| 0 <= j < i ==> !opens_tag(s, j),
        decreases chars.len() - i,
    {
        if tag_opens(chars, i) {
            match end_of_placeholder(chars, i) {
                Some(end) => {
                    proof {
                        first = i as int;
                    }
                    any = true;
                    i = end;
                },
                None => {
                    return Err(i);
                },
            }
        } else {
            i += 1;
        }
    }
    Ok(any)
}

/// Fills in a template that has no fault.
fn fill_checked(template: &str, chars: &Vec<char>, value: &str) -> (out: String)
    requires
        chars@ == template@,
        fault(chars@) is None,
    ensures
        out@ == filled(chars@, value@),
{
    let ghost s = chars@;
    let ghost v = value@;
    let mut out = String::new();
    // The text from `from` up to `i` is still to be copied.
    let mut from: usize = 0;
    let mut i: usize = 0;
    while i < chars.len()
        invariant
            from <= i <= chars.len(),
            s == chars@,
            s == template@,
            v == value@,
            fault_from(s, i as int) is None,
            forall|j: int| from <= j < i ==> !opens_tag(s, j),
            filled(s, v) == out@ + filled_from(s, from as int, v),
        decreases chars.len() - i,
    {
        if tag_opens(chars, i) {
            match end_of_placeholder(chars, i) {
                Some(end) => {
                    proof {
                        lemma_filled_behind_text(s, from as int, i as int, v);
                        assert(out@ + (s.subrange(from as int, i as int) + (v + filled_from(
                            s,
                            end as int,
                            v,
                        ))) =~= out@ + s.subrange(from as int, i as int) + v + filled_from(
                            s,
                            end as int,
                            v,
                        ));
                    }
                    out.append(template.substring_char(from, i));
                    out.append(value);
                    from = end;
                    i = end;
                },
                None => {
                    assert(false);
                },
            }
        } else {
            i += 1;
        }
    }
    proof {
        lemma_filled_behind_text(s, from as int, i as int, v);
        assert(out@ + (s.subrange(from as int, i as int) + Seq::<char>::empty()) =~= out@
            + s.subrange(from as int, i as int));
    }
    out.append(template.substring_char(from, i));
    out
}

/// Puts `value` in the place of each placeholder of `template`.
pub fn fill(template: &str, value: &str) -> (out: Result<String, TemplateError>)
    ensures
        match fault(template@) {
            Some(p) => out matches Err(TemplateError::Syntax(q)) && q == p,
            None => out matches Ok(text) && text@ == filled(template@, value@),
        },
{
    let chars = chars_of(template);
    match check(&chars) {
        Ok(_) => Ok(fill_checked(template, &chars, value)),
        Err(position) => Err(TemplateError::Syntax(position)),
    }
}

/// Whether `out` is what filling `word` into `template` comes to: a
/// template at fault is answered with the position of the fault, and any
/// other is filled in with the percent-encoded word.
pub open spec fn renders(
    template: Seq<char>,
    word: Seq<char>,
    out: Result<String, TemplateError>,
) -> bool {
    match fault(template) {
        Some(p) => out matches Err(TemplateError::Syntax(q)) && q == p,
        None => out matches Ok(text) && text@ == filled(template, percent_encoded(word)),
    }
}

/// Filling the same word into the same template comes to the same: twice the
/// same text, or twice the same fault.
pub proof fn law_render_again(
    template: Seq<char>,
    word: Seq<char>,
    first: Result<String, TemplateError>,
    second: Result<String, TemplateError>,
)
    requires
        renders(template, word, first),
        renders(template, word, second),
    ensures
        match (first, second) {
            (Ok(a), Ok(b)) => a@ == b@,
            (Err(TemplateError::Syntax(p)), Err(TemplateError::Syntax(q))) => p == q,
            _ => false,
        },
{
}

/// A template in which no tag opens is rendered as it stands, whatever the
/// word.
pub proof fn law_render_plain(
    template: Seq<char>,
    word: Seq<char>,
    out: Result<String, TemplateError>,
)
    requires
        forall|j: int| !opens_tag(template, j),
        renders(template, word, out),
    ensures
        out matches Ok(text) && text@ == template,
{
    lemma_plain_template(template, percent_encoded(word));
}

/// Fills `word` into `template`, percent-encoded.
pub fn render(template: &str, word: &str) -> (out: Result<String, TemplateError>)
    ensures
        renders(template@, word@, out),
{
    let chars = chars_of(template);
    match check(&chars) {
        Ok(true) => match escape(word) {
            Ok(value) => Ok(fill_checked(template, &chars, value.as_str())),
            Err(error) => Err(TemplateError::Engine(error)),
        },
        Ok(false) => {
            proof {
                lemma_plain_template(template@, percent_encoded(word@));
            }
            Ok(template.to_owned())
        },
        Err(position) => Err(TemplateError::Syntax(position)),
    }
}

impl TemplateError {
    /// The text that tells the user what went wrong. For a failure of the
    /// engine it is the engine's own text, of which nothing is promised.
    pub fn message(&self) -> (text: String)
        ensures
            self is Syntax ==> text@ == "The URL holds a tag that is not the placeholder for the word."@,
    {
        match self {
            TemplateError::Syntax(_) => "The URL holds a tag that is not the placeholder for the word.".to_owned(),
            TemplateError::Engine(error) => error_text(error),
        }
    }
}

} // verus!
