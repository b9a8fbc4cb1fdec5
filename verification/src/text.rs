//! Text helpers: comparison, concatenation and decimal rendering of numbers.
use vstd::prelude::*;
use vstd::string::*;

verus! {

/// The decimal digit `d` as a character.
pub open spec fn digit_char(d: nat) -> char {
    if d == 0 { '0' } else if d == 1 { '1' } else if d == 2 { '2' } else if d == 3 { '3' }
    else if d == 4 { '4' } else if d == 5 { '5' } else if d == 6 { '6' } else if d == 7 { '7' }
    else if d == 8 { '8' } else { '9' }
}

/// The decimal rendering of `n`, without leading zeros.
pub open spec fn dec(n: nat) -> Seq<char>
    decreases n,
{
    if n < 10 {
        seq![digit_char(n)]
    } else {
        dec(n / 10).push(digit_char(n % 10))
    }
}

fn digit_text(d: u64) -> (r: &'static str)
    requires
        d < 10,
    ensures
        r@ == seq![digit_char(d as nat)],
{
    proof {
        reveal_strlit("0"); reveal_strlit("1"); reveal_strlit("2"); reveal_strlit("3");
        reveal_strlit("4"); reveal_strlit("5"); reveal_strlit("6"); reveal_strlit("7");
        reveal_strlit("8"); reveal_strlit("9");
    }
    if d == 0 { "0" } else if d == 1 { "1" } else if d == 2 { "2" } else if d == 3 { "3" }
    else if d == 4 { "4" } else if d == 5 { "5" } else if d == 6 { "6" } else if d == 7 { "7" }
    else if d == 8 { "8" } else { "9" }
}

/// Renders `n` in decimal.
pub fn decimal(n: u64) -> (r: String)
    ensures
        r@ == dec(n as nat),
    decreases n,
{
    if n < 10 {
        digit_text(n).to_owned()
    } else {
        decimal(n / 10).concat(digit_text(n % 10))
    }
}

/// Whether two string slices hold the same characters.
pub fn same_text(a: &str, b: &str) -> (r: bool)
    ensures
        r == (a@ == b@),
{
    a.to_owned() == b.to_owned()
}

/// The debug rendering of a text: what `{:?}` prints for a string slice.
pub uninterp spec fn debug_chars(text: Seq<char>) -> Seq<char>;

/// Calls the standard formatter with `{:?}` on a string slice. Claimed of it: the output depends
/// on the text alone. What the quoting and escaping look like is left unsaid.
#[verifier::external_body]
pub(crate) fn debug_str(text: &str) -> (r: String)
    ensures
        r@ == debug_chars(text@),
{
    format!("{:?}", text)
}

/// The debug rendering of an optional text.
pub open spec fn debug_opt_chars(text: Option<Seq<char>>) -> Seq<char> {
    match text {
        Some(text) => "Some("@ + debug_chars(text) + ")"@,
        None => "None"@,
    }
}

/// Renders an optional text the way the debug formatter does.
pub(crate) fn debug_opt_str(text: Option<&String>) -> (r: String)
    ensures
        r@ == debug_opt_chars(
            match text {
                Some(text) => Some(text@),
                None => None,
            },
        ),
{
    match text {
        Some(text) => "Some(".to_owned().concat(debug_str(text.as_str()).as_str()).concat(")"),
        None => "None".to_owned(),
    }
}

/// The rendering of a truth value.
pub open spec fn flag(value: bool) -> Seq<char> {
    if value {
        "true"@
    } else {
        "false"@
    }
}

/// The rendering of a truth value.
pub(crate) fn flag_text(value: bool) -> (r: &'static str)
    ensures
        r@ == flag(value),
{
    if value {
        "true"
    } else {
        "false"
    }
}

/// Renders a size in decimal.
pub(crate) fn size_text(n: usize) -> (r: String)
    ensures
        r@ == dec(n as nat),
{
    decimal(n as u64)
}

/// The debug rendering of an optional number: `None`, or `Some(..)` around its decimal digits.
pub open spec fn debug_opt(value: Option<u32>) -> Seq<char> {
    match value {
        Some(n) => "Some("@ + dec(n as nat) + ")"@,
        None => "None"@,
    }
}

/// Renders an optional number the way the debug formatter does.
pub fn debug_opt_u32(value: Option<u32>) -> (r: String)
    ensures
        r@ == debug_opt(value),
{
    match value {
        Some(n) => "Some(".to_owned().concat(decimal(n as u64).as_str()).concat(")"),
        None => "None".to_owned(),
    }
}

/// Claimed of the standard `String::push`: it appends the character at the end.
pub assume_specification[ String::push ](text: &mut String, ch: char)
    ensures
        final(text)@ == old(text)@.push(ch),
;

/// The characters of a text.
pub(crate) fn chars_of(text: &str) -> (r: Vec<char>)
    ensures
        r@ == text@,
{
    let mut out: Vec<char> = Vec::new();
    let mut rest = text.chars();
    assert(out@ + vstd::std_specs::iter::IteratorSpec::remaining(&rest) =~= text@);
    loop
        invariant
            out@ + vstd::std_specs::iter::IteratorSpec::remaining(&rest) == text@,
            vstd::std_specs::iter::IteratorSpec::obeys_prophetic_iter_laws(&rest),
            vstd::std_specs::iter::IteratorSpec::decrease(&rest) is Some,
        ensures
            out@ == text@,
        decreases vstd::std_specs::iter::IteratorSpec::decrease(&rest)->0,
    {
        let ghost before = vstd::std_specs::iter::IteratorSpec::remaining(&rest);
        match rest.next() {
            Some(ch) => {
                let ghost kept = out@;
                out.push(ch);
                assert(out@ + vstd::std_specs::iter::IteratorSpec::remaining(&rest) =~= kept + before);
            },
            None => {
                assert(out@ =~= text@);
                break;
            },
        }
    }
    out
}

/// The text of a list of characters.
pub(crate) fn text_of(chars: &[char]) -> (r: String)
    ensures
        r@ == chars@,
{
    let mut out = String::new();
    let mut index: usize = 0;
    while index < chars.len()
        invariant
            index <= chars@.len(),
            out@ == chars@.take(index as int),
        decreases chars.len() - index,
    {
        out.push(chars[index]);
        index += 1;
        assert(out@ =~= chars@.take(index as int));
    }
    assert(chars@.take(index as int) =~= chars@);
    out
}

/// Whether `needle` stands in `text` at `at`.
pub open spec fn stands_at(text: Seq<char>, needle: Seq<char>, at: int) -> bool {
    0 <= at && at + needle.len() <= text.len() && text.subrange(at, at + needle.len()) == needle
}

/// Whether `needle` stands somewhere in `text`.
pub open spec fn contains(text: Seq<char>, needle: Seq<char>) -> bool {
    exists|at: int| stands_at(text, needle, at)
}

fn stands_here(text: &[char], needle: &[char], at: usize) -> (r: bool)
    requires
        at + needle@.len() <= text@.len(),
    ensures
        r == stands_at(text@, needle@, at as int),
{
    let length: usize = text.len();
    let mut index: usize = 0;
    while index < needle.len()
        invariant
            index <= needle@.len(),
            length == text@.len(),
            at + needle@.len() <= length,
            forall|i: int| 0 <= i < index ==> text@[at + i] == #[trigger] needle@[i],
        decreases needle.len() - index,
    {
        if text[at + index] != needle[index] {
            assert(text@.subrange(at as int, at + needle@.len())[index as int] != needle@[index as int]);
            return false;
        }
        index += 1;
    }
    assert(text@.subrange(at as int, at + needle@.len()) =~= needle@);
    true
}

/// Whether `needle` stands somewhere in `text`.
pub(crate) fn has_chars(text: &[char], needle: &str) -> (r: bool)
    ensures
        r == contains(text@, needle@),
{
    let wanted = chars_of(needle);
    if wanted.len() > text.len() {
        return false;
    }
    let last: usize = text.len() - wanted.len();
    let mut at: usize = 0;
    loop
        invariant
            at <= last,
            wanted@ == needle@,
            last == text@.len() - wanted@.len(),
            forall|i: int| 0 <= i < at ==> !stands_at(text@, needle@, i),
        decreases last - at,
    {
        if stands_here(text, &wanted, at) {
            return true;
        }
        if at == last {
            return false;
        }
        at += 1;
    }
}

/// Whether `text` starts with `start`.
pub open spec fn starts_with(text: Seq<char>, start: Seq<char>) -> bool {
    stands_at(text, start, 0)
}

/// Whether `text` starts with `start`.
pub(crate) fn begins_with(text: &[char], start: &str) -> (r: bool)
    ensures
        r == starts_with(text@, start@),
{
    let wanted = chars_of(start);
    wanted.len() <= text.len() && stands_here(text, &wanted, 0)
}

/// Whether a character is white space, as Unicode defines it.
pub open spec fn is_space(ch: char) -> bool {
    let code = ch as int;
    ||| 0x9 <= code <= 0xd
    ||| code == 0x20
    ||| code == 0x85
    ||| code == 0xa0
    ||| code == 0x1680
    ||| 0x2000 <= code <= 0x200a
    ||| code == 0x2028
    ||| code == 0x2029
    ||| code == 0x202f
    ||| code == 0x205f
    ||| code == 0x3000
}

/// Whether a character is white space.
fn is_white(ch: char) -> (r: bool)
    ensures
        r == is_space(ch),
{
    let code: u32 = ch as u32;
    (code >= 0x9 && code <= 0xd) || code == 0x20 || code == 0x85 || code == 0xa0 || code == 0x1680
        || (code >= 0x2000 && code <= 0x200a) || code == 0x2028 || code == 0x2029 || code == 0x202f
        || code == 0x205f || code == 0x3000
}

/// The text without white space at its start.
pub open spec fn trim_start(text: Seq<char>) -> Seq<char>
    decreases text.len(),
{
    if text.len() > 0 && is_space(text[0]) {
        trim_start(text.drop_first())
    } else {
        text
    }
}

/// The text without white space at its end.
pub open spec fn trim_end(text: Seq<char>) -> Seq<char>
    decreases text.len(),
{
    if text.len() > 0 && is_space(text.last()) {
        trim_end(text.drop_last())
    } else {
        text
    }
}

/// The text without white space at either end.
pub open spec fn trim(text: Seq<char>) -> Seq<char> {
    trim_end(trim_start(text))
}

/// The characters without white space at either end.
pub(crate) fn trimmed_chars(text: &[char]) -> (r: Vec<char>)
    ensures
        r@ == trim(text@),
{
    let mut start: usize = 0;
    assert(text@.skip(0) =~= text@);
    while start < text.len() && is_white(text[start])
        invariant
            start <= text@.len(),
            trim_start(text@) == trim_start(text@.skip(start as int)),
        decreases text.len() - start,
    {
        proof {
            assert(text@.skip(start as int).drop_first() =~= text@.skip(start + 1));
        }
        start += 1;
    }
    let ghost front = text@.skip(start as int);
    assert(trim_start(text@) == front);
    let mut end: usize = text.len();
    assert(text@.subrange(start as int, end as int) =~= front);
    while end > start && is_white(text[end - 1])
        invariant
            start <= end <= text@.len(),
            trim_end(front) == trim_end(text@.subrange(start as int, end as int)),
        decreases end - start,
    {
        proof {
            assert(text@.subrange(start as int, end as int).drop_last() =~= text@.subrange(
                start as int,
                end - 1,
            ));
            assert(text@.subrange(start as int, end as int).last() == text@[end - 1]);
        }
        end -= 1;
    }
    let mut out: Vec<char> = Vec::new();
    let mut index: usize = start;
    while index < end
        invariant
            start <= index <= end <= text@.len(),
            out@ == text@.subrange(start as int, index as int),
        decreases end - index,
    {
        out.push(text[index]);
        index += 1;
        assert(out@ =~= text@.subrange(start as int, index as int));
    }
    out
}

/// The text without white space at either end.
pub fn trimmed(text: &str) -> (r: String)
    ensures
        r@ == trim(text@),
{
    text_of(&trimmed_chars(&chars_of(text)))
}

/// Trimming leaves no white space at either end, and what it leaves stands in the text with
/// nothing but white space around it.
pub proof fn lemma_trim(text: Seq<char>)
    ensures
        trim(text).len() > 0 ==> !is_space(trim(text)[0]) && !is_space(trim(text).last()),
        exists|start: int, end: int|
            0 <= start <= end <= text.len() && trim(text) == #[trigger] text.subrange(start, end)
                && (forall|i: int| 0 <= i < start ==> is_space(#[trigger] text[i])) && (forall|i: int|
                end <= i < text.len() ==> is_space(#[trigger] text[i])),
{
    let start = lemma_trim_start(text);
    let front = text.skip(start);
    let end = lemma_trim_end(front);
    assert(trim(text) =~= text.subrange(start, start + end));
    if trim(text).len() > 0 {
        assert(trim(text)[0] == front[0]);
    }
    assert forall|i: int| start + end <= i < text.len() implies is_space(#[trigger] text[i]) by {
        assert(front[i - start] == text[i]);
    }
}

proof fn lemma_trim_start(text: Seq<char>) -> (start: int)
    ensures
        0 <= start <= text.len(),
        trim_start(text) == text.skip(start),
        forall|i: int| 0 <= i < start ==> is_space(#[trigger] text[i]),
        start < text.len() ==> !is_space(text[start]),
    decreases text.len(),
{
    if text.len() > 0 && is_space(text[0]) {
        let rest = lemma_trim_start(text.drop_first());
        assert(text.drop_first().skip(rest) =~= text.skip(rest + 1));
        assert forall|i: int| 0 <= i < rest + 1 implies is_space(#[trigger] text[i]) by {
            if i > 0 {
                assert(text.drop_first()[i - 1] == text[i]);
            }
        }
        rest + 1
    } else {
        assert(text.skip(0) =~= text);
        0
    }
}

proof fn lemma_trim_end(text: Seq<char>) -> (end: int)
    ensures
        0 <= end <= text.len(),
        trim_end(text) == text.take(end),
        forall|i: int| end <= i < text.len() ==> is_space(#[trigger] text[i]),
        end > 0 ==> !is_space(text[end - 1]),
    decreases text.len(),
{
    if text.len() > 0 && is_space(text.last()) {
        let end = lemma_trim_end(text.drop_last());
        assert(text.drop_last().take(end) =~= text.take(end));
        assert forall|i: int| end <= i < text.len() implies is_space(#[trigger] text[i]) by {
            if i < text.len() - 1 {
                assert(text.drop_last()[i] == text[i]);
            }
        }
        end
    } else {
        assert(text.take(text.len() as int) =~= text);
        text.len() as int
    }
}

/// White space at the end of a text does not change what trimming leaves.
pub proof fn lemma_trim_after(text: Seq<char>, after: char)
    requires
        is_space(after),
    ensures
        trim(text.push(after)) == trim(text),
        trim(text + seq![after]) == trim(text),
    decreases text.len(),
{
    assert(text + seq![after] =~= text.push(after));
    if text.len() == 0 {
        assert(text.push(after).drop_first() =~= text);
    } else if is_space(text[0]) {
        assert(text.push(after).drop_first() =~= text.drop_first().push(after));
        lemma_trim_after(text.drop_first(), after);
    } else {
        assert(text.push(after).drop_last() =~= text);
    }
}

/// The lower-case form of an ASCII letter; any other character stays as it is.
pub open spec fn lower_char(ch: char) -> char {
    if 'A' <= ch && ch <= 'Z' {
        (ch as u32 + 32) as char
    } else {
        ch
    }
}

/// The text with its ASCII letters in lower case.
pub open spec fn lower(text: Seq<char>) -> Seq<char> {
    text.map_values(|ch: char| lower_char(ch))
}

fn to_lower(ch: char) -> (r: char)
    ensures
        r == lower_char(ch),
{
    if 'A' <= ch && ch <= 'Z' {
        ((ch as u8) + 32) as char
    } else {
        ch
    }
}

/// The characters with their ASCII letters in lower case.
pub(crate) fn lower_chars(text: &[char]) -> (r: Vec<char>)
    ensures
        r@ == lower(text@),
{
    let mut out: Vec<char> = Vec::new();
    let mut index: usize = 0;
    while index < text.len()
        invariant
            index <= text@.len(),
            out@ == lower(text@.take(index as int)),
        decreases text.len() - index,
    {
        out.push(to_lower(text[index]));
        index += 1;
        assert(out@ =~= lower(text@.take(index as int)));
    }
    assert(text@.take(index as int) =~= text@);
    out
}

} // verus!
