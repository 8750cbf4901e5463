//! Texts as sequences of characters, and the string operations the rest of
//! the crate is stated over.

use vstd::prelude::*;
use vstd::string::*;
use vstd::utf8::is_ascii_chars;

verus! {

/// What a string holds: its Unicode scalar values in order.
pub type Text = Seq<char>;

/// `part` occurs somewhere in `whole`.
pub open spec fn has_part(whole: Text, part: Text) -> bool {
    exists|at: int| occurs_at(whole, part, at)
}

/// `part` occurs in `whole`, beginning at index `at`.
pub open spec fn occurs_at(whole: Text, part: Text, at: int) -> bool {
    0 <= at && at + part.len() <= whole.len() && whole.subrange(at, at + part.len()) == part
}

/// `whole` ends in `tail`.
pub open spec fn ends_in(whole: Text, tail: Text) -> bool {
    occurs_at(whole, tail, whole.len() - tail.len())
}

/// `whole` begins with `head`.
pub open spec fn begins_with(whole: Text, head: Text) -> bool {
    occurs_at(whole, head, 0)
}

/// The characters of a string.
pub fn characters(text: &str) -> (chars: Vec<char>)
    ensures
        chars@ == text@,
{
    let mut chars: Vec<char> = Vec::new();
    for c in iter: text.chars()
        invariant
            chars@ == iter.seq().take(iter.index() as int),
            iter.seq() == text@,
    {
        chars.push(c);
    }
    chars
}

/// Whether `part` stands in `whole` at index `at`.
fn matches_at(whole: &Vec<char>, part: &Vec<char>, at: usize) -> (found: bool)
    requires
        at + part@.len() <= whole@.len(),
    ensures
        found == occurs_at(whole@, part@, at as int),
{
    let mut i: usize = 0;
    while i < part.len()
        invariant
            i <= part@.len(),
            at + part@.len() <= whole.len(),
            forall|j: int| 0 <= j < i ==> whole@[at + j] == part@[j],
        decreases part@.len() - i,
    {
        if whole[at + i] != part[i] {
            assert(whole@.subrange(at as int, at + part@.len())[i as int] != part@[i as int]);
            return false;
        }
        i += 1;
    }
    assert(whole@.subrange(at as int, at + part@.len()) =~= part@);
    true
}

/// Whether two strings hold the same characters.
pub fn same_text(left: &str, right: &str) -> (same: bool)
    ensures
        same == (left@ == right@),
{
    let left: Vec<char> = characters(left);
    let right: Vec<char> = characters(right);
    if left.len() != right.len() {
        return false;
    }
    assert(left@.subrange(0, left@.len() as int) =~= left@);
    matches_at(&left, &right, 0)
}

/// Whether `whole` ends in `tail`.
pub fn text_ends_in(whole: &str, tail: &str) -> (found: bool)
    ensures
        found == ends_in(whole@, tail@),
{
    let whole: Vec<char> = characters(whole);
    let tail: Vec<char> = characters(tail);
    if tail.len() > whole.len() {
        return false;
    }
    matches_at(&whole, &tail, whole.len() - tail.len())
}

/// Whether `whole` begins with `head`.
pub fn text_begins_with(whole: &str, head: &str) -> (found: bool)
    ensures
        found == begins_with(whole@, head@),
{
    let whole: Vec<char> = characters(whole);
    let head: Vec<char> = characters(head);
    if head.len() > whole.len() {
        return false;
    }
    matches_at(&whole, &head, 0)
}

/// Whether `part` occurs in `whole`.
pub fn text_has_part(whole: &str, part: &str) -> (found: bool)
    ensures
        found == has_part(whole@, part@),
{
    let chars: Vec<char> = characters(whole);
    let wanted: Vec<char> = characters(part);
    if wanted.len() > chars.len() {
        return false;
    }
    let last: usize = chars.len() - wanted.len();
    let mut at: usize = 0;
    while at < last
        invariant
            at <= last,
            last + wanted@.len() == chars@.len(),
            chars@ == whole@,
            wanted@ == part@,
            forall|i: int| 0 <= i < at ==> !occurs_at(whole@, part@, i),
        decreases last - at,
    {
        if matches_at(&chars, &wanted, at) {
            return true;
        }
        at += 1;
    }
    matches_at(&chars, &wanted, last)
}

/// The lower-case form of an ASCII letter; every other character is its own.
pub open spec fn ascii_lower(c: char) -> char {
    if 'A' <= c <= 'Z' {
        (c as u32 + 32) as char
    } else {
        c
    }
}

/// A text with its ASCII letters in lower case.
pub open spec fn ascii_lowered(text: Text) -> Text {
    text.map_values(|c: char| ascii_lower(c))
}

/// `whole` ends in `tail` once its ASCII letters are in lower case.
pub open spec fn ends_in_any_case(whole: Text, tail: Text) -> bool {
    ends_in(ascii_lowered(whole), tail)
}

/// The last `count` characters of a text, or all of them where there are
/// fewer, are ASCII.
pub open spec fn ascii_end(text: Text, count: nat) -> bool {
    is_ascii_chars(
        text.skip(
            if count <= text.len() {
                text.len() - count
            } else {
                0
            },
        ),
    )
}

/// The Unicode property `White_Space`.
pub open spec fn white_space(c: char) -> bool {
    ||| '\u{9}' <= c <= '\u{d}'
    ||| c == '\u{20}'
    ||| c == '\u{85}'
    ||| c == '\u{a0}'
    ||| c == '\u{1680}'
    ||| '\u{2000}' <= c <= '\u{200a}'
    ||| c == '\u{2028}'
    ||| c == '\u{2029}'
    ||| c == '\u{202f}'
    ||| c == '\u{205f}'
    ||| c == '\u{3000}'
}

/// A text without its leading white space.
pub open spec fn trimmed_front(text: Text) -> Text
    decreases text.len(),
{
    if text.len() > 0 && white_space(text.first()) {
        trimmed_front(text.drop_first())
    } else {
        text
    }
}

/// A text without its trailing white space.
pub open spec fn trimmed_back(text: Text) -> Text
    decreases text.len(),
{
    if text.len() > 0 && white_space(text.last()) {
        trimmed_back(text.drop_last())
    } else {
        text
    }
}

/// A text without the white space around it.
pub open spec fn trimmed(text: Text) -> Text {
    trimmed_back(trimmed_front(text))
}

/// What `str::to_lowercase` makes of a text: the Unicode lower-case mapping.
pub uninterp spec fn lowercased(text: Text) -> Text;

/// What is known of the lower-case form of a text. That of an ASCII text has
/// each letter in lower case; and whatever stands before them, the ASCII
/// characters at the end of a text end its lower-case form, each letter in
/// lower case.
pub open spec fn lowers_ascii(text: Text) -> bool {
    &&& is_ascii_chars(text) ==> lowercased(text) == ascii_lowered(text)
    &&& forall|at: int|
        0 <= at <= text.len() && is_ascii_chars(#[trigger] text.skip(at)) ==> ends_in(
            lowercased(text),
            ascii_lowered(text.skip(at)),
        )
}

/// `str::to_lowercase` maps a string by the Unicode lower-case mapping, which
/// is named here and not written out. Of that mapping the contract claims two
/// things. A string of ASCII characters comes out with each letter in lower
/// case. Whatever stands before it, a run of ASCII characters at the end of the
/// string comes out at the end of the result, each letter in lower case.
pub assume_specification[ str::to_lowercase ](text: &str) -> (lower: String)
    ensures
        lower@ == lowercased(text@),
        is_ascii_chars(text@) ==> lower@ == ascii_lowered(text@),
        forall|at: int|
            0 <= at <= text@.len() && is_ascii_chars(#[trigger] text@.skip(at)) ==> ends_in(
                lower@,
                ascii_lowered(text@.skip(at)),
            ),
;

/// `str::to_ascii_lowercase` maps `A` to `Z` to `a` to `z` and leaves every
/// other character as it is.
pub assume_specification[ str::to_ascii_lowercase ](text: &str) -> (lower: String)
    ensures
        lower@ == ascii_lowered(text@),
;

/// `str::trim` drops the white space, in Unicode's sense, at both ends.
pub assume_specification[ str::trim ](text: &str) -> (inner: &str)
    ensures
        inner@ == trimmed(text@),
;

/// A decimal digit.
pub open spec fn decimal_digit(value: nat) -> char {
    ('0' as u32 + value) as char
}

/// A number in decimal.
pub open spec fn decimal(number: nat) -> Text
    decreases number,
{
    if number < 10 {
        seq![decimal_digit(number)]
    } else {
        decimal(number / 10).push(decimal_digit(number % 10))
    }
}

/// A decimal digit, as a string.
fn digit_text(value: u16) -> (text: &'static str)
    requires
        value < 10,
    ensures
        text@ == seq![decimal_digit(value as nat)],
{
    proof {
        reveal_strlit("0");
        reveal_strlit("1");
        reveal_strlit("2");
        reveal_strlit("3");
        reveal_strlit("4");
        reveal_strlit("5");
        reveal_strlit("6");
        reveal_strlit("7");
        reveal_strlit("8");
        reveal_strlit("9");
    }
    match value {
        0 => "0",
        1 => "1",
        2 => "2",
        3 => "3",
        4 => "4",
        5 => "5",
        6 => "6",
        7 => "7",
        8 => "8",
        _ => "9",
    }
}

/// A number in decimal, as a string.
pub fn decimal_text(number: u16) -> (text: String)
    ensures
        text@ == decimal(number as nat),
    decreases number,
{
    if number < 10 {
        digit_text(number).to_owned()
    } else {
        let mut text = decimal_text(number / 10);
        let ghost front = text@;
        text.append(digit_text(number % 10));
        assert(text@ =~= front.push(decimal_digit((number % 10) as nat)));
        text
    }
}

/// Whether a string ends in `tail` once it is in lower case.
pub fn lowercase_ends_in(whole: &str, tail: &str) -> (found: bool)
    ensures
        found == ends_in(lowercased(whole@), tail@),
        lowers_ascii(whole@),
        ascii_end(whole@, tail@.len()) ==> found == ends_in_any_case(whole@, tail@),
{
    let lower = whole.to_lowercase();
    proof {
        if ascii_end(whole@, tail@.len()) {
            lemma_ascii_end(whole@, lower@, tail@);
        }
    }
    text_ends_in(lower.as_str(), tail)
}

/// Where the end of a text is ASCII, its lower-case form has the same end as
/// the text with its ASCII letters in lower case.
proof fn lemma_ascii_end(whole: Text, lower: Text, tail: Text)
    requires
        ascii_end(whole, tail.len()),
        is_ascii_chars(whole) ==> lower == ascii_lowered(whole),
        forall|at: int|
            0 <= at <= whole.len() && is_ascii_chars(#[trigger] whole.skip(at)) ==> ends_in(
                lower,
                ascii_lowered(whole.skip(at)),
            ),
    ensures
        ends_in(lower, tail) == ends_in_any_case(whole, tail),
{
    if tail.len() <= whole.len() {
        let at = whole.len() - tail.len();
        let end = ascii_lowered(whole.skip(at));
        assert(ends_in(lower, end));
        assert(end.len() == tail.len());
        assert(ascii_lowered(whole).subrange(at, whole.len() as int) =~= end);
    } else {
        assert(whole.skip(0) =~= whole);
    }
}

/// A text is found in every text that it was put into, at the place where it
/// was put.
pub proof fn law_parts_are_found(before: Text, part: Text, after: Text)
    ensures
        has_part(before + part + after, part),
        ends_in(before + part, part),
        begins_with(part + after, part),
{
    let whole = before + part + after;
    assert(whole.subrange(before.len() as int, (before.len() + part.len()) as int) =~= part);
    assert(occurs_at(whole, part, before.len() as int));
    assert((before + part).subrange(before.len() as int, (before + part).len() as int) =~= part);
    assert((part + after).subrange(0, part.len() as int) =~= part);
}

/// What is found in a text can be taken out of it: the text is what stands
/// before it, itself, and what stands after it.
pub proof fn law_found_parts_stand_there(whole: Text, part: Text)
    ensures
        has_part(whole, part) ==> exists|before: Text, after: Text|
            whole == #[trigger] (before + part + after),
        ends_in(whole, part) ==> exists|before: Text| whole == #[trigger] (before + part),
        begins_with(whole, part) ==> exists|after: Text| whole == #[trigger] (part + after),
{
    if has_part(whole, part) {
        let at = choose|at: int| occurs_at(whole, part, at);
        let before = whole.take(at);
        let after = whole.skip(at + part.len());
        assert(before + part + after =~= whole) by {
            assert(whole.subrange(at, at + part.len()) =~= part);
            assert(before + whole.subrange(at, at + part.len()) + after =~= whole);
        }
    }
    if ends_in(whole, part) {
        let at = whole.len() - part.len();
        let before = whole.take(at);
        assert(before + whole.subrange(at, whole.len() as int) =~= whole);
        assert(before + part == whole);
    }
    if begins_with(whole, part) {
        let after = whole.skip(part.len() as int);
        assert(whole.subrange(0, part.len() as int) + after =~= whole);
        assert(part + after == whole);
    }
}

/// Lowering the ASCII letters keeps the length of a text, moves every letter
/// from `A` to `Z` by the same distance, and leaves all other characters.
pub proof fn law_ascii_letters_are_lowered(text: Text)
    ensures
        ascii_lowered(text).len() == text.len(),
        forall|i: int|
            0 <= i < text.len() && 'A' <= #[trigger] text[i] <= 'Z' ==> ascii_lowered(text)[i] as u32
                - 'a' as u32 == text[i] as u32 - 'A' as u32,
        forall|i: int|
            0 <= i < text.len() && !('A' <= #[trigger] text[i] <= 'Z') ==> ascii_lowered(text)[i]
                == text[i],
{
}

/// The number that decimal digits stand for.
pub open spec fn number_of(digits: Text) -> int
    decreases digits.len(),
{
    if digits.len() == 0 {
        0
    } else {
        10 * number_of(digits.drop_last()) + (digits.last() as u32 - '0' as u32)
    }
}

/// A number in decimal reads back as the number. It is made of digits, with no
/// zero in front but for zero itself.
pub proof fn law_decimal_reads_back(number: nat)
    ensures
        number_of(decimal(number)) == number,
        decimal(number).len() > 0,
        forall|i: int| 0 <= i < decimal(number).len() ==> '0' <= #[trigger] decimal(number)[i] <= '9',
        number > 0 ==> decimal(number)[0] != '0',
    decreases number,
{
    let digits = decimal(number);
    if number < 10 {
        assert(digits.drop_last() =~= Text::empty());
        assert(number_of(digits.drop_last()) == 0);
    } else {
        law_decimal_reads_back(number / 10);
        assert(digits.drop_last() =~= decimal(number / 10));
        assert forall|i: int| 0 <= i < digits.len() implies '0' <= #[trigger] digits[i] <= '9' by {
            if i < digits.len() - 1 {
                assert(digits[i] == decimal(number / 10)[i]);
            }
        }
        assert(digits[0] == decimal(number / 10)[0]);
    }
}

} // verus!
