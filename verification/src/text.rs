//! Text: building messages, and the few questions the library asks of a string.

use vstd::prelude::*;

verus! {

/// A number from zero to nine as a character.
pub open spec fn digit(number: nat) -> char {
    ('0' as int + number) as char
}

/// A number in decimal, without leading zeros.
pub open spec fn decimal(number: nat) -> Seq<char>
    decreases number,
{
    if number < 10 {
        seq![digit(number)]
    } else {
        decimal(number / 10).push(digit(number % 10))
    }
}

/// A signed number in decimal.
pub open spec fn signed_decimal(number: int) -> Seq<char> {
    if number < 0 {
        seq!['-'] + decimal((-number) as nat)
    } else {
        decimal(number as nat)
    }
}

fn digit_text(number: u64) -> (text: &'static str)
    requires
        number < 10,
    ensures
        text@ == seq![digit(number as nat)],
{
    proof {
        reveal_strlit("0");
        reveal_strlit("1");
        reveal_strlit("2");
        reveal_strlit("3");
        reveal_strlit("4");
        reveal_strlit("5");
        reveal_strlit("6");
        reveal_strlit("7");
        reveal_strlit("8");
        reveal_strlit("9");
    }
    match number {
        0 => "0",
        1 => "1",
        2 => "2",
        3 => "3",
        4 => "4",
        5 => "5",
        6 => "6",
        7 => "7",
        8 => "8",
        _ => "9",
    }
}

/// Appends `number` in decimal.
pub fn push_decimal(text: &mut String, number: u64)
    ensures
        final(text)@ == old(text)@ + decimal(number as nat),
    decreases number,
{
    if number >= 10 {
        push_decimal(text, number / 10);
    }
    text.append(digit_text(number % 10));
}

/// Appends `number` in decimal, with a minus sign where it is below zero.
pub fn push_signed_decimal(text: &mut String, number: i64)
    ensures
        final(text)@ == old(text)@ + signed_decimal(number as int),
{
    if number < 0 {
        proof {
            reveal_strlit("-");
        }
        text.append("-");
        if number == i64::MIN {
            push_decimal(text, 0x8000_0000_0000_0000);
        } else {
            push_decimal(text, (-number) as u64);
        }
        assert("-"@ =~= seq!['-']);
    } else {
        push_decimal(text, number as u64);
    }
}

/// The characters of a string.
pub fn characters(text: &str) -> (characters: Vec<char>)
    ensures
        characters@ == text@,
{
    let mut characters: Vec<char> = Vec::new();
    for character in iter: text.chars()
        invariant
            characters@ == iter.seq().take(iter.index()),
            iter.seq() == text@,
    {
        characters.push(character);
    }
    characters
}

/// Whether `part` stands in `whole` with its first character at `start`.
pub open spec fn stands_at(whole: Seq<char>, part: Seq<char>, start: int) -> bool {
    &&& 0 <= start
    &&& start + part.len() <= whole.len()
    &&& whole.subrange(start, start + part.len()) == part
}

/// Whether `part` stands anywhere in `whole`.
pub open spec fn contains(whole: Seq<char>, part: Seq<char>) -> bool {
    exists|start: int| stands_at(whole, part, start)
}

/// The characters with the Unicode property White_Space.
pub open spec fn is_space(character: char) -> bool {
    ||| '\u{9}' <= character <= '\u{d}'
    ||| character == ' '
    ||| character == '\u{85}'
    ||| character == '\u{a0}'
    ||| character == '\u{1680}'
    ||| '\u{2000}' <= character <= '\u{200a}'
    ||| character == '\u{2028}'
    ||| character == '\u{2029}'
    ||| character == '\u{202f}'
    ||| character == '\u{205f}'
    ||| character == '\u{3000}'
}

/// Whether `part` is `whole` without the white space around it.
pub open spec fn is_trimmed(whole: Seq<char>, part: Seq<char>) -> bool {
    exists|start: int, end: int| #[trigger] is_trimmed_range(whole, start, end)
        && part == whole.subrange(start, end)
}

/// Whether everything in `whole` before `start` and from `end` on is white space, and what
/// stands between them neither starts nor ends with any.
pub open spec fn is_trimmed_range(whole: Seq<char>, start: int, end: int) -> bool {
    &&& 0 <= start <= end <= whole.len()
    &&& forall|i: int| 0 <= i < start ==> is_space(#[trigger] whole[i])
    &&& forall|i: int| end <= i < whole.len() ==> is_space(#[trigger] whole[i])
    &&& start < end ==> !is_space(whole[start]) && !is_space(whole[end - 1])
}

/// An ASCII letter in lower case, any other character as it is.
pub open spec fn lower(character: char) -> char {
    if 'A' <= character <= 'Z' {
        (character as int + 32) as char
    } else {
        character
    }
}

/// Whether two texts agree but for the case of their ASCII letters.
pub open spec fn agree_ignoring_case(one: Seq<char>, other: Seq<char>) -> bool {
    one.map_values(|character: char| lower(character)) == other.map_values(
        |character: char| lower(character),
    )
}

/// Whether `part` stands in `whole` with its first character at `start`.
fn has_at(whole: &Vec<char>, part: &Vec<char>, start: usize) -> (found: bool)
    requires
        start + part@.len() <= whole@.len(),
    ensures
        found == stands_at(whole@, part@, start as int),
{
    let length: usize = whole.len();
    let mut i: usize = 0;
    while i < part.len()
        invariant
            i <= part@.len(),
            length == whole@.len(),
            start + part@.len() <= length,
            forall|j: int| 0 <= j < i ==> whole@[start + j] == #[trigger] part@[j],
        decreases part@.len() - i,
    {
        if whole[start + i] != part[i] {
            assert(whole@.subrange(start as int, start + part@.len())[i as int] != part@[i as int]);
            return false;
        }
        i += 1;
    }
    assert(whole@.subrange(start as int, start + part@.len()) =~= part@);
    true
}

/// Whether `part` stands anywhere in `whole`.
pub fn has(whole: &str, part: &str) -> (found: bool)
    ensures
        found == contains(whole@, part@),
{
    let whole_characters: Vec<char> = characters(whole);
    let part_characters: Vec<char> = characters(part);
    if whole_characters.len() < part_characters.len() {
        return false;
    }
    let last: usize = whole_characters.len() - part_characters.len();
    let mut start: usize = 0;
    while start <= last
        invariant
            whole_characters@ == whole@,
            part_characters@ == part@,
            part@.len() <= whole@.len(),
            last == whole@.len() - part@.len(),
            start <= last + 1,
            forall|i: int| 0 <= i < start ==> !stands_at(whole@, part@, i),
        decreases last + 1 - start,
    {
        if has_at(&whole_characters, &part_characters, start) {
            return true;
        }
        if start == last {
            assert(forall|i: int| !stands_at(whole@, part@, i));
            return false;
        }
        start += 1;
    }
    false
}

/// Whether a character has the Unicode property White_Space.
pub fn is_white_space(character: char) -> (white: bool)
    ensures
        white == is_space(character),
{
    match character {
        '\u{9}'..='\u{d}' => true,
        ' ' => true,
        '\u{85}' => true,
        '\u{a0}' => true,
        '\u{1680}' => true,
        '\u{2000}'..='\u{200a}' => true,
        '\u{2028}' => true,
        '\u{2029}' => true,
        '\u{202f}' => true,
        '\u{205f}' => true,
        '\u{3000}' => true,
        _ => false,
    }
}

/// Whether two texts are the same.
pub fn same(one: &str, other: &str) -> (same: bool)
    ensures
        same == (one@ == other@),
{
    let one_characters: Vec<char> = characters(one);
    let other_characters: Vec<char> = characters(other);
    if one_characters.len() != other_characters.len() {
        return false;
    }
    if has_at(&one_characters, &other_characters, 0) {
        assert(one@.subrange(0, other@.len() as int) =~= one@);
        true
    } else {
        assert(one@.subrange(0, other@.len() as int) =~= one@);
        false
    }
}

/// An ASCII letter in lower case, any other character as it is.
fn to_lower(character: char) -> (lowered: char)
    ensures
        lowered == lower(character),
{
    match character {
        'A'..='Z' => (character as u8 + 32) as char,
        _ => character,
    }
}

/// Whether `part`, but for the case of its ASCII letters, is what is left of `whole` once the
/// white space around it is gone.
pub fn is_trimmed_ignoring_case(whole: &str, part: &str) -> (agrees: bool)
    ensures
        agrees == exists|trimmed: Seq<char>| #[trigger] is_trimmed(whole@, trimmed)
            && agree_ignoring_case(trimmed, part@),
{
    let whole_characters: Vec<char> = characters(whole);
    let part_characters: Vec<char> = characters(part);
    let mut start: usize = 0;
    while start < whole_characters.len() && is_white_space(whole_characters[start])
        invariant
            start <= whole_characters@.len(),
            forall|i: int| 0 <= i < start ==> is_space(#[trigger] whole_characters@[i]),
        decreases whole_characters@.len() - start,
    {
        start += 1;
    }
    let mut end: usize = whole_characters.len();
    while end > start && is_white_space(whole_characters[end - 1])
        invariant
            start <= end <= whole_characters@.len(),
            forall|i: int| end <= i < whole_characters@.len() ==> is_space(
                #[trigger] whole_characters@[i],
            ),
        decreases end,
    {
        end -= 1;
    }
    let ghost trimmed = whole@.subrange(start as int, end as int);
    proof {
        assert(is_trimmed_range(whole@, start as int, end as int));
        assert(is_trimmed(whole@, trimmed));
        lemma_trimmed_is_unique(whole@, start as int, end as int);
    }
    if end - start != part_characters.len() {
        assert(forall|other: Seq<char>|
            agree_ignoring_case(other, part@) ==> #[trigger] other.len() == part@.len()) by {
            assert forall|other: Seq<char>| agree_ignoring_case(
                other,
                part@,
            ) implies #[trigger] other.len() == part@.len() by {
                assert(other.map_values(|character: char| lower(character)).len() == other.len());
            }
        }
        return false;
    }
    let mut i: usize = 0;
    while i < part_characters.len()
        invariant
            start <= end <= whole_characters@.len(),
            end - start == part_characters@.len(),
            whole_characters@ == whole@,
            part_characters@ == part@,
            i <= part@.len(),
            trimmed == whole@.subrange(start as int, end as int),
            forall|other: Seq<char>| #[trigger]
                is_trimmed(whole@, other) ==> other == trimmed,
            forall|j: int| 0 <= j < i ==> lower(trimmed[j]) == lower(#[trigger] part@[j]),
        decreases part@.len() - i,
    {
        if to_lower(whole_characters[start + i]) != to_lower(part_characters[i]) {
            assert(!agree_ignoring_case(trimmed, part@)) by {
                let ghost one = trimmed.map_values(|character: char| lower(character));
                let ghost two = part@.map_values(|character: char| lower(character));
                assert(one[i as int] != two[i as int]);
            }
            return false;
        }
        i += 1;
    }
    assert(agree_ignoring_case(trimmed, part@)) by {
        assert(trimmed.map_values(|character: char| lower(character)) =~= part@.map_values(
            |character: char| lower(character),
        ));
    }
    true
}

/// A text has one trimmed form.
proof fn lemma_trimmed_is_unique(whole: Seq<char>, start: int, end: int)
    requires
        is_trimmed_range(whole, start, end),
    ensures
        forall|other: Seq<char>| #[trigger]
            is_trimmed(whole, other) ==> other == whole.subrange(start, end),
{
    assert forall|other: Seq<char>| #[trigger] is_trimmed(whole, other) implies other
        == whole.subrange(start, end) by {
        let (s, e) = choose|s: int, e: int| #[trigger]
            is_trimmed_range(whole, s, e) && other == whole.subrange(s, e);
        if s < e && start < end {
            assert(!is_space(whole[s]) && !is_space(whole[start]));
            assert(!is_space(whole[e - 1]) && !is_space(whole[end - 1]));
        } else if s < e {
            assert(is_space(whole[s]));
        } else if start < end {
            assert(is_space(whole[start]));
        } else {
            assert(other =~= whole.subrange(start, end));
        }
    }
}

} // verus!
