//! Text: numbers read back, and what it is for one text to stand in another.

use crate::repair::namespace::NamespaceView;
use crate::text;
use vstd::prelude::*;

verus! {

/// The number that a run of decimal digits is read as.
pub open spec fn number(digits: Seq<char>) -> int
    decreases digits.len(),
{
    if digits.len() == 0 {
        0
    } else {
        10 * number(digits.drop_last()) + (digits.last() as int - '0' as int)
    }
}

/// A number that was written in decimal reads back as itself, is made of digits alone, and has no
/// zero in front of it. One below zero is the digits of what it lacks, behind a minus sign.
pub proof fn a_number_reads_back(count: nat)
    ensures
        number(text::decimal(count)) == count,
        text::decimal(count).len() > 0,
        forall|i: int|
            0 <= i < text::decimal(count).len() ==> '0' <= #[trigger] text::decimal(count)[i]
                <= '9',
        text::decimal(count)[0] == '0' ==> count == 0,
        text::signed_decimal(count as int) == text::decimal(count),
        count > 0 ==> text::signed_decimal(-count) == seq!['-'] + text::decimal(count),
    decreases count,
{
    if count >= 10 {
        a_number_reads_back(count / 10);
        let shorter = text::decimal(count / 10);
        assert(text::decimal(count).drop_last() =~= shorter);
    } else {
        let digits = text::decimal(count);
        assert(digits.drop_last() =~= Seq::<char>::empty());
        assert(number(Seq::<char>::empty()) == 0);
    }
}

/// One text stands in another exactly where the other is made of something, it, and something.
pub proof fn a_part_stands_between_two_ends(whole: Seq<char>, part: Seq<char>)
    ensures
        text::contains(whole, part) <==> exists|front: Seq<char>, back: Seq<char>|
            whole == #[trigger] (front + part + back),
{
    if text::contains(whole, part) {
        let start = choose|start: int| text::stands_at(whole, part, start);
        let front = whole.take(start);
        let back = whole.skip(start + part.len());
        assert(whole =~= front + part + back);
    }
    if exists|front: Seq<char>, back: Seq<char>| whole == #[trigger] (front + part + back) {
        let (front, back) = choose|front: Seq<char>, back: Seq<char>|
            whole == #[trigger] (front + part + back);
        assert(whole.subrange(front.len() as int, front.len() as int + part.len()) =~= part);
        assert(text::stands_at(whole, part, front.len() as int));
    }
}

/// A namespace is written as its database, a dot and its collection.
pub proof fn a_namespace_is_dotted(namespace: NamespaceView)
    ensures
        namespace.text() == namespace.database + seq!['.'] + namespace.collection,
{
    reveal_strlit(".");
    assert("."@ =~= seq!['.']);
}

/// White space is the characters that Unicode gives the property White_Space, and no other.
pub proof fn white_space_is_what_unicode_says(character: char)
    ensures
        ({
            let point = character as int;
            text::is_space(character) <==> {
                ||| 9 <= point <= 13
                ||| point == 32
                ||| point == 0x85
                ||| point == 0xa0
                ||| point == 0x1680
                ||| 0x2000 <= point <= 0x200a
                ||| point == 0x2028
                ||| point == 0x2029
                ||| point == 0x202f
                ||| point == 0x205f
                ||| point == 0x3000
            }
        }),
{
}

/// The white space around a word is the blanks, tabs and line ends that people type, among
/// others, and never a letter or a digit.
pub proof fn words_are_no_white_space(character: char)
    ensures
        character == ' ' || character == '\t' || character == '\n' || character == '\r'
            ==> text::is_space(character),
        'a' <= character <= 'z' || 'A' <= character <= 'Z' || '0' <= character <= '9'
            ==> !text::is_space(character),
{
}

} // verus!
