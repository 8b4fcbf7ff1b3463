//! Reading of texts: decimal numerals, and texts made of a front and a back.

use vstd::prelude::*;
use crate::console::{LogLineView, Stream};
use crate::text;

verus! {

/// Whether `c` is one of the ten digits.
pub open spec fn is_digit(c: char) -> bool {
    '0' <= c <= '9'
}

/// The number that a string of digits reads as.
pub open spec fn read_natural(t: Seq<char>) -> int
    decreases t.len(),
{
    if t.len() == 0 {
        0
    } else {
        10 * read_natural(t.drop_last()) + (t.last() as int - '0' as int)
    }
}

/// Whether `t` is a decimal numeral: digits alone, at least one, and no zero in
/// front of others.
pub open spec fn is_numeral(t: Seq<char>) -> bool {
    &&& t.len() > 0
    &&& forall|i: int| 0 <= i < t.len() ==> is_digit(#[trigger] t[i])
    &&& t[0] == '0' ==> t.len() == 1
}

/// The integer that a numeral, with a minus sign in front or without, reads as.
pub open spec fn read_integer(t: Seq<char>) -> int {
    if t.len() > 0 && t[0] == '-' {
        -read_natural(t.skip(1))
    } else {
        read_natural(t)
    }
}

/// Whether `t` is a numeral, or a minus sign and the numeral of a positive number.
pub open spec fn is_integer_numeral(t: Seq<char>) -> bool {
    ||| is_numeral(t)
    ||| t.len() > 1 && t[0] == '-' && is_numeral(t.skip(1)) && t[1] != '0'
}

/// The text of a natural number is a numeral, and it reads back as that number.
pub proof fn law_natural_text_reads_back(n: nat)
    ensures
        is_numeral(text::natural_text(n)),
        read_natural(text::natural_text(n)) == n,
        n > 0 ==> text::natural_text(n)[0] != '0',
    decreases n,
{
    let t = text::natural_text(n);
    if n < 10 {
        assert(t.drop_last() == Seq::<char>::empty());
        assert(read_natural(t.drop_last()) == 0);
    } else {
        let shorter = text::natural_text(n / 10);
        law_natural_text_reads_back(n / 10);
        assert(t.drop_last() == shorter);
        assert(t[0] == shorter[0]);
        assert forall|i: int| 0 <= i < t.len() implies is_digit(#[trigger] t[i]) by {
            if i < shorter.len() {
                assert(is_digit(shorter[i]));
            }
        }
    }
}

/// The text of an integer is a numeral, with a minus sign if and only if it is
/// negative, and it reads back as that integer.
pub proof fn law_integer_text_reads_back(i: int)
    ensures
        is_integer_numeral(text::integer_text(i)),
        read_integer(text::integer_text(i)) == i,
        i < 0 <==> text::integer_text(i)[0] == '-',
{
    let t = text::integer_text(i);
    if i < 0 {
        law_natural_text_reads_back((-i) as nat);
        assert(t.skip(1) == text::natural_text((-i) as nat));
        assert(t[1] == t.skip(1)[0]);
    } else {
        law_natural_text_reads_back(i as nat);
        assert(is_digit(t[0]));
    }
}

/// Whether `t` is made of `front` and, right behind it, `back`.
pub open spec fn splits(t: Seq<char>, front: Seq<char>, back: Seq<char>) -> bool {
    &&& t.len() == front.len() + back.len()
    &&& forall|i: int| 0 <= i < front.len() ==> t[i] == #[trigger] front[i]
    &&& forall|i: int| 0 <= i < back.len() ==> t[front.len() + i] == #[trigger] back[i]
}

/// Whether a line goes to `stream` and says `front` and, right behind it, `back`.
pub open spec fn says(
    line: LogLineView,
    stream: Stream,
    front: Seq<char>,
    back: Seq<char>,
) -> bool {
    line.stream == stream && splits(line.text, front, back)
}

} // verus!
