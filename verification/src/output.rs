//! What `PRNT` emits, and the line of text that stands for it.

use vstd::prelude::*;
use vstd::string::StringExecFns;

verus! {

/// One item of output: what one `PRNT` instruction printed.
#[derive(Clone, Copy, Debug, PartialEq, Eq, Structural)]
pub enum Output {
    /// The value that was on top of the stack.
    Value(i64),
    /// The mark that `PRNT` leaves when the stack is empty.
    Placeholder,
}

/// The character for a digit `d` below ten.
pub open spec fn digit(d: nat) -> char
    recommends
        d < 10,
{
    if d == 0 {
        '0'
    } else if d == 1 {
        '1'
    } else if d == 2 {
        '2'
    } else if d == 3 {
        '3'
    } else if d == 4 {
        '4'
    } else if d == 5 {
        '5'
    } else if d == 6 {
        '6'
    } else if d == 7 {
        '7'
    } else if d == 8 {
        '8'
    } else {
        '9'
    }
}

/// The decimal digits of `n`, most significant first, without leading zeros.
pub open spec fn digits(n: nat) -> Seq<char>
    decreases n,
{
    if n < 10 {
        seq![digit(n)]
    } else {
        digits(n / 10).push(digit(n % 10))
    }
}

/// The decimal representation of `v`: its digits, after a minus sign if it is negative.
pub open spec fn decimal(v: int) -> Seq<char> {
    if v < 0 {
        seq!['-'] + digits((-v) as nat)
    } else {
        digits(v as nat)
    }
}

/// The digit that a character stands for; 0 for a character that is no digit.
pub open spec fn digit_value(c: char) -> nat {
    if c == '1' {
        1
    } else if c == '2' {
        2
    } else if c == '3' {
        3
    } else if c == '4' {
        4
    } else if c == '5' {
        5
    } else if c == '6' {
        6
    } else if c == '7' {
        7
    } else if c == '8' {
        8
    } else if c == '9' {
        9
    } else {
        0
    }
}

/// The number that a row of digits spells out.
pub open spec fn number(text: Seq<char>) -> nat
    decreases text.len(),
{
    if text.len() == 0 {
        0
    } else {
        10 * number(text.drop_last()) + digit_value(text.last())
    }
}

/// The integer that a decimal representation spells out.
pub open spec fn value(text: Seq<char>) -> int {
    if text.len() > 0 && text[0] == '-' {
        -(number(text.skip(1)) as int)
    } else {
        number(text) as int
    }
}

/// The digits of a number spell that number out, and hold no minus sign.
pub proof fn digits_spell_the_number(n: nat)
    ensures
        number(digits(n)) == n,
        digits(n).len() > 0,
        digits(n)[0] != '-',
    decreases n,
{
    if n < 10 {
        assert(digits(n).drop_last() =~= Seq::<char>::empty());
        assert(number(digits(n).drop_last()) == 0);
    } else {
        digits_spell_the_number(n / 10);
        assert(digits(n).drop_last() =~= digits(n / 10));
        assert(digits(n)[0] == digits(n / 10)[0]);
    }
}

/// The decimal representation of an integer spells that integer out: no
/// two integers are written alike.
pub proof fn decimal_spells_the_value(v: int)
    ensures
        value(decimal(v)) == v,
{
    if v < 0 {
        digits_spell_the_number((-v) as nat);
        assert(decimal(v).skip(1) =~= digits((-v) as nat));
    } else {
        digits_spell_the_number(v as nat);
    }
}

/// The text of the placeholder: three question marks.
pub open spec fn placeholder_text() -> Seq<char> {
    seq!['?', '?', '?']
}

impl Output {
    /// The line of text that stands for this item.
    pub open spec fn text(self) -> Seq<char> {
        match self {
            Output::Value(v) => decimal(v as int),
            Output::Placeholder => placeholder_text(),
        }
    }

    /// Renders this item as the line to print, without a line break.
    pub fn line(&self) -> (s: String)
        ensures
            s@ == self.text(),
    {
        match self {
            Output::Value(v) => render_decimal(*v),
            Output::Placeholder => {
                proof {
                    reveal_strlit("???");
                }
                let s = String::from_str("???");
                assert(s@ =~= placeholder_text());
                s
            },
        }
    }
}

/// Writes `v` in decimal.
pub fn render_decimal(v: i64) -> (s: String)
    ensures
        s@ == decimal(v as int),
{
    let mut s = String::new();
    if v < 0 {
        proof {
            reveal_strlit("-");
        }
        s.append("-");
        assert(s@ =~= seq!['-']);
        let magnitude: u64 = (-(v + 1)) as u64 + 1;
        append_digits(&mut s, magnitude);
    } else {
        append_digits(&mut s, v as u64);
        assert(s@ =~= digits(v as nat));
    }
    s
}

/// Appends the decimal digits of `n` to `text`.
fn append_digits(text: &mut String, n: u64)
    ensures
        final(text)@ == old(text)@ + digits(n as nat),
    decreases n,
{
    if n >= 10 {
        append_digits(text, n / 10);
    }
    let last = digit_text((n % 10) as u8);
    text.append(last);
    assert(text@ =~= old(text)@ + digits(n as nat));
}

/// The text of one digit.
fn digit_text(d: u8) -> (s: &'static str)
    requires
        d < 10,
    ensures
        s@ == seq![digit(d as nat)],
{
    proof {
        reveal_strlit("0");
        reveal_strlit("1");
        reveal_strlit("2");
        reveal_strlit("3");
        reveal_strlit("4");
        reveal_strlit("5");
        reveal_strlit("6");
        reveal_strlit("7");
        reveal_strlit("8");
        reveal_strlit("9");
    }
    let s = match d {
        0 => "0",
        1 => "1",
        2 => "2",
        3 => "3",
        4 => "4",
        5 => "5",
        6 => "6",
        7 => "7",
        8 => "8",
        _ => "9",
    };
    assert(s@ =~= seq![digit(d as nat)]);
    s
}

} // verus!
