//! Building names and messages.
use vstd::prelude::*;
use vstd::string::StringExecFns;

verus! {

/// The last decimal digit of `value`.
pub open spec fn digit(value: nat) -> Seq<char> {
    seq![(48 + value % 10) as char]
}

/// `value` in decimal, without leading zeros.
pub open spec fn decimal(value: nat) -> Seq<char>
    decreases value,
{
    if value < 10 {
        digit(value)
    } else {
        decimal(value / 10) + digit(value)
    }
}

/// `[a, b, c]`, the elements in decimal.
pub open spec fn bracketed(values: Seq<usize>) -> Seq<char> {
    "["@ + listed(values) + "]"@
}

/// `a, b, c`, the elements in decimal.
pub open spec fn listed(values: Seq<usize>) -> Seq<char>
    decreases values.len(),
{
    if values.len() == 0 {
        ""@
    } else if values.len() == 1 {
        decimal(values[0] as nat)
    } else {
        listed(values.drop_last()) + ", "@ + decimal(values.last() as nat)
    }
}

fn digit_text(value: usize) -> (text: &'static str)
    ensures
        text@ == digit(value as nat),
{
    proof {
        reveal_strlit("0");
        reveal_strlit("1");
        reveal_strlit("2");
        reveal_strlit("3");
        reveal_strlit("4");
        reveal_strlit("5");
        reveal_strlit("6");
        reveal_strlit("7");
        reveal_strlit("8");
        reveal_strlit("9");
    }
    match value % 10 {
        0 => "0",
        1 => "1",
        2 => "2",
        3 => "3",
        4 => "4",
        5 => "5",
        6 => "6",
        7 => "7",
        8 => "8",
        _ => "9",
    }
}

pub fn decimal_text(value: usize) -> (text: String)
    ensures
        text@ == decimal(value as nat),
    decreases value,
{
    if value < 10 {
        digit_text(value).to_owned()
    } else {
        let mut text = decimal_text(value / 10);
        text.append(digit_text(value));
        text
    }
}

pub fn bracketed_text(values: &Vec<usize>) -> (text: String)
    ensures
        text@ == bracketed(values@),
{
    let mut text = "[".to_owned();
    let mut i: usize = 0;
    proof {
        reveal_strlit("");
        assert(text@ =~= "["@ + listed(values@.take(0)));
    }
    while i < values.len()
        invariant
            i <= values.len(),
            text@ == "["@ + listed(values@.take(i as int)),
        decreases values.len() - i,
    {
        let ghost shown = values@.take(i + 1);
        proof {
            assert(shown.drop_last() =~= values@.take(i as int));
            assert(shown.last() == values@[i as int]);
            reveal_strlit("");
        }
        let element = decimal_text(values[i]);
        if i > 0 {
            text.append(", ");
        }
        text.append(element.as_str());
        proof {
            if i > 0 {
                assert(text@ =~= "["@ + (listed(shown.drop_last()) + ", "@ + decimal(
                    shown.last() as nat,
                )));
            } else {
                assert(text@ =~= "["@ + decimal(shown[0] as nat));
            }
        }
        i = i + 1;
    }
    proof {
        assert(values@.take(i as int) =~= values@);
    }
    text.append("]");
    text
}

/// `first` followed by `second`.
pub fn joined(first: &str, second: &str) -> (text: String)
    ensures
        text@ == first@ + second@,
{
    let mut text = first.to_owned();
    text.append(second);
    text
}

/// Whether two strings hold the same characters.
pub fn same_text(first: &String, second: &str) -> (same: bool)
    ensures
        same == (first@ == second@),
{
    let other = second.to_owned();
    first.eq(&other)
}

/// The number that decimal digits stand for.
pub open spec fn number_of(digits: Seq<char>) -> int
    decreases digits.len(),
{
    if digits.len() == 0 {
        0
    } else {
        number_of(digits.drop_last()) * 10 + (digits.last() as int - '0' as int)
    }
}

/// A number in decimal reads back as that number, is written in digits only, and
/// starts with a zero only where it is zero. So different numbers are written
/// differently.
pub proof fn law_decimal_reads_back(value: nat)
    ensures
        number_of(decimal(value)) == value,
        decimal(value).len() > 0,
        forall|i: int|
            0 <= i < decimal(value).len() ==> '0' <= #[trigger] decimal(value)[i] <= '9',
        value > 0 ==> decimal(value)[0] != '0',
        value == 0 ==> decimal(value) == seq!['0'],
    decreases value,
{
    reveal_with_fuel(number_of, 2);
    let digits = decimal(value);
    if value >= 10 {
        law_decimal_reads_back(value / 10);
        assert(digits.drop_last() =~= decimal(value / 10));
    } else {
        assert(digits.drop_last() =~= Seq::<char>::empty());
    }
}

/// Whether `part` stands somewhere in `whole`.
pub open spec fn occurs(part: Seq<char>, whole: Seq<char>) -> bool {
    exists|before: Seq<char>, after: Seq<char>| whole == #[trigger] (before + part + after)
}

} // verus!
