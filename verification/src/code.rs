//! Position codes: a prefix, an underscore and a sequence number in decimal.

use vstd::prelude::*;
use vstd::string::StringExecFns;

verus! {

/// The character of a decimal digit.
pub open spec fn digit_char(digit: int) -> char {
    (48 + digit) as char
}

/// The decimal text of a number, without leading zeros.
pub open spec fn decimal(number: nat) -> Seq<char>
    decreases number,
{
    if number < 10 {
        seq![digit_char(number as int)]
    } else {
        decimal(number / 10).push(digit_char((number % 10) as int))
    }
}

/// The code of the position with the given prefix and sequence number, such as
/// `p_12`.
pub open spec fn position_code(prefix: Seq<char>, sequence: nat) -> Seq<char> {
    prefix + seq!['_'] + decimal(sequence)
}

/// The text of one decimal digit.
fn digit_text(digit: u32) -> (text: &'static str)
    requires
        digit < 10,
    ensures
        text@ == seq![digit_char(digit as int)],
{
    proof {
        reveal_strlit("0");
        reveal_strlit("1");
        reveal_strlit("2");
        reveal_strlit("3");
        reveal_strlit("4");
        reveal_strlit("5");
        reveal_strlit("6");
        reveal_strlit("7");
        reveal_strlit("8");
        reveal_strlit("9");
    }
    let text = if digit == 0 {
        "0"
    } else if digit == 1 {
        "1"
    } else if digit == 2 {
        "2"
    } else if digit == 3 {
        "3"
    } else if digit == 4 {
        "4"
    } else if digit == 5 {
        "5"
    } else if digit == 6 {
        "6"
    } else if digit == 7 {
        "7"
    } else if digit == 8 {
        "8"
    } else {
        "9"
    };
    text
}

/// Appends the decimal text of a number to a string.
fn push_decimal(text: &mut String, number: u32)
    ensures
        final(text)@ == old(text)@ + decimal(number as nat),
    decreases number,
{
    if number >= 10 {
        push_decimal(text, number / 10);
    }
    text.append(digit_text(number % 10));
}

/// Builds the code of the position with the given prefix and sequence number.
pub fn format_code(prefix: &String, sequence: u32) -> (code: String)
    ensures
        code@ == position_code(prefix@, sequence as nat),
{
    let mut code = prefix.clone();
    proof {
        reveal_strlit("_");
    }
    code.append("_");
    push_decimal(&mut code, sequence);
    code
}

/// The decimal text of a number is not empty and holds digits only.
pub proof fn lemma_decimal_digits(number: nat)
    ensures
        decimal(number).len() >= 1,
        number >= 10 ==> decimal(number).len() >= 2,
        forall|i: int|
            0 <= i < decimal(number).len() ==> '0' <= #[trigger] decimal(number)[i] <= '9',
        decimal(number).last() == digit_char((number % 10) as int),
    decreases number,
{
    if number >= 10 {
        lemma_decimal_digits(number / 10);
    }
}

/// Different numbers have different decimal texts.
pub proof fn lemma_decimal_injective(first: nat, second: nat)
    requires
        decimal(first) == decimal(second),
    ensures
        first == second,
    decreases first,
{
    lemma_decimal_digits(first);
    lemma_decimal_digits(second);
    assert(first % 10 == second % 10);
    if first >= 10 {
        assert(second >= 10);
        assert(decimal(first).drop_last() =~= decimal(first / 10));
        assert(decimal(second).drop_last() =~= decimal(second / 10));
        lemma_decimal_injective(first / 10, second / 10);
    } else {
        assert(second < 10);
    }
}

/// Codes with different sequence numbers differ, whatever their prefixes: the
/// number is what follows the last underscore.
pub proof fn lemma_codes_differ(
    first_prefix: Seq<char>,
    first: nat,
    second_prefix: Seq<char>,
    second: nat,
)
    requires
        first != second,
    ensures
        position_code(first_prefix, first) != position_code(second_prefix, second),
{
    let a = position_code(first_prefix, first);
    let b = position_code(second_prefix, second);
    let da = decimal(first);
    let db = decimal(second);
    lemma_decimal_digits(first);
    lemma_decimal_digits(second);
    if a == b {
        assert(a.len() == first_prefix.len() + 1 + da.len());
        assert(b.len() == second_prefix.len() + 1 + db.len());
        if da.len() == db.len() {
            assert forall|i: int| 0 <= i < da.len() implies da[i] == db[i] by {
                assert(a[first_prefix.len() + 1 + i] == da[i]);
                assert(b[second_prefix.len() + 1 + i] == db[i]);
            }
            assert(da =~= db);
            lemma_decimal_injective(first, second);
        } else if da.len() < db.len() {
            let at = first_prefix.len() as int;
            assert(a[at] == '_');
            assert(b[at] == db[at - second_prefix.len() - 1]);
        } else {
            let at = second_prefix.len() as int;
            assert(b[at] == '_');
            assert(a[at] == da[at - first_prefix.len() - 1]);
        }
    }
}

} // verus!
