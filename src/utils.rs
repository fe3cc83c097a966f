//! Small text and attribute helpers shared by the components.

use vstd::prelude::*;

verus! {

/// The character of the decimal digit `d`.
pub open spec fn digit_char(d: nat) -> char
    recommends
        d < 10,
{
    seq!['0', '1', '2', '3', '4', '5', '6', '7', '8', '9'][d as int]
}

/// The decimal notation of `n`, most significant digit first, without leading zeros.
pub open spec fn decimal(n: nat) -> Seq<char>
    decreases n,
{
    if n < 10 {
        seq![digit_char(n)]
    } else {
        decimal(n / 10).push(digit_char(n % 10))
    }
}

fn digit_str(d: usize) -> (r: &'static str)
    requires
        d < 10,
    ensures
        r@ == seq![digit_char(d as nat)],
{
    proof {
        reveal_strlit("0");
        reveal_strlit("1");
        reveal_strlit("2");
        reveal_strlit("3");
        reveal_strlit("4");
        reveal_strlit("5");
        reveal_strlit("6");
        reveal_strlit("7");
        reveal_strlit("8");
        reveal_strlit("9");
    }
    let r = match d {
        0 => "0",
        1 => "1",
        2 => "2",
        3 => "3",
        4 => "4",
        5 => "5",
        6 => "6",
        7 => "7",
        8 => "8",
        _ => "9",
    };
    assert(r@ =~= seq![digit_char(d as nat)]);
    r
}

/// Appends the decimal notation of `n` to `out`.
pub fn push_decimal(out: &mut String, n: usize)
    ensures
        final(out)@ == old(out)@ + decimal(n as nat),
    decreases n,
{
    if n >= 10 {
        push_decimal(out, n / 10);
    }
    out.append(digit_str(n % 10));
    proof {
        if n >= 10 {
            assert(old(out)@ + decimal(n as nat) =~= old(out)@ + decimal((n / 10) as nat) + seq![
                digit_char((n % 10) as nat),
            ]);
        } else {
            assert(decimal(n as nat) == seq![digit_char(n as nat)]);
        }
    }
}

/// The value of a valueless attribute such as `disabled`: present and empty when
/// `value` holds, absent otherwise.
pub fn valueless_attr(value: bool) -> (r: Option<&'static str>)
    ensures
        value ==> (r matches Some(s) && s@ == Seq::<char>::empty()),
        !value ==> r is None,
{
    proof {
        reveal_strlit("");
    }
    if value {
        Some("")
    } else {
        None
    }
}

/// The value of a boolean attribute: `"true"` or `"false"`.
pub fn bool_attr(value: bool) -> (r: &'static str)
    ensures
        r@ == (if value {
            "true"@
        } else {
            "false"@
        }),
{
    if value {
        "true"
    } else {
        "false"
    }
}

/// A CSS selector for the element with the given id: `#` followed by the id.
pub fn id_selector(id: &str) -> (r: String)
    ensures
        r@ == seq!['#'] + id@,
{
    proof {
        reveal_strlit("#");
    }
    let mut r = String::from_str("#");
    r.append(id);
    r
}

/// An id attribute that is left out when the id is empty.
pub fn optional_id(id: String) -> (r: Option<String>)
    ensures
        id@.len() == 0 ==> r is None,
        id@.len() != 0 ==> r == Some(id),
{
    if id.as_str().is_empty() {
        None
    } else {
        Some(id)
    }
}

} // verus!
