//! Decimal notation of numbers in text.
use vstd::prelude::*;
use vstd::string::*;

verus! {

/// The decimal digit `d`.
pub open spec fn digit(d: int) -> char {
    seq!['0', '1', '2', '3', '4', '5', '6', '7', '8', '9'][d]
}

/// The decimal notation of `n`.
pub open spec fn decimal(n: nat) -> Seq<char>
    decreases n,
{
    if n < 10 {
        seq![digit(n as int)]
    } else {
        decimal(n / 10).push(digit((n % 10) as int))
    }
}

/// The text of the decimal digit `d`.
fn digit_text(d: u64) -> (r: String)
    requires
        d < 10,
    ensures
        r@ == seq![digit(d as int)],
{
    proof {
        reveal_strlit("0");
        reveal_strlit("1");
        reveal_strlit("2");
        reveal_strlit("3");
        reveal_strlit("4");
        reveal_strlit("5");
        reveal_strlit("6");
        reveal_strlit("7");
        reveal_strlit("8");
        reveal_strlit("9");
    }
    let ghost digits = seq!['0', '1', '2', '3', '4', '5', '6', '7', '8', '9'];
    assert(digits[0] == '0' && digits[1] == '1' && digits[2] == '2' && digits[3] == '3' && digits[4] == '4');
    assert(digits[5] == '5' && digits[6] == '6' && digits[7] == '7' && digits[8] == '8' && digits[9] == '9');
    let r = if d == 0 {
        let t = String::from_str("0");
        assert(t@ =~= seq![digit(0)]);
        t
    } else if d == 1 {
        let t = String::from_str("1");
        assert(t@ =~= seq![digit(1)]);
        t
    } else if d == 2 {
        let t = String::from_str("2");
        assert(t@ =~= seq![digit(2)]);
        t
    } else if d == 3 {
        let t = String::from_str("3");
        assert(t@ =~= seq![digit(3)]);
        t
    } else if d == 4 {
        let t = String::from_str("4");
        assert(t@ =~= seq![digit(4)]);
        t
    } else if d == 5 {
        let t = String::from_str("5");
        assert(t@ =~= seq![digit(5)]);
        t
    } else if d == 6 {
        let t = String::from_str("6");
        assert(t@ =~= seq![digit(6)]);
        t
    } else if d == 7 {
        let t = String::from_str("7");
        assert(t@ =~= seq![digit(7)]);
        t
    } else if d == 8 {
        let t = String::from_str("8");
        assert(t@ =~= seq![digit(8)]);
        t
    } else {
        let t = String::from_str("9");
        assert(t@ =~= seq![digit(9)]);
        t
    };
    r
}

/// Appends the decimal notation of `n` to `out`.
fn push_decimal(out: &mut String, n: u64)
    ensures
        final(out)@ == old(out)@ + decimal(n as nat),
    decreases n,
{
    if n >= 10 {
        push_decimal(out, n / 10);
    }
    let d = digit_text(n % 10);
    out.append(d.as_str());
    assert(out@ =~= old(out)@ + decimal(n as nat));
}

/// The decimal notation of `n`.
pub fn decimal_text(n: u64) -> (r: String)
    ensures
        r@ == decimal(n as nat),
{
    let mut r = String::new();
    push_decimal(&mut r, n);
    assert(r@ =~= decimal(n as nat));
    r
}

} // verus!
