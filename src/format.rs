//! Rendering of measurements in the `Server-Timing` wire format:
//! `name[;desc="description"];dur=<milliseconds with two decimals>`.

use vstd::prelude::*;
use vstd::string::*;

verus! {

/// The decimal digit `d` (for `d < 10`) as a character.
pub open spec fn digit_char(d: nat) -> char {
    if d == 0 { '0' }
    else if d == 1 { '1' }
    else if d == 2 { '2' }
    else if d == 3 { '3' }
    else if d == 4 { '4' }
    else if d == 5 { '5' }
    else if d == 6 { '6' }
    else if d == 7 { '7' }
    else if d == 8 { '8' }
    else { '9' }
}

/// Decimal notation of `n`, without leading zeros.
pub open spec fn decimal(n: nat) -> Seq<char>
    decreases n,
{
    if n < 10 {
        seq![digit_char(n)]
    } else {
        decimal(n / 10).push(digit_char(n % 10))
    }
}

/// A duration given in nanoseconds, in hundredths of a millisecond, rounded
/// to the nearest (halves round up).
pub open spec fn centi_millis(nanos: nat) -> nat {
    (nanos + 5000) / 10000
}

/// A duration given in nanoseconds, written in milliseconds with exactly two
/// decimals (`66000000` is `66.00`).
pub open spec fn millis_text(nanos: nat) -> Seq<char> {
    let c = centi_millis(nanos);
    decimal(c / 100) + seq!['.', digit_char((c % 100) / 10), digit_char(c % 10)]
}

/// One entry of the header: `name;desc="description";dur=X.XX`, or
/// `name;dur=X.XX` when there is no description.
pub open spec fn entry_text(name: Seq<char>, description: Option<Seq<char>>, nanos: nat) -> Seq<char> {
    match description {
        Some(d) => name + ";desc=\""@ + d + "\";dur="@ + millis_text(nanos),
        None => name + ";dur="@ + millis_text(nanos),
    }
}

/// The text of an optional string slice.
pub open spec fn str_opt_view(o: Option<&str>) -> Option<Seq<char>> {
    match o {
        Some(s) => Some(s@),
        None => None,
    }
}

fn digit_str(d: u128) -> (r: &'static str)
    requires
        d < 10,
    ensures
        r@ == seq![digit_char(d as nat)],
{
    if d == 0 {
        proof { reveal_strlit("0"); }
        "0"
    } else if d == 1 {
        proof { reveal_strlit("1"); }
        "1"
    } else if d == 2 {
        proof { reveal_strlit("2"); }
        "2"
    } else if d == 3 {
        proof { reveal_strlit("3"); }
        "3"
    } else if d == 4 {
        proof { reveal_strlit("4"); }
        "4"
    } else if d == 5 {
        proof { reveal_strlit("5"); }
        "5"
    } else if d == 6 {
        proof { reveal_strlit("6"); }
        "6"
    } else if d == 7 {
        proof { reveal_strlit("7"); }
        "7"
    } else if d == 8 {
        proof { reveal_strlit("8"); }
        "8"
    } else {
        proof { reveal_strlit("9"); }
        "9"
    }
}

/// Appends the decimal notation of `n` to `out`.
pub fn push_decimal(out: &mut String, n: u128)
    ensures
        final(out)@ == old(out)@ + decimal(n as nat),
    decreases n,
{
    if n < 10 {
        out.append(digit_str(n));
    } else {
        push_decimal(out, n / 10);
        out.append(digit_str(n % 10));
        assert(decimal(n as nat) == decimal((n / 10) as nat).push(digit_char((n % 10) as nat)));
    }
}

/// Appends a duration given in nanoseconds to `out`, in milliseconds with
/// two decimals.
pub fn push_millis(out: &mut String, nanos: u128)
    ensures
        final(out)@ == old(out)@ + millis_text(nanos as nat),
{
    let c: u128 = nanos / 10000 + if nanos % 10000 >= 5000 { 1 } else { 0 };
    assert(c as nat == centi_millis(nanos as nat));
    push_decimal(out, c / 100);
    let ghost mid = out@;
    proof { reveal_strlit("."); }
    out.append(".");
    out.append(digit_str((c % 100) / 10));
    out.append(digit_str(c % 10));
    assert(out@ =~= old(out)@ + millis_text(nanos as nat));
}

/// Appends one header entry to `out`.
pub fn push_entry(out: &mut String, name: &str, description: Option<&str>, nanos: u128)
    ensures
        final(out)@ == old(out)@ + entry_text(name@, str_opt_view(description), nanos as nat),
{
    out.append(name);
    match description {
        Some(d) => {
            out.append(";desc=\"");
            out.append(d);
            out.append("\";dur=");
        },
        None => {
            out.append(";dur=");
        },
    }
    push_millis(out, nanos);
    assert(out@ =~= old(out)@ + entry_text(name@, str_opt_view(description), nanos as nat));
}

} // verus!
