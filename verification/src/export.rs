//! The configuration export and import dialogs: the file name offered for an
//! export, and the answer when the user cancels a dialog.

use vstd::prelude::*;

verus! {

/// The character of a decimal digit.
pub open spec fn digit_char(d: nat) -> char
    recommends
        d < 10,
{
    (d + 48) as char
}

/// `n` written in decimal, without leading zeros.
pub open spec fn decimal(n: nat) -> Seq<char>
    decreases n,
{
    if n < 10 {
        seq![digit_char(n)]
    } else {
        decimal(n / 10).push(digit_char(n % 10))
    }
}

/// The file name offered when exporting the configuration at the given
/// time in milliseconds since the Unix epoch.
pub open spec fn export_file_name_spec(millis: nat) -> Seq<char> {
    "realtime-fund-config-"@ + decimal(millis) + ".json"@
}

/// What a dialog answers when the user cancels it.
pub open spec fn cancelled_message() -> Seq<char> {
    "cancelled"@
}

fn digit_str(d: u128) -> (r: &'static str)
    requires
        d < 10,
    ensures
        r@ == seq![digit_char(d as nat)],
{
    proof {
        reveal_strlit("0");
        reveal_strlit("1");
        reveal_strlit("2");
        reveal_strlit("3");
        reveal_strlit("4");
        reveal_strlit("5");
        reveal_strlit("6");
        reveal_strlit("7");
        reveal_strlit("8");
        reveal_strlit("9");
    }
    let r = if d == 0 {
        "0"
    } else if d == 1 {
        "1"
    } else if d == 2 {
        "2"
    } else if d == 3 {
        "3"
    } else if d == 4 {
        "4"
    } else if d == 5 {
        "5"
    } else if d == 6 {
        "6"
    } else if d == 7 {
        "7"
    } else if d == 8 {
        "8"
    } else {
        "9"
    };
    assert(r@ =~= seq![digit_char(d as nat)]);
    r
}

/// Appends `n` written in decimal to `s`.
fn push_decimal(s: &mut String, n: u128)
    ensures
        final(s)@ == old(s)@ + decimal(n as nat),
    decreases n,
{
    if n >= 10 {
        push_decimal(s, n / 10);
    }
    s.append(digit_str(n % 10));
    proof {
        if n >= 10 {
            assert(old(s)@ + decimal((n / 10) as nat) + seq![digit_char((n % 10) as nat)] =~= old(
                s,
            )@ + decimal(n as nat));
        } else {
            assert(decimal(n as nat) == seq![digit_char(n as nat)]);
        }
    }
}

/// The file name offered when exporting the configuration at `millis`
/// milliseconds since the Unix epoch: `realtime-fund-config-<millis>.json`.
pub fn export_file_name(millis: u128) -> (name: String)
    ensures
        name@ == export_file_name_spec(millis as nat),
{
    let mut name = String::from_str("realtime-fund-config-");
    push_decimal(&mut name, millis);
    name.append(".json");
    name
}

/// The path a dialog gave, or the cancellation message when the user closed
/// it without choosing.
pub fn picked_or_cancelled<T>(picked: Option<T>) -> (r: Result<T, String>)
    ensures
        picked is Some ==> r == Ok::<T, String>(picked.unwrap()),
        picked is None ==> (r matches Err(e) && e@ == cancelled_message()),
{
    match picked {
        Some(p) => Ok(p),
        None => Err(String::from_str("cancelled")),
    }
}

} // verus!
