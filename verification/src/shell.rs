//! Builds the page of the browser's own chrome.

use vstd::prelude::*;
use vstd::string::StringExecFns;
use crate::browser_core::{BrowserCore, MEMORY_UNAVAILABLE_MB};
use crate::chrome::{SHELL_HEAD, SHELL_TAIL};

verus! {

/// The character of a decimal digit.
pub open spec fn digit_char(d: nat) -> char {
    ((0x30 + d) as u8) as char
}

/// A number in decimal, without leading zeros.
pub open spec fn decimal_text(n: nat) -> Seq<char>
    decreases n,
{
    if n < 10 {
        seq![digit_char(n)]
    } else {
        decimal_text(n / 10).push(digit_char(n % 10))
    }
}

/// The chrome for a resident size in megabytes.
pub open spec fn shell_markup(total_mb: nat) -> Seq<char> {
    SHELL_HEAD@ + decimal_text(total_mb) + SHELL_TAIL@
}

/// One decimal digit as a text.
pub fn digit_text(d: usize) -> (r: &'static str)
    requires
        d < 10,
    ensures
        r@ == seq![digit_char(d as nat)],
{
    proof {
        reveal_strlit("0");
        reveal_strlit("1");
        reveal_strlit("2");
        reveal_strlit("3");
        reveal_strlit("4");
        reveal_strlit("5");
        reveal_strlit("6");
        reveal_strlit("7");
        reveal_strlit("8");
        reveal_strlit("9");
    }
    let r = if d == 0 {
        "0"
    } else if d == 1 {
        "1"
    } else if d == 2 {
        "2"
    } else if d == 3 {
        "3"
    } else if d == 4 {
        "4"
    } else if d == 5 {
        "5"
    } else if d == 6 {
        "6"
    } else if d == 7 {
        "7"
    } else if d == 8 {
        "8"
    } else {
        "9"
    };
    assert(r@ =~= seq![digit_char(d as nat)]);
    r
}

/// Writes a number in decimal.
pub fn decimal(n: usize) -> (r: String)
    ensures
        r@ == decimal_text(n as nat),
    decreases n,
{
    if n < 10 {
        String::from_str(digit_text(n))
    } else {
        let mut r = decimal(n / 10);
        r.append(digit_text(n % 10));
        assert(r@ =~= decimal_text(n as nat / 10).push(digit_char(n as nat % 10)));
        r
    }
}

/// The chrome for a resident size in megabytes.
pub fn shell_html(total_mb: usize) -> (r: String)
    ensures
        r@ == shell_markup(total_mb as nat),
{
    let mut r = String::from_str(SHELL_HEAD);
    let number = decimal(total_mb);
    r.append(number.as_str());
    r.append(SHELL_TAIL);
    r
}

/// The chrome as the browser shows it now, for a resident size that was
/// probed just now; `None` where the platform could not tell.
pub fn get_shell_html(browser: &BrowserCore, resident_mb: Option<usize>) -> (r: String)
    ensures
        r@ == shell_markup(
            match resident_mb {
                Some(mb) => mb as nat,
                None => MEMORY_UNAVAILABLE_MB as nat,
            },
        ),
{
    let stats = browser.get_memory_stats(resident_mb);
    shell_html(stats.total_mb)
}

} // verus!
