//! The two light-client endpoints and their addresses.

use vstd::prelude::*;
use vstd::string::*;

verus! {

/// One of the two resources that the light client serves for a block height.
#[derive(Clone, Copy, Debug, PartialEq, Eq, Structural)]
pub enum Endpoint {
    /// The confidence that the block's data is available.
    Confidence,
    /// The application data of the block.
    Appdata,
}

/// The character of a decimal digit; `'0'` for anything that is not one.
pub open spec fn digit_char(digit: nat) -> char {
    if digit == 1 {
        '1'
    } else if digit == 2 {
        '2'
    } else if digit == 3 {
        '3'
    } else if digit == 4 {
        '4'
    } else if digit == 5 {
        '5'
    } else if digit == 6 {
        '6'
    } else if digit == 7 {
        '7'
    } else if digit == 8 {
        '8'
    } else if digit == 9 {
        '9'
    } else {
        '0'
    }
}

/// The decimal numeral of `n`, without sign or leading zeros.
pub open spec fn decimal(n: nat) -> Seq<char>
    decreases n,
{
    if n < 10 {
        seq![digit_char(n)]
    } else {
        decimal(n / 10).push(digit_char(n % 10))
    }
}

/// The path under which an endpoint is served, up to the block height.
pub open spec fn path_prefix(endpoint: Endpoint) -> Seq<char> {
    match endpoint {
        Endpoint::Confidence => "/v1/confidence/"@,
        Endpoint::Appdata => "/v1/appdata/"@,
    }
}

/// The address of an endpoint for a block height: base address, path, and
/// the height as a decimal numeral.
pub open spec fn endpoint_url(base: Seq<char>, endpoint: Endpoint, height: u64) -> Seq<char> {
    base + path_prefix(endpoint) + decimal(height as nat)
}

/// The one-character text of a decimal digit.
fn digit_text(digit: u64) -> (text: &'static str)
    requires
        digit < 10,
    ensures
        text@ == seq![digit_char(digit as nat)],
{
    proof {
        reveal_strlit("0");
        reveal_strlit("1");
        reveal_strlit("2");
        reveal_strlit("3");
        reveal_strlit("4");
        reveal_strlit("5");
        reveal_strlit("6");
        reveal_strlit("7");
        reveal_strlit("8");
        reveal_strlit("9");
    }
    let text = if digit == 0 {
        "0"
    } else if digit == 1 {
        "1"
    } else if digit == 2 {
        "2"
    } else if digit == 3 {
        "3"
    } else if digit == 4 {
        "4"
    } else if digit == 5 {
        "5"
    } else if digit == 6 {
        "6"
    } else if digit == 7 {
        "7"
    } else if digit == 8 {
        "8"
    } else {
        "9"
    };
    assert(text@ =~= seq![digit_char(digit as nat)]);
    text
}

/// Appends the decimal numeral of `n` to `out`.
pub fn push_decimal(out: &mut String, n: u64)
    ensures
        final(out)@ == old(out)@ + decimal(n as nat),
    decreases n,
{
    if n >= 10 {
        push_decimal(out, n / 10);
    }
    out.append(digit_text(n % 10));
    assert(out@ =~= old(out)@ + decimal(n as nat));
}

/// The address of `endpoint` for block `height` at the light client whose
/// base address is `base`.
pub fn build_url(base: &String, endpoint: Endpoint, height: u64) -> (url: String)
    ensures
        url@ == endpoint_url(base@, endpoint, height),
{
    let mut url = base.clone();
    match endpoint {
        Endpoint::Confidence => url.append("/v1/confidence/"),
        Endpoint::Appdata => url.append("/v1/appdata/"),
    }
    push_decimal(&mut url, height);
    url
}

} // verus!
