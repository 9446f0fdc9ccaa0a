use vstd::prelude::*;
use vstd::string::{StrSliceExecFns, StringExecFns};

use crate::constants::{
    address_digits, address_from_digits, address_parse, is_plain_address_text, parse_address,
    Address,
};
use crate::funds::Platform;
use crate::text::{has_chars, trim, trim_str};

verus! {

/// The address text made of a `--token` argument: trimmed, with `"0x"` put in front when
/// it does not begin with it.
pub open spec fn token_address_text(input: Seq<char>) -> Seq<char> {
    let t = trim(input);
    if t.len() >= 2 && t[0] == '0' && t[1] == 'x' {
        t
    } else {
        seq!['0', 'x'] + t
    }
}

/// Reads the token address of a `--token` argument; the error is the parser's message.
pub fn parse_token_address(input: &str) -> (r: Result<Address, String>)
    ensures
        match r {
            Ok(a) => address_parse(token_address_text(input@)) == Some(a.bytes@),
            Err(_) => address_parse(token_address_text(input@)) is None,
        },
        is_plain_address_text(token_address_text(input@)) ==> match r {
            Ok(a) => a.bytes@ == address_from_digits(address_digits(token_address_text(input@))),
            Err(_) => false,
        },
{
    let t = trim_str(input);
    let n = t.unicode_len();
    let text: String = if n >= 2 && t.get_char(0) == '0' && t.get_char(1) == 'x' {
        t.to_owned()
    } else {
        proof {
            reveal_strlit("0x");
            assert("0x"@ =~= seq!['0', 'x']);
        }
        let prefix = String::from_str("0x");
        prefix.concat(t)
    };
    assert(text@ =~= token_address_text(input@));
    parse_address(text.as_str())
}

/// The platform a `--platform` argument names: `flap` or `fourmeme`.
pub open spec fn platform_named(s: Seq<char>) -> Option<Platform> {
    if s == seq!['f', 'l', 'a', 'p'] {
        Some(Platform::Flap)
    } else if s == seq!['f', 'o', 'u', 'r', 'm', 'e', 'm', 'e'] {
        Some(Platform::FourMeme)
    } else {
        None
    }
}

/// Reads a `--platform` argument.
pub fn parse_platform(s: &str) -> (r: Option<Platform>)
    ensures
        r == platform_named(s@),
{
    let flap: [char; 4] = ['f', 'l', 'a', 'p'];
    let fourmeme: [char; 8] = ['f', 'o', 'u', 'r', 'm', 'e', 'm', 'e'];
    assert(flap@ == seq!['f', 'l', 'a', 'p']);
    assert(fourmeme@ == seq!['f', 'o', 'u', 'r', 'm', 'e', 'm', 'e']);
    if has_chars(s, &flap) {
        Some(Platform::Flap)
    } else if has_chars(s, &fourmeme) {
        Some(Platform::FourMeme)
    } else {
        None
    }
}

} // verus!
