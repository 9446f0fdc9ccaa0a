use vstd::prelude::*;
use vstd::string::StringSliceAdditionalSpecFns;
use vstd::utf8::encode_utf8;

verus! {

/// Chain id of BNB Smart Chain.
pub const BSC_CHAIN_ID: u64 = 56;

/// Gas limit of a buy transaction.
pub const BUY_GAS_LIMIT: u64 = 600_000;

/// Creation code of a Flap token proxy before the implementation address (hex).
pub const FLAP_CREATE2_PREFIX: &'static str = "3d602d80600a3d3981f3363d3d373d3d3d363d73";

/// Creation code of a Flap token proxy after the implementation address (hex).
pub const FLAP_CREATE2_SUFFIX: &'static str = "5af43d82803e903d91602b57fd5bf3";

/// A 20-byte account address.
#[derive(Clone, Copy, Debug, PartialEq, Eq)]
pub struct Address {
    pub bytes: [u8; 20],
}

/// What `ethers::utils::keccak256` returns for `data`: its Keccak-256 digest.
pub uninterp spec fn keccak256_of(data: Seq<u8>) -> Seq<u8>;

/// Hashes `data` with `ethers::utils::keccak256`; the result is the 32-byte digest,
/// named `keccak256_of` here (nothing more is stated of it).
#[verifier::external_body]
fn keccak256(data: &[u8]) -> (r: [u8; 32])
    ensures
        r@ == keccak256_of(data@),
{
    ethers::utils::keccak256(data)
}

/// What `<ethers::types::Address as FromStr>::from_str` makes of `text`: the address
/// bytes, or `None` when it refuses the text.
pub uninterp spec fn address_parse(text: Seq<char>) -> Option<Seq<u8>>;

pub open spec fn is_hex_char(c: char) -> bool {
    ('0' <= c && c <= '9') || ('a' <= c && c <= 'f') || ('A' <= c && c <= 'F')
}

pub open spec fn hex_char_value(c: char) -> int {
    if '0' <= c && c <= '9' {
        c as int - '0' as int
    } else if 'a' <= c && c <= 'f' {
        c as int - 'a' as int + 10
    } else {
        c as int - 'A' as int + 10
    }
}

/// Whether every character of `s` from index `i` on is a hex digit.
pub open spec fn all_hex_from(s: Seq<char>, i: int) -> bool
    decreases s.len() - i,
{
    if i >= s.len() {
        true
    } else {
        is_hex_char(s[i]) && all_hex_from(s, i + 1)
    }
}

/// The digits of an address text: the text without one leading `"0x"`.
pub open spec fn address_digits(s: Seq<char>) -> Seq<char> {
    if s.len() >= 2 && s[0] == '0' && s[1] == 'x' {
        s.skip(2)
    } else {
        s
    }
}

/// An address written plainly: 40 hex digits, optionally after `"0x"`.
pub open spec fn is_plain_address_text(s: Seq<char>) -> bool {
    address_digits(s).len() == 40 && all_hex_from(address_digits(s), 0)
}

/// The 20 bytes that 40 hex digits spell, two digits per byte, high digit first.
pub open spec fn address_from_digits(d: Seq<char>) -> Seq<u8> {
    Seq::new(20, |i: int| (hex_char_value(d[2 * i]) * 16 + hex_char_value(d[2 * i + 1])) as u8)
}

/// Parses an address with `<ethers::types::Address as FromStr>::from_str`. The result
/// is named `address_parse`; of a plainly written address (40 hex digits, optionally
/// after `"0x"`) the source shows that it decodes the digits in order. What it does with
/// other texts (it also skips blanks between digits) is left to the name; the error is
/// handed on as its message.
#[verifier::external_body]
pub(crate) fn parse_address(text: &str) -> (r: Result<Address, String>)
    ensures
        match r {
            Ok(a) => address_parse(text@) == Some(a.bytes@),
            Err(_) => address_parse(text@) is None,
        },
        is_plain_address_text(text@) ==> match r {
            Ok(a) => a.bytes@ == address_from_digits(address_digits(text@)),
            Err(_) => false,
        },
{
    match text.parse::<ethers::types::Address>() {
        Ok(a) => Ok(Address { bytes: a.0 }),
        Err(e) => Err(e.to_string()),
    }
}

/// An address written in the source as a plain address text.
fn address_constant(text: &str) -> (r: Address)
    requires
        is_plain_address_text(text@),
    ensures
        Some(r.bytes@) == address_parse(text@),
        r.bytes@ == address_from_digits(address_digits(text@)),
{
    match parse_address(text) {
        Ok(a) => a,
        Err(_) => {
            proof {
                assert(false);
            }
            Address { bytes: [0u8; 20] }
        },
    }
}

/// The Flap portal contract.
pub fn flap_portal() -> (r: Address)
    ensures
        Some(r.bytes@) == address_parse("0xe2cE6ab80874Fa9Fa2aAE65D277Dd6B8e65C9De0"@),
        r.bytes@ == seq![
            0xe2u8, 0xce, 0x6a, 0xb8, 0x08, 0x74, 0xfa, 0x9f, 0xa2, 0xaa,
            0xe6, 0x5d, 0x27, 0x7d, 0xd6, 0xb8, 0xe6, 0x5c, 0x9d, 0xe0,
        ],
{
    proof {
        reveal_strlit("0xe2cE6ab80874Fa9Fa2aAE65D277Dd6B8e65C9De0");
        reveal_with_fuel(all_hex_from, 41);
    }
    let r = address_constant("0xe2cE6ab80874Fa9Fa2aAE65D277Dd6B8e65C9De0");
    assert(r.bytes@ =~= seq![
        0xe2u8, 0xce, 0x6a, 0xb8, 0x08, 0x74, 0xfa, 0x9f, 0xa2, 0xaa,
        0xe6, 0x5d, 0x27, 0x7d, 0xd6, 0xb8, 0xe6, 0x5c, 0x9d, 0xe0,
    ]);
    r
}

/// The standard Flap token implementation.
pub fn flap_impl_standard() -> (r: Address)
    ensures
        Some(r.bytes@) == address_parse("0x8b4329947e34b6d56d71a3385cac122bade7d78d"@),
        r.bytes@ == seq![
            0x8bu8, 0x43, 0x29, 0x94, 0x7e, 0x34, 0xb6, 0xd5, 0x6d, 0x71,
            0xa3, 0x38, 0x5c, 0xac, 0x12, 0x2b, 0xad, 0xe7, 0xd7, 0x8d,
        ],
{
    proof {
        reveal_strlit("0x8b4329947e34b6d56d71a3385cac122bade7d78d");
        reveal_with_fuel(all_hex_from, 41);
    }
    let r = address_constant("0x8b4329947e34b6d56d71a3385cac122bade7d78d");
    assert(r.bytes@ =~= seq![
        0x8bu8, 0x43, 0x29, 0x94, 0x7e, 0x34, 0xb6, 0xd5, 0x6d, 0x71,
        0xa3, 0x38, 0x5c, 0xac, 0x12, 0x2b, 0xad, 0xe7, 0xd7, 0x8d,
    ]);
    r
}

/// The first Flap tax token implementation.
pub fn flap_impl_tax_v1() -> (r: Address)
    ensures
        Some(r.bytes@) == address_parse("0x29e6383F0ce68507b5A72a53c2B118a118332aA8"@),
        r.bytes@ == seq![
            0x29u8, 0xe6, 0x38, 0x3f, 0x0c, 0xe6, 0x85, 0x07, 0xb5, 0xa7,
            0x2a, 0x53, 0xc2, 0xb1, 0x18, 0xa1, 0x18, 0x33, 0x2a, 0xa8,
        ],
{
    proof {
        reveal_strlit("0x29e6383F0ce68507b5A72a53c2B118a118332aA8");
        reveal_with_fuel(all_hex_from, 41);
    }
    let r = address_constant("0x29e6383F0ce68507b5A72a53c2B118a118332aA8");
    assert(r.bytes@ =~= seq![
        0x29u8, 0xe6, 0x38, 0x3f, 0x0c, 0xe6, 0x85, 0x07, 0xb5, 0xa7,
        0x2a, 0x53, 0xc2, 0xb1, 0x18, 0xa1, 0x18, 0x33, 0x2a, 0xa8,
    ]);
    r
}

/// The second Flap tax token implementation.
pub fn flap_impl_tax_v2() -> (r: Address)
    ensures
        Some(r.bytes@) == address_parse("0xae562c6A05b798499507c6276C6Ed796027807BA"@),
        r.bytes@ == seq![
            0xaeu8, 0x56, 0x2c, 0x6a, 0x05, 0xb7, 0x98, 0x49, 0x95, 0x07,
            0xc6, 0x27, 0x6c, 0x6e, 0xd7, 0x96, 0x02, 0x78, 0x07, 0xba,
        ],
{
    proof {
        reveal_strlit("0xae562c6A05b798499507c6276C6Ed796027807BA");
        reveal_with_fuel(all_hex_from, 41);
    }
    let r = address_constant("0xae562c6A05b798499507c6276C6Ed796027807BA");
    assert(r.bytes@ =~= seq![
        0xaeu8, 0x56, 0x2c, 0x6a, 0x05, 0xb7, 0x98, 0x49, 0x95, 0x07,
        0xc6, 0x27, 0x6c, 0x6e, 0xd7, 0x96, 0x02, 0x78, 0x07, 0xba,
    ]);
    r
}

/// The first FourMeme token manager.
pub fn fourmeme_v1() -> (r: Address)
    ensures
        Some(r.bytes@) == address_parse("0xec4549cadce5da21df6e6422d448034b5233bfbc"@),
        r.bytes@ == seq![
            0xecu8, 0x45, 0x49, 0xca, 0xdc, 0xe5, 0xda, 0x21, 0xdf, 0x6e,
            0x64, 0x22, 0xd4, 0x48, 0x03, 0x4b, 0x52, 0x33, 0xbf, 0xbc,
        ],
{
    proof {
        reveal_strlit("0xec4549cadce5da21df6e6422d448034b5233bfbc");
        reveal_with_fuel(all_hex_from, 41);
    }
    let r = address_constant("0xec4549cadce5da21df6e6422d448034b5233bfbc");
    assert(r.bytes@ =~= seq![
        0xecu8, 0x45, 0x49, 0xca, 0xdc, 0xe5, 0xda, 0x21, 0xdf, 0x6e,
        0x64, 0x22, 0xd4, 0x48, 0x03, 0x4b, 0x52, 0x33, 0xbf, 0xbc,
    ]);
    r
}

/// The second FourMeme token manager.
pub fn fourmeme_v2() -> (r: Address)
    ensures
        Some(r.bytes@) == address_parse("0x5c952063c7fc8610ffdb798152d69f0b9550762b"@),
        r.bytes@ == seq![
            0x5cu8, 0x95, 0x20, 0x63, 0xc7, 0xfc, 0x86, 0x10, 0xff, 0xdb,
            0x79, 0x81, 0x52, 0xd6, 0x9f, 0x0b, 0x95, 0x50, 0x76, 0x2b,
        ],
{
    proof {
        reveal_strlit("0x5c952063c7fc8610ffdb798152d69f0b9550762b");
        reveal_with_fuel(all_hex_from, 41);
    }
    let r = address_constant("0x5c952063c7fc8610ffdb798152d69f0b9550762b");
    assert(r.bytes@ =~= seq![
        0x5cu8, 0x95, 0x20, 0x63, 0xc7, 0xfc, 0x86, 0x10, 0xff, 0xdb,
        0x79, 0x81, 0x52, 0xd6, 0x9f, 0x0b, 0x95, 0x50, 0x76, 0x2b,
    ]);
    r
}

/// The FourMeme helper contract (version 3).
pub fn fourmeme_helper_v3() -> (r: Address)
    ensures
        Some(r.bytes@) == address_parse("0xf251f83e40a78868fcfa3fa4599dad6494e46034"@),
        r.bytes@ == seq![
            0xf2u8, 0x51, 0xf8, 0x3e, 0x40, 0xa7, 0x88, 0x68, 0xfc, 0xfa,
            0x3f, 0xa4, 0x59, 0x9d, 0xad, 0x64, 0x94, 0xe4, 0x60, 0x34,
        ],
{
    proof {
        reveal_strlit("0xf251f83e40a78868fcfa3fa4599dad6494e46034");
        reveal_with_fuel(all_hex_from, 41);
    }
    let r = address_constant("0xf251f83e40a78868fcfa3fa4599dad6494e46034");
    assert(r.bytes@ =~= seq![
        0xf2u8, 0x51, 0xf8, 0x3e, 0x40, 0xa7, 0x88, 0x68, 0xfc, 0xfa,
        0x3f, 0xa4, 0x59, 0x9d, 0xad, 0x64, 0x94, 0xe4, 0x60, 0x34,
    ]);
    r
}

/// An all-zero address.
pub fn zero_address() -> (r: Address)
    ensures
        r.bytes@ == Seq::new(20, |i: int| 0u8),
{
    let r = Address { bytes: [0u8; 20] };
    assert(r.bytes@ =~= Seq::new(20, |i: int| 0u8));
    r
}

/// The function selector of a signature: the first four bytes of its Keccak-256 digest.
pub open spec fn selector_of(signature: Seq<char>) -> Seq<u8> {
    keccak256_of(encode_utf8(signature)).take(4)
}

/// The first four bytes of a digest.
pub fn selector_from_digest(digest: &[u8; 32]) -> (r: [u8; 4])
    ensures
        r@ == digest@.take(4),
{
    let r = [digest[0], digest[1], digest[2], digest[3]];
    assert(r@ =~= digest@.take(4));
    r
}

fn selector(signature: &str) -> (r: [u8; 4])
    ensures
        r@ == selector_of(signature@),
{
    let h = keccak256(signature.as_bytes());
    selector_from_digest(&h)
}

/// Selector of the Flap portal's `swapExactInput`.
pub fn selector_flap_swap_exact_input() -> (r: [u8; 4])
    ensures
        r@ == selector_of("swapExactInput((address,address,uint256,uint256,bytes))"@),
{
    selector("swapExactInput((address,address,uint256,uint256,bytes))")
}

/// Selector of the Flap portal's `newTokenV2`.
pub fn selector_flap_new_token_v2() -> (r: [u8; 4])
    ensures
        r@ == selector_of("newTokenV2((string,string,string,uint8,bytes32,uint16,uint8,address,uint256,address,bytes))"@),
{
    selector("newTokenV2((string,string,string,uint8,bytes32,uint16,uint8,address,uint256,address,bytes))")
}

/// Selector of the Flap portal's `newTokenV3`.
pub fn selector_flap_new_token_v3() -> (r: [u8; 4])
    ensures
        r@ == selector_of("newTokenV3((string,string,string,uint8,bytes32,uint16,uint8,address,uint256,address,bytes,bytes32,bytes))"@),
{
    selector("newTokenV3((string,string,string,uint8,bytes32,uint16,uint8,address,uint256,address,bytes,bytes32,bytes))")
}

/// Selector of the Flap portal's `newTokenV4`.
pub fn selector_flap_new_token_v4() -> (r: [u8; 4])
    ensures
        r@ == selector_of("newTokenV4((string,string,string,uint8,bytes32,uint16,uint8,address,uint256,address,bytes,bytes32,bytes,uint8,uint8))"@),
{
    selector("newTokenV4((string,string,string,uint8,bytes32,uint16,uint8,address,uint256,address,bytes,bytes32,bytes,uint8,uint8))")
}

/// Selector of the Flap portal's `newTokenV5`.
pub fn selector_flap_new_token_v5() -> (r: [u8; 4])
    ensures
        r@ == selector_of("newTokenV5((string,string,string,uint8,bytes32,uint16,uint8,address,uint256,address,bytes,bytes32,bytes,uint8,uint8,uint64,uint64,uint16,uint16,uint16,uint16,uint256))"@),
{
    selector("newTokenV5((string,string,string,uint8,bytes32,uint16,uint8,address,uint256,address,bytes,bytes32,bytes,uint8,uint8,uint64,uint64,uint16,uint16,uint16,uint16,uint256))")
}

/// Selector of FourMeme's `createToken`.
pub fn selector_fourmeme_create_token_bytes() -> (r: [u8; 4])
    ensures
        r@ == selector_of("createToken(bytes,bytes)"@),
{
    selector("createToken(bytes,bytes)")
}

/// Selector of FourMeme's `tryBuy`.
pub fn selector_fourmeme_try_buy() -> (r: [u8; 4])
    ensures
        r@ == selector_of("tryBuy(address,uint256,uint256)"@),
{
    selector("tryBuy(address,uint256,uint256)")
}

/// Selector of FourMeme's `buyTokenAMAP`.
pub fn selector_fourmeme_buy_token_amap() -> (r: [u8; 4])
    ensures
        r@ == selector_of("buyTokenAMAP(address,uint256,uint256)"@),
{
    selector("buyTokenAMAP(address,uint256,uint256)")
}

/// Topic of the `TokenCreated` event: the Keccak-256 digest of its signature.
pub fn token_created_topic() -> (r: [u8; 32])
    ensures
        r@ == keccak256_of(encode_utf8("TokenCreated(uint256,address,uint256,address,string,string,string)"@)),
{
    keccak256("TokenCreated(uint256,address,uint256,address,string,string,string)".as_bytes())
}

/// Topic of the `TokenCreate` event: the Keccak-256 digest of its signature.
pub fn token_create_topic() -> (r: [u8; 32])
    ensures
        r@ == keccak256_of(encode_utf8("TokenCreate(address,address,uint256,string,string,uint256,uint256,uint256)"@)),
{
    keccak256("TokenCreate(address,address,uint256,string,string,uint256,uint256,uint256)".as_bytes())
}

} // verus!
