use bsc_sniper::constants::{
    flap_impl_standard, flap_impl_tax_v1, flap_impl_tax_v2, flap_portal, fourmeme_helper_v3,
    fourmeme_v1, fourmeme_v2, selector_flap_new_token_v2, selector_flap_new_token_v3,
    selector_flap_new_token_v4, selector_flap_new_token_v5, selector_flap_swap_exact_input,
    selector_fourmeme_buy_token_amap, selector_fourmeme_create_token_bytes,
    selector_fourmeme_try_buy, selector_from_digest, token_create_topic, token_created_topic,
    zero_address, BSC_CHAIN_ID, BUY_GAS_LIMIT, FLAP_CREATE2_PREFIX, FLAP_CREATE2_SUFFIX,
};

fn hex(b: &[u8]) -> String {
    b.iter().map(|x| format!("{:02x}", x)).collect()
}

#[test]
fn chain_constants() {
    assert_eq!(BSC_CHAIN_ID, 56);
    assert_eq!(BUY_GAS_LIMIT, 600_000);
    assert_eq!(FLAP_CREATE2_PREFIX, "3d602d80600a3d3981f3363d3d373d3d3d363d73");
    assert_eq!(FLAP_CREATE2_SUFFIX, "5af43d82803e903d91602b57fd5bf3");
}

#[test]
fn contract_addresses() {
    assert_eq!(hex(&flap_portal().bytes), "e2ce6ab80874fa9fa2aae65d277dd6b8e65c9de0");
    assert_eq!(hex(&flap_impl_standard().bytes), "8b4329947e34b6d56d71a3385cac122bade7d78d");
    assert_eq!(hex(&flap_impl_tax_v1().bytes), "29e6383f0ce68507b5a72a53c2b118a118332aa8");
    assert_eq!(hex(&flap_impl_tax_v2().bytes), "ae562c6a05b798499507c6276c6ed796027807ba");
    assert_eq!(hex(&fourmeme_v1().bytes), "ec4549cadce5da21df6e6422d448034b5233bfbc");
    assert_eq!(hex(&fourmeme_v2().bytes), "5c952063c7fc8610ffdb798152d69f0b9550762b");
    assert_eq!(hex(&fourmeme_helper_v3().bytes), "f251f83e40a78868fcfa3fa4599dad6494e46034");
    assert_eq!(zero_address().bytes, [0u8; 20]);
}

#[test]
fn function_selectors() {
    assert_eq!(selector_flap_swap_exact_input(), [0xef, 0x7e, 0xc2, 0xe7]);
    assert_eq!(selector_flap_new_token_v2(), [0x0b, 0xa6, 0x32, 0x4e]);
    assert_eq!(selector_flap_new_token_v3(), [0x7e, 0x15, 0x67, 0x6e]);
    assert_eq!(selector_flap_new_token_v4(), [0x3b, 0xa6, 0xf2, 0x6a]);
    assert_eq!(selector_flap_new_token_v5(), [0x2e, 0x2f, 0xdb, 0xd9]);
    assert_eq!(selector_fourmeme_create_token_bytes(), [0x51, 0x9e, 0xbb, 0x10]);
    assert_eq!(selector_fourmeme_try_buy(), [0xe2, 0x1b, 0x10, 0x3a]);
    assert_eq!(selector_fourmeme_buy_token_amap(), [0x87, 0xf2, 0x76, 0x55]);
}

#[test]
fn event_topics() {
    assert_eq!(
        hex(&token_created_topic()),
        "504e7f360b2e5fe33cbaaae4c593bc55305328341bf79009e43e0e3b7f699603"
    );
    assert_eq!(
        hex(&token_create_topic()),
        "396d5e902b675b032348d3d2e9517ee8f0c4a926603fbc075d3d282ff00cad20"
    );
}

#[test]
fn selector_is_the_digest_head() {
    let mut d = [0u8; 32];
    for (i, b) in d.iter_mut().enumerate() {
        *b = i as u8 + 1;
    }
    assert_eq!(selector_from_digest(&d), [1, 2, 3, 4]);
}
