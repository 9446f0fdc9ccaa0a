use bsc_sniper::funds::Platform;
use bsc_sniper::samples::{parse_sample, sample_calldata, sample_platform};

fn chars(s: &str) -> Vec<char> {
    s.chars().collect()
}

fn text(v: Vec<char>) -> String {
    v.into_iter().collect()
}

#[test]
fn sample_files_by_name() {
    assert_eq!(sample_platform(&chars("flap_launch1.txt")), Some(Platform::Flap));
    assert_eq!(sample_platform(&chars("fourmeme_a.b.txt")), Some(Platform::FourMeme));
    assert_eq!(sample_platform(&chars("flap_x.TXT")), None);
    assert_eq!(sample_platform(&chars("flap_x.txt.bak")), None);
    assert_eq!(sample_platform(&chars("other_x.txt")), None);
    assert_eq!(sample_platform(&chars("flap_txt")), None);
    assert_eq!(sample_platform(&chars(".txt")), None);
    assert_eq!(sample_platform(&chars("flap_")), None);
}

#[test]
fn fields_are_read_from_trimmed_lines() {
    let f = parse_sample(&chars("  tx_hash=0xabc  \r\n\tdata_hex=0x1234\nnote=1\n"));
    assert_eq!(text(f.tx_hash), "0xabc");
    assert_eq!(text(f.data_hex), "0x1234");
}

#[test]
fn last_occurrence_wins_and_missing_is_empty() {
    let f = parse_sample(&chars("tx_hash=1\ntx_hash=2\nfoo"));
    assert_eq!(text(f.tx_hash), "2");
    assert_eq!(text(f.data_hex), "");
}

#[test]
fn last_line_without_newline_counts() {
    let f = parse_sample(&chars("x\ndata_hex=ff"));
    assert_eq!(text(f.data_hex), "ff");
    assert_eq!(text(f.tx_hash), "");
}

#[test]
fn unicode_white_space_is_trimmed() {
    let f = parse_sample(&chars("\u{3000}tx_hash=beef\u{a0}"));
    assert_eq!(text(f.tx_hash), "beef");
}

#[test]
fn calldata_is_decoded_after_prefixes() {
    assert_eq!(sample_calldata(&chars("0x0xdeadBEEF")), Some(vec![0xde, 0xad, 0xbe, 0xef]));
    assert_eq!(sample_calldata(&chars("")), Some(vec![]));
    assert_eq!(sample_calldata(&chars("0x")), Some(vec![]));
}

#[test]
fn invalid_calldata_is_refused() {
    assert_eq!(sample_calldata(&chars("0x123")), None);
    assert_eq!(sample_calldata(&chars("zz")), None);
    assert_eq!(sample_calldata(&chars("12 34")), None);
    assert_eq!(sample_calldata(&chars("\u{e9}1")), None);
}
