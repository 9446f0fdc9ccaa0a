use vstd::prelude::*;
use vstd::utf8::encode_utf8;

use crate::funds::Platform;
use crate::text::{copy_range, has_prefix, starts_with, trim, trim_bounds};

verus! {

/// The value of one hexadecimal digit (either case), or `None` for any other byte.
pub open spec fn hex_digit_value(b: u8) -> Option<u8> {
    if 0x30 <= b && b <= 0x39 {
        Some((b - 0x30) as u8)
    } else if 0x41 <= b && b <= 0x46 {
        Some((b - 0x41 + 10) as u8)
    } else if 0x61 <= b && b <= 0x66 {
        Some((b - 0x61 + 10) as u8)
    } else {
        None
    }
}

/// The bytes that the hexadecimal text `t` encodes, two digits per byte, high digit first;
/// `None` when `t` has an odd length or a byte that is not a hex digit.
pub open spec fn hex_decoding(t: Seq<u8>) -> Option<Seq<u8>> {
    if t.len() % 2 == 0 && forall|i: int| 0 <= i < t.len() ==> #[trigger] hex_digit_value(t[i]) is Some {
        Some(
            Seq::new(
                (t.len() / 2) as nat,
                |i: int|
                    (hex_digit_value(t[2 * i]).unwrap() * 16 + hex_digit_value(
                        t[2 * i + 1],
                    ).unwrap()) as u8,
            ),
        )
    } else {
        None
    }
}

/// Decodes hexadecimal text with `hex::decode`; the text is handed over as UTF-8.
#[verifier::external_body]
fn hex_decode(text: &[char]) -> (r: Option<Vec<u8>>)
    ensures
        match r {
            Some(v) => hex_decoding(encode_utf8(text@)) == Some(v@),
            None => hex_decoding(encode_utf8(text@)) is None,
        },
{
    let s: String = text.iter().collect();
    hex::decode(s).ok()
}

/// `s` with every leading `"0x"` removed (as `str::trim_start_matches("0x")` does).
pub open spec fn strip_hex_prefixes(s: Seq<char>) -> Seq<char>
    decreases s.len(),
{
    if s.len() >= 2 && s[0] == '0' && s[1] == 'x' {
        strip_hex_prefixes(s.skip(2))
    } else {
        s
    }
}

/// The lines of `s`: the pieces between line feeds (a `'\r'` before a line feed stays
/// in its line).
pub open spec fn split_lines(s: Seq<char>) -> Seq<Seq<char>>
    decreases s.len(),
{
    if s.len() == 0 {
        seq![Seq::empty()]
    } else {
        let lines = split_lines(s.drop_last());
        if s.last() == '\n' {
            lines.push(Seq::empty())
        } else {
            lines.update(lines.len() - 1, lines.last().push(s.last()))
        }
    }
}

/// The value after `key` on the last line that, once trimmed, begins with `key`; empty
/// when no line does.
pub open spec fn last_field(lines: Seq<Seq<char>>, key: Seq<char>) -> Seq<char>
    decreases lines.len(),
{
    if lines.len() == 0 {
        Seq::empty()
    } else {
        let line = trim(lines.last());
        if starts_with(line, key) {
            line.skip(key.len() as int)
        } else {
            last_field(lines.drop_last(), key)
        }
    }
}

pub open spec fn tx_hash_key() -> Seq<char> {
    seq!['t', 'x', '_', 'h', 'a', 's', 'h', '=']
}

pub open spec fn data_hex_key() -> Seq<char> {
    seq!['d', 'a', 't', 'a', '_', 'h', 'e', 'x', '=']
}

/// The two fields that a sample transaction file records.
pub struct SampleFields {
    /// The text after `tx_hash=`.
    pub tx_hash: Vec<char>,
    /// The text after `data_hex=`.
    pub data_hex: Vec<char>,
}

/// Whether `name` is `base` followed by `"."` and `ext`, as `Path::extension` splits a file
/// name: at its last dot, where a name that begins with its only dot has no extension.
pub open spec fn has_extension(name: Seq<char>, ext: Seq<char>) -> bool {
    exists|i: int|
        #![trigger name[i]]
        0 < i < name.len() && name[i] == '.' && name.skip(i + 1) == ext && (forall|j: int|
            i < j < name.len() ==> name[j] != '.') && name != seq!['.', '.']
}

pub open spec fn flap_prefix() -> Seq<char> {
    seq!['f', 'l', 'a', 'p', '_']
}

pub open spec fn fourmeme_prefix() -> Seq<char> {
    seq!['f', 'o', 'u', 'r', 'm', 'e', 'm', 'e', '_']
}

/// Which launchpad a sample file describes, by its name: `flap_*.txt` or `fourmeme_*.txt`.
pub open spec fn sample_platform_of(name: Seq<char>) -> Option<Platform> {
    if !has_extension(name, seq!['t', 'x', 't']) {
        None
    } else if starts_with(name, flap_prefix()) {
        Some(Platform::Flap)
    } else if starts_with(name, fourmeme_prefix()) {
        Some(Platform::FourMeme)
    } else {
        None
    }
}

/// Classifies a file of the samples directory by its name.
pub fn sample_platform(name: &[char]) -> (r: Option<Platform>)
    ensures
        r == sample_platform_of(name@),
{
    let n = name.len();
    let mut i = n;
    while i > 0 && name[i - 1] != '.'
        invariant
            i <= n == name@.len(),
            forall|j: int| i <= j < n ==> name@[j] != '.',
        decreases i,
    {
        i = i - 1;
    }
    let txt: [char; 3] = ['t', 'x', 't'];
    assert(txt@ == seq!['t', 'x', 't']);
    let ext_ok: bool = if i <= 1 || (n == 2 && name[0] == '.' && name[1] == '.') {
        false
    } else {
        has_prefix(name, i, n, &txt) && n - i == 3
    };
    proof {
        let ext = seq!['t', 'x', 't'];
        if ext_ok {
            assert(name@.skip(i as int) =~= name@.subrange(i as int, n as int));
            assert(name@[i - 1] == '.');
            assert(name@.skip(i as int) =~= ext) by {
                assert(name@.subrange(i as int, n as int).take(3) =~= name@.subrange(
                    i as int,
                    n as int,
                ));
            }
        } else if has_extension(name@, ext) {
            let k = choose|k: int|
                #![trigger name@[k]]
                0 < k < name@.len() && name@[k] == '.' && name@.skip(k + 1) == ext && (forall|
                    j: int,
                |
                    k < j < name@.len() ==> name@[j] != '.') && name@ != seq!['.', '.'];
            assert(k == i - 1);
            if n == 2 && name@[0] == '.' && name@[1] == '.' {
                assert(name@ =~= seq!['.', '.']);
            }
            assert(name@.subrange(i as int, n as int) =~= ext);
            assert(name@.subrange(i as int, n as int).take(3) =~= ext);
        }
    }
    if !ext_ok {
        return None;
    }
    let flap: [char; 5] = ['f', 'l', 'a', 'p', '_'];
    let fourmeme: [char; 9] = ['f', 'o', 'u', 'r', 'm', 'e', 'm', 'e', '_'];
    assert(flap@ == flap_prefix());
    assert(fourmeme@ == fourmeme_prefix());
    assert(name@.subrange(0, n as int) =~= name@);
    if has_prefix(name, 0, n, &flap) {
        Some(Platform::Flap)
    } else if has_prefix(name, 0, n, &fourmeme) {
        Some(Platform::FourMeme)
    } else {
        None
    }
}

/// Takes the value of a `key` line into `field` when line `content[from..to]` is one.
fn take_field(content: &[char], from: usize, to: usize, key: &[char], field: &mut Vec<char>)
    requires
        from <= to <= content@.len(),
    ensures
        ({
            let line = trim(content@.subrange(from as int, to as int));
            final(field)@ == if starts_with(line, key@) {
                line.skip(key@.len() as int)
            } else {
                old(field)@
            }
        }),
{
    let (a, b) = trim_bounds(content, from, to);
    if has_prefix(content, a, b, key) {
        *field = copy_range(content, a + key.len(), b);
        assert(content@.subrange(a as int, b as int).skip(key@.len() as int) =~= content@.subrange(
            a + key@.len(),
            b as int,
        ));
    }
}

proof fn lemma_split_lines_step(s: Seq<char>, i: int)
    requires
        0 <= i < s.len(),
    ensures
        split_lines(s.take(i + 1)) == ({
            let lines = split_lines(s.take(i));
            if s[i] == '\n' {
                lines.push(Seq::empty())
            } else {
                lines.update(lines.len() - 1, lines.last().push(s[i]))
            }
        }),
{
    assert(s.take(i + 1).drop_last() =~= s.take(i));
}

/// Reads the `tx_hash=` and `data_hex=` fields of a sample transaction file; when a
/// field occurs on several lines the last one counts.
pub fn parse_sample(content: &[char]) -> (r: SampleFields)
    ensures
        r.tx_hash@ == last_field(split_lines(content@), tx_hash_key()),
        r.data_hex@ == last_field(split_lines(content@), data_hex_key()),
{
    let tx_key: [char; 8] = ['t', 'x', '_', 'h', 'a', 's', 'h', '='];
    let data_key: [char; 9] = ['d', 'a', 't', 'a', '_', 'h', 'e', 'x', '='];
    assert(tx_key@ == tx_hash_key());
    assert(data_key@ == data_hex_key());
    let n = content.len();
    let mut tx_hash: Vec<char> = Vec::new();
    let mut data_hex: Vec<char> = Vec::new();
    let mut start: usize = 0;
    let mut i: usize = 0;
    assert(content@.take(0) =~= Seq::<char>::empty());
    while i < n
        invariant
            start <= i <= n == content@.len(),
            tx_key@ == tx_hash_key(),
            data_key@ == data_hex_key(),
            split_lines(content@.take(i as int)).len() >= 1,
            split_lines(content@.take(i as int)).last() == content@.subrange(
                start as int,
                i as int,
            ),
            tx_hash@ == last_field(split_lines(content@.take(i as int)).drop_last(), tx_hash_key()),
            data_hex@ == last_field(
                split_lines(content@.take(i as int)).drop_last(),
                data_hex_key(),
            ),
        decreases n - i,
    {
        let ghost lines = split_lines(content@.take(i as int));
        proof {
            lemma_split_lines_step(content@, i as int);
        }
        if content[i] == '\n' {
            take_field(content, start, i, &tx_key, &mut tx_hash);
            take_field(content, start, i, &data_key, &mut data_hex);
            assert(split_lines(content@.take(i + 1)).drop_last() =~= lines);
            assert(content@.subrange(i + 1, i + 1) =~= Seq::<char>::empty());
            start = i + 1;
        } else {
            assert(split_lines(content@.take(i + 1)).drop_last() =~= lines.drop_last());
            assert(content@.subrange(start as int, i + 1) =~= content@.subrange(
                start as int,
                i as int,
            ).push(content@[i as int]));
        }
        i = i + 1;
    }
    assert(content@.take(n as int) =~= content@);
    take_field(content, start, n, &tx_key, &mut tx_hash);
    take_field(content, start, n, &data_key, &mut data_hex);
    SampleFields { tx_hash, data_hex }
}

/// The calldata that the `data_hex` field of a sample holds: the text with its leading
/// `"0x"` prefixes removed, decoded from hexadecimal; `None` when it is not valid hex.
pub fn sample_calldata(data_hex: &[char]) -> (r: Option<Vec<u8>>)
    ensures
        match r {
            Some(v) => hex_decoding(encode_utf8(strip_hex_prefixes(data_hex@))) == Some(v@),
            None => hex_decoding(encode_utf8(strip_hex_prefixes(data_hex@))) is None,
        },
{
    let n = data_hex.len();
    let mut i: usize = 0;
    assert(data_hex@.skip(0) =~= data_hex@);
    while n - i >= 2 && data_hex[i] == '0' && data_hex[i + 1] == 'x'
        invariant
            i <= n == data_hex@.len(),
            strip_hex_prefixes(data_hex@) == strip_hex_prefixes(data_hex@.skip(i as int)),
        decreases n - i,
    {
        assert(data_hex@.skip(i as int).skip(2) =~= data_hex@.skip(i + 2));
        i = i + 2;
    }
    let rest = copy_range(data_hex, i, n);
    assert(data_hex@.subrange(i as int, n as int) =~= data_hex@.skip(i as int));
    hex_decode(rest.as_slice())
}

} // verus!
