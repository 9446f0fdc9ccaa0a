use vstd::prelude::*;
use vstd::string::StrSliceExecFns;

verus! {

/// The environment variables that the settings are read from, as read (`None` when a
/// variable is unset or not valid Unicode).
#[derive(Clone, Debug)]
pub struct EnvValues {
    pub rpc_url: Option<String>,
    pub rpc_url_https: Option<String>,
    pub wss_url: Option<String>,
    pub relay_cmd: Option<String>,
    pub private_key: Option<String>,
    pub gas_limit: Option<String>,
    pub snipe_flap: Option<String>,
    pub snipe_fourmeme: Option<String>,
    pub blockrazor_forwarder: Option<String>,
    pub relay_endpoint: Option<String>,
    pub api_key: Option<String>,
    pub sendtx_cmd: Option<String>,
}

/// The sniper's settings that are not amounts of BNB or gas prices.
#[derive(Clone, Debug)]
pub struct Settings {
    pub rpc_url: String,
    pub wss_url: Option<String>,
    pub relay_cmd: Option<String>,
    pub private_key: String,
    pub gas_limit: u64,
    pub snipe_flap: bool,
    pub snipe_fourmeme: bool,
    pub blockrazor_forwarder: Option<String>,
    pub relay_endpoint: Option<String>,
    pub api_key: Option<String>,
    pub sendtx_cmd: Option<String>,
}

/// Why the settings could not be read.
#[derive(Clone, Copy, Debug, PartialEq, Eq, Structural)]
pub enum ConfigError {
    /// `PRIVATE_KEY` is not set.
    MissingPrivateKey,
}

/// The RPC endpoint used when neither `RPC_URL` nor `RPC_URL_HTTPS` is set.
pub const DEFAULT_RPC_URL: &'static str = "https://bsc-dataseed.binance.org";

/// The gas limit used when `GAS_LIMIT` is unset or not a number.
pub const DEFAULT_GAS_LIMIT: u64 = 350_000;

pub open spec fn view_opt(o: Option<String>) -> Option<Seq<char>> {
    match o {
        Some(s) => Some(s@),
        None => None,
    }
}

/// An optional value where an empty value counts as unset.
pub open spec fn non_empty(o: Option<Seq<char>>) -> Option<Seq<char>> {
    match o {
        Some(s) => if s.len() > 0 {
            Some(s)
        } else {
            None
        },
        None => None,
    }
}

pub open spec fn is_ascii_digit(c: char) -> bool {
    '0' <= c && c <= '9'
}

/// The number that a string of decimal digits spells.
pub open spec fn decimal_value(d: Seq<char>) -> int
    decreases d.len(),
{
    if d.len() == 0 {
        0
    } else {
        decimal_value(d.drop_last()) * 10 + (d.last() as int - '0' as int)
    }
}

/// The digits of a number text: the text without one leading `+`.
pub open spec fn unsigned_digits(s: Seq<char>) -> Seq<char> {
    if s.len() > 0 && s[0] == '+' {
        s.skip(1)
    } else {
        s
    }
}

pub open spec fn all_ascii_digits(d: Seq<char>) -> bool {
    forall|i: int| 0 <= i < d.len() ==> is_ascii_digit(#[trigger] d[i])
}

/// What `str::parse::<u64>` accepts: an optional `+` and then one or more decimal
/// digits whose value fits in a `u64`.
pub open spec fn parse_u64_spec(s: Seq<char>) -> Option<u64> {
    let d = unsigned_digits(s);
    if d.len() > 0 && all_ascii_digits(d) && decimal_value(d) <= u64::MAX {
        Some(decimal_value(d) as u64)
    } else {
        None
    }
}

/// Whether `c` lowercases to the ASCII letter `lower`.
pub open spec fn is_letter_either_case(c: char, lower: char) -> bool {
    c == lower || c as int == lower as int - 32
}

/// Whether `s`, lowercased, reads `"true"`.
pub open spec fn is_true_word(s: Seq<char>) -> bool {
    s.len() == 4 && is_letter_either_case(s[0], 't') && is_letter_either_case(s[1], 'r')
        && is_letter_either_case(s[2], 'u') && is_letter_either_case(s[3], 'e')
}

/// A switch that is on unless it is set to something other than `true` (in any case).
pub open spec fn switch_on(o: Option<Seq<char>>) -> bool {
    match o {
        Some(s) => is_true_word(s),
        None => true,
    }
}

/// Parses a decimal `u64` as `str::parse::<u64>` does.
pub fn parse_u64(s: &str) -> (r: Option<u64>)
    ensures
        r == parse_u64_spec(s@),
{
    let n = s.unicode_len();
    let mut i: usize = 0;
    if n > 0 && s.get_char(0) == '+' {
        i = 1;
    }
    let ghost d = s@.skip(i as int);
    assert(s@.skip(0) =~= s@);
    assert(d == unsigned_digits(s@));
    if i >= n {
        return None;
    }
    let mut v: u64 = 0;
    let mut j: usize = i;
    while j < n
        invariant
            i <= j <= n == s@.len(),
            d == s@.skip(i as int),
            d == unsigned_digits(s@),
            d.len() == n - i,
            forall|k: int| 0 <= k < j - i ==> is_ascii_digit(#[trigger] d[k]),
            v == decimal_value(d.take(j - i)),
        decreases n - j,
    {
        let c = s.get_char(j);
        assert(d[j - i] == c);
        if !('0' <= c && c <= '9') {
            assert(!is_ascii_digit(d[j - i]));
            return None;
        }
        let digit = (c as u32 - '0' as u32) as u64;
        assert(d.take(j - i + 1).drop_last() =~= d.take(j - i));
        if v > (u64::MAX - digit) / 10 {
            proof {
                if all_ascii_digits(d) {
                    lemma_decimal_value_grows(d, j - i + 1);
                }
            }
            return None;
        }
        v = v * 10 + digit;
        j = j + 1;
    }
    assert(d.take(n - i) =~= d);
    Some(v)
}

/// A longer prefix of digits never spells a smaller number.
proof fn lemma_decimal_value_grows(d: Seq<char>, k: int)
    requires
        0 <= k <= d.len(),
        all_ascii_digits(d),
    ensures
        decimal_value(d.take(k)) <= decimal_value(d),
    decreases d.len() - k,
{
    if k < d.len() {
        lemma_decimal_value_grows(d, k + 1);
        assert(d.take(k + 1).drop_last() =~= d.take(k));
        lemma_decimal_value_nonneg(d.take(k));
    } else {
        assert(d.take(k) =~= d);
    }
}

proof fn lemma_decimal_value_nonneg(d: Seq<char>)
    requires
        forall|i: int| 0 <= i < d.len() ==> is_ascii_digit(#[trigger] d[i]),
    ensures
        decimal_value(d) >= 0,
    decreases d.len(),
{
    if d.len() > 0 {
        lemma_decimal_value_nonneg(d.drop_last());
    }
}

fn is_true_word_str(s: &str) -> (r: bool)
    ensures
        r == is_true_word(s@),
{
    if s.unicode_len() != 4 {
        return false;
    }
    let c0 = s.get_char(0);
    let c1 = s.get_char(1);
    let c2 = s.get_char(2);
    let c3 = s.get_char(3);
    (c0 == 't' || c0 == 'T') && (c1 == 'r' || c1 == 'R') && (c2 == 'u' || c2 == 'U') && (c3 == 'e'
        || c3 == 'E')
}

fn switch_setting(o: &Option<String>) -> (r: bool)
    ensures
        r == switch_on(view_opt(*o)),
{
    match o {
        Some(s) => is_true_word_str(s.as_str()),
        None => true,
    }
}

fn non_empty_setting(o: Option<String>) -> (r: Option<String>)
    ensures
        view_opt(r) == non_empty(view_opt(o)),
{
    match o {
        Some(s) => if s.as_str().is_empty() {
            None
        } else {
            Some(s)
        },
        None => None,
    }
}

/// Builds the settings from the environment: `RPC_URL`, else `RPC_URL_HTTPS`, else the
/// public endpoint; `PRIVATE_KEY` is required; a switch is on unless set to something
/// other than `true`; empty command and endpoint values count as unset.
pub fn settings_from_env(env: EnvValues) -> (r: Result<Settings, ConfigError>)
    ensures
        match r {
            Ok(s) => {
                &&& view_opt(env.private_key) == Some(s.private_key@)
                &&& s.rpc_url@ == match (env.rpc_url, env.rpc_url_https) {
                    (Some(u), _) => u@,
                    (None, Some(u)) => u@,
                    (None, None) => DEFAULT_RPC_URL@,
                }
                &&& view_opt(s.wss_url) == view_opt(env.wss_url)
                &&& view_opt(s.relay_cmd) == non_empty(view_opt(env.relay_cmd))
                &&& s.gas_limit == match env.gas_limit {
                    Some(g) => match parse_u64_spec(g@) {
                        Some(v) => v,
                        None => DEFAULT_GAS_LIMIT,
                    },
                    None => DEFAULT_GAS_LIMIT,
                }
                &&& s.snipe_flap == switch_on(view_opt(env.snipe_flap))
                &&& s.snipe_fourmeme == switch_on(view_opt(env.snipe_fourmeme))
                &&& view_opt(s.blockrazor_forwarder) == non_empty(view_opt(env.blockrazor_forwarder))
                &&& view_opt(s.relay_endpoint) == non_empty(view_opt(env.relay_endpoint))
                &&& view_opt(s.api_key) == non_empty(view_opt(env.api_key))
                &&& view_opt(s.sendtx_cmd) == non_empty(view_opt(env.sendtx_cmd))
            },
            Err(e) => e == ConfigError::MissingPrivateKey && env.private_key is None,
        },
{
    let EnvValues {
        rpc_url,
        rpc_url_https,
        wss_url,
        relay_cmd,
        private_key,
        gas_limit,
        snipe_flap,
        snipe_fourmeme,
        blockrazor_forwarder,
        relay_endpoint,
        api_key,
        sendtx_cmd,
    } = env;
    let rpc_url: String = match rpc_url {
        Some(u) => u,
        None => match rpc_url_https {
            Some(u) => u,
            None => DEFAULT_RPC_URL.to_owned(),
        },
    };
    let relay_cmd = non_empty_setting(relay_cmd);
    let private_key: String = match private_key {
        Some(k) => k,
        None => {
            return Err(ConfigError::MissingPrivateKey);
        },
    };
    let gas_limit: u64 = match gas_limit {
        Some(g) => match parse_u64(g.as_str()) {
            Some(v) => v,
            None => DEFAULT_GAS_LIMIT,
        },
        None => DEFAULT_GAS_LIMIT,
    };
    let snipe_flap = switch_setting(&snipe_flap);
    let snipe_fourmeme = switch_setting(&snipe_fourmeme);
    Ok(
        Settings {
            rpc_url,
            wss_url,
            relay_cmd,
            private_key,
            gas_limit,
            snipe_flap,
            snipe_fourmeme,
            blockrazor_forwarder: non_empty_setting(blockrazor_forwarder),
            relay_endpoint: non_empty_setting(relay_endpoint),
            api_key: non_empty_setting(api_key),
            sendtx_cmd: non_empty_setting(sendtx_cmd),
        },
    )
}

/// Whether the settings name both a key to sign with and an RPC endpoint.
pub fn has_credentials(s: &Settings) -> (r: bool)
    ensures
        r == (s.private_key@.len() > 0 && s.rpc_url@.len() > 0),
{
    !s.private_key.as_str().is_empty() && !s.rpc_url.as_str().is_empty()
}

/// The variables handed on to the relay command: each of `RELAY_ENDPOINT`, `API_KEY`,
/// `BLOCKRAZOR_FAST_MODE_URL` and `BLOCKRAZOR_FAST_AUTH` that is set and not empty, in
/// that order, with its value.
pub fn relay_env_pairs(
    relay_endpoint: Option<String>,
    api_key: Option<String>,
    fast_mode_url: Option<String>,
    fast_auth: Option<String>,
) -> (r: Vec<(String, String)>)
    ensures
        r@.map_values(|p: (String, String)| (p.0@, p.1@)) == relay_env_entries(
            view_opt(relay_endpoint),
            view_opt(api_key),
            view_opt(fast_mode_url),
            view_opt(fast_auth),
        ),
{
    let mut r: Vec<(String, String)> = Vec::new();
    push_if_set(&mut r, "RELAY_ENDPOINT", relay_endpoint);
    push_if_set(&mut r, "API_KEY", api_key);
    push_if_set(&mut r, "BLOCKRAZOR_FAST_MODE_URL", fast_mode_url);
    push_if_set(&mut r, "BLOCKRAZOR_FAST_AUTH", fast_auth);
    r
}

/// `entries` with `(key, value)` appended when `value` is set and not empty.
pub open spec fn with_entry(
    entries: Seq<(Seq<char>, Seq<char>)>,
    key: Seq<char>,
    value: Option<Seq<char>>,
) -> Seq<(Seq<char>, Seq<char>)> {
    match non_empty(value) {
        Some(v) => entries.push((key, v)),
        None => entries,
    }
}

pub open spec fn relay_env_entries(
    relay_endpoint: Option<Seq<char>>,
    api_key: Option<Seq<char>>,
    fast_mode_url: Option<Seq<char>>,
    fast_auth: Option<Seq<char>>,
) -> Seq<(Seq<char>, Seq<char>)> {
    with_entry(
        with_entry(
            with_entry(
                with_entry(Seq::empty(), "RELAY_ENDPOINT"@, relay_endpoint),
                "API_KEY"@,
                api_key,
            ),
            "BLOCKRAZOR_FAST_MODE_URL"@,
            fast_mode_url,
        ),
        "BLOCKRAZOR_FAST_AUTH"@,
        fast_auth,
    )
}

/// The relay's environment holds each of the four variables exactly when it is set and not
/// empty, with its value, and nothing else.
pub proof fn law_relay_env_holds_set_values(
    relay_endpoint: Option<Seq<char>>,
    api_key: Option<Seq<char>>,
    fast_mode_url: Option<Seq<char>>,
    fast_auth: Option<Seq<char>>,
    v: Seq<char>,
)
    ensures
        ({
            let e = relay_env_entries(relay_endpoint, api_key, fast_mode_url, fast_auth);
            &&& e.contains(("RELAY_ENDPOINT"@, v)) <==> (relay_endpoint == Some(v) && v.len() > 0)
            &&& e.contains(("API_KEY"@, v)) <==> (api_key == Some(v) && v.len() > 0)
            &&& e.contains(("BLOCKRAZOR_FAST_MODE_URL"@, v)) <==> (fast_mode_url == Some(v)
                && v.len() > 0)
            &&& e.contains(("BLOCKRAZOR_FAST_AUTH"@, v)) <==> (fast_auth == Some(v) && v.len()
                > 0)
            &&& e.len() <= 4
        }),
{
    reveal_strlit("RELAY_ENDPOINT");
    reveal_strlit("API_KEY");
    reveal_strlit("BLOCKRAZOR_FAST_MODE_URL");
    reveal_strlit("BLOCKRAZOR_FAST_AUTH");
    let k1 = "RELAY_ENDPOINT"@;
    let k2 = "API_KEY"@;
    let k3 = "BLOCKRAZOR_FAST_MODE_URL"@;
    let k4 = "BLOCKRAZOR_FAST_AUTH"@;
    assert(k1.len() == 14 && k2.len() == 7 && k3.len() == 24 && k4.len() == 20);
    let e0: Seq<(Seq<char>, Seq<char>)> = Seq::empty();
    let e1 = with_entry(e0, k1, relay_endpoint);
    let e2 = with_entry(e1, k2, api_key);
    let e3 = with_entry(e2, k3, fast_mode_url);
    let e4 = with_entry(e3, k4, fast_auth);
    lemma_with_entry_contains(e0, k1, relay_endpoint);
    lemma_with_entry_contains(e1, k2, api_key);
    lemma_with_entry_contains(e2, k3, fast_mode_url);
    lemma_with_entry_contains(e3, k4, fast_auth);
    assert(!e0.contains((k1, v)) && !e0.contains((k2, v)) && !e0.contains((k3, v))
        && !e0.contains((k4, v)));
}

proof fn lemma_with_entry_contains(
    entries: Seq<(Seq<char>, Seq<char>)>,
    key: Seq<char>,
    value: Option<Seq<char>>,
)
    ensures
        forall|p: (Seq<char>, Seq<char>)|
            #[trigger] with_entry(entries, key, value).contains(p) <==> (entries.contains(p) || (
            non_empty(value) == Some(p.1) && p.0 == key)),
        with_entry(entries, key, value).len() <= entries.len() + 1,
{
    assert forall|p: (Seq<char>, Seq<char>)|
        #[trigger] with_entry(entries, key, value).contains(p) <==> (entries.contains(p) || (
        non_empty(value) == Some(p.1) && p.0 == key)) by {
        match non_empty(value) {
            Some(v) => {
                let e = entries.push((key, v));
                if e.contains(p) {
                    let i = choose|i: int| 0 <= i < e.len() && e[i] == p;
                    if i < entries.len() {
                        assert(entries[i] == p);
                    }
                }
                if entries.contains(p) {
                    let i = choose|i: int| 0 <= i < entries.len() && entries[i] == p;
                    assert(e[i] == p);
                }
                if p == (key, v) {
                    assert(e[entries.len() as int] == p);
                }
            },
            None => {},
        }
    }
}

fn push_if_set(r: &mut Vec<(String, String)>, key: &str, value: Option<String>)
    ensures
        final(r)@.map_values(|p: (String, String)| (p.0@, p.1@)) == with_entry(
            old(r)@.map_values(|p: (String, String)| (p.0@, p.1@)),
            key@,
            view_opt(value),
        ),
{
    match value {
        Some(v) => {
            if !v.as_str().is_empty() {
                r.push((key.to_owned(), v));
                assert(r@.map_values(|p: (String, String)| (p.0@, p.1@)) =~= old(
                    r,
                )@.map_values(|p: (String, String)| (p.0@, p.1@)).push((key@, v@)));
            }
        },
        None => {},
    }
}

} // verus!
