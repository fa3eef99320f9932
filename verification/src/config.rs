//! Server settings: their defaults and the overrides from the environment
//! and the command line.
use vstd::prelude::*;
use vstd::string::StrSliceExecFns;

verus! {

/// Where the streaming broker runs.
pub struct PulsarConfig {
    pub url: String,
    pub tenant: String,
    pub namespace: String,
}

pub fn default_pulsar_url() -> (r: String)
    ensures
        r@ == "pulsar://localhost:6650"@,
{
    "pulsar://localhost:6650".to_owned()
}

pub fn default_tenant() -> (r: String)
    ensures
        r@ == "public"@,
{
    "public".to_owned()
}

pub fn default_namespace() -> (r: String)
    ensures
        r@ == "default"@,
{
    "default".to_owned()
}

impl Default for PulsarConfig {
    fn default() -> (r: PulsarConfig)
        ensures
            r.url@ == "pulsar://localhost:6650"@,
            r.tenant@ == "public"@,
            r.namespace@ == "default"@,
    {
        PulsarConfig { url: default_pulsar_url(), tenant: default_tenant(), namespace: default_namespace() }
    }
}

/// Channels of a new mass driver.
pub fn default_channels() -> (r: u32)
    ensures
        r == 4,
{
    4
}

/// Largest packet a mass driver launches.
pub fn default_max_packet_size() -> (r: u64)
    ensures
        r == 20,
{
    20
}

/// Seconds a webhook call may take.
pub fn default_webhook_timeout_secs() -> (r: u64)
    ensures
        r == 5,
{
    5
}

/// Capacity of the channel that carries trades.
pub struct MarketConfig {
    pub trade_channel_capacity: usize,
}

pub fn default_trade_channel_capacity() -> (r: usize)
    ensures
        r == 1024,
{
    1024
}

impl Default for MarketConfig {
    fn default() -> (r: MarketConfig)
        ensures
            r.trade_channel_capacity == 1024,
    {
        MarketConfig { trade_channel_capacity: default_trade_channel_capacity() }
    }
}

/// The administrator's bearer token.
pub struct AdminConfig {
    pub token: String,
}

pub fn default_admin_token() -> (r: String)
    ensures
        r@ == "admin-secret-token"@,
{
    "admin-secret-token".to_owned()
}

impl Default for AdminConfig {
    fn default() -> (r: AdminConfig)
        ensures
            r.token@ == "admin-secret-token"@,
    {
        AdminConfig { token: default_admin_token() }
    }
}

/// Port the server listens on by default.
pub fn default_port() -> (r: u16)
    ensures
        r == 3000,
{
    3000
}

/// The ASCII digit characters.
pub open spec fn is_digit(c: char) -> bool {
    '0' <= c && c <= '9'
}

/// Value of a string of decimal digits.
pub open spec fn digits_value(d: Seq<char>) -> nat
    decreases d.len(),
{
    if d.len() == 0 {
        0
    } else {
        digits_value(d.drop_last()) * 10 + (d.last() as nat - '0' as nat) as nat
    }
}

/// `s` without a leading `+`.
pub open spec fn digits_part(s: Seq<char>) -> Seq<char> {
    if s.len() > 0 && s[0] == '+' {
        s.skip(1)
    } else {
        s
    }
}

/// Every character is a decimal digit.
pub open spec fn all_digits(d: Seq<char>) -> bool {
    forall|k: int| 0 <= k < d.len() ==> is_digit(#[trigger] d[k])
}

/// What parsing `s` as a `u16` gives: an optional `+`, then at least one
/// decimal digit and nothing else, of a value that fits.
pub open spec fn parse_u16_spec(s: Seq<char>) -> Option<u16> {
    let d = digits_part(s);
    if d.len() == 0 || !all_digits(d) {
        None
    } else if digits_value(d) > u16::MAX {
        None
    } else {
        Some(digits_value(d) as u16)
    }
}

/// Parses a port number as `str::parse::<u16>` does.
pub fn parse_u16(s: &str) -> (r: Option<u16>)
    ensures
        r == parse_u16_spec(s@),
{
    let n = s.unicode_len();
    let start: usize = if n > 0 && s.get_char(0) == '+' { 1 } else { 0 };
    let ghost d = digits_part(s@);
    proof {
        assert(d =~= s@.skip(start as int));
    }
    if start == n {
        return None;
    }
    let mut value: u32 = 0;
    let mut too_big = false;
    let mut k: usize = start;
    while k < n
        invariant
            n == s@.len(),
            start <= k <= n,
            d == s@.skip(start as int),
            d == digits_part(s@),
            forall|m: int| start <= m < k ==> is_digit(#[trigger] s@[m]),
            !too_big ==> value == digits_value(d.take(k - start)) && value <= u16::MAX,
            too_big ==> digits_value(d.take(k - start)) > u16::MAX,
        decreases n - k,
    {
        let c = s.get_char(k);
        if !('0' <= c && c <= '9') {
            proof {
                assert(d[k - start] == s@[k as int]);
                assert(!is_digit(d[k - start]));
                assert(0 <= k - start < d.len());
            }
            return None;
        }
        proof {
            assert(d.take(k + 1 - start).drop_last() =~= d.take(k - start));
        }
        if !too_big {
            let digit = (c as u32) - ('0' as u32);
            value = value * 10 + digit;
            if value > 65535 {
                too_big = true;
            }
        }
        k = k + 1;
    }
    proof {
        assert(d.take(n - start) =~= d);
        assert forall|m: int| 0 <= m < d.len() implies is_digit(#[trigger] d[m]) by {
            assert(d[m] == s@[m + start]);
        }
    }
    if too_big {
        None
    } else {
        Some(value as u16)
    }
}

/// Settings that the environment and the command line may override.
pub struct ConfigOverrides {
    /// `PORT`, used when it parses as a port number.
    pub env_port: Option<String>,
    /// `PULSAR_URL`.
    pub env_pulsar_url: Option<String>,
    /// `ADMIN_TOKEN`.
    pub env_admin_token: Option<String>,
    /// `--port`.
    pub cli_port: Option<u16>,
    /// Number of `-v` flags.
    pub cli_verbose: u8,
    /// `--seed`.
    pub cli_seed: Option<String>,
}

/// Applies the overrides, the command line winning over the environment,
/// which wins over the file: the port from the command line, else from a
/// `PORT` that parses, else unchanged; verbosity when at least one `-v` was
/// given; the seed file from the command line; the broker URL and admin
/// token from the environment.
pub fn apply_config_overrides(
    port: &mut u16,
    verbose: &mut u8,
    seed: &mut Option<String>,
    pulsar: &mut PulsarConfig,
    admin: &mut AdminConfig,
    o: ConfigOverrides,
)
    ensures
        *final(port) == (match o.cli_port {
            Some(p) => p,
            None => match o.env_port {
                Some(e) => match parse_u16_spec(e@) {
                    Some(p) => p,
                    None => *old(port),
                },
                None => *old(port),
            },
        }),
        *final(verbose) == (if o.cli_verbose > 0 { o.cli_verbose } else { *old(verbose) }),
        *final(seed) == (match o.cli_seed {
            Some(s) => Some(s),
            None => *old(seed),
        }),
        final(pulsar).url == (match o.env_pulsar_url {
            Some(u) => u,
            None => old(pulsar).url,
        }),
        final(pulsar).tenant == old(pulsar).tenant,
        final(pulsar).namespace == old(pulsar).namespace,
        final(admin).token == (match o.env_admin_token {
            Some(t) => t,
            None => old(admin).token,
        }),
{
    if let Some(e) = &o.env_port {
        if let Some(p) = parse_u16(e.as_str()) {
            *port = p;
        }
    }
    if let Some(u) = o.env_pulsar_url {
        pulsar.url = u;
    }
    if let Some(t) = o.env_admin_token {
        admin.token = t;
    }
    if let Some(p) = o.cli_port {
        *port = p;
    }
    if o.cli_verbose > 0 {
        *verbose = o.cli_verbose;
    }
    if let Some(s) = o.cli_seed {
        *seed = Some(s);
    }
}

} // verus!
