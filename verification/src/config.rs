//! Start-up settings: listen address, API key and the secret that signs session tokens.

use vstd::prelude::*;
use vstd::utf8::encode_utf8;

use crate::text::concat;

verus! {

broadcast use vstd::string::group_string_axioms;

/// Where the server listens.
#[derive(Debug, Clone, PartialEq, Eq)]
pub struct Config {
    pub port: String,
    pub host: String,
}

/// Length in bytes of a session secret drawn at random.
pub const SESSION_SECRET_LEN: usize = 32;

/// The configuration from the values of the `PORT` and `HOST` variables (`None` when unset):
/// port 8081 and host 0.0.0.0 unless set, a set value taken as it is.
pub fn load_config(port_var: Option<String>, host_var: Option<String>) -> (c: Config)
    ensures
        c.port@ == match port_var {
            Some(p) => p@,
            None => "8081"@,
        },
        c.host@ == match host_var {
            Some(h) => h@,
            None => "0.0.0.0"@,
        },
{
    let port = match port_var {
        Some(p) => p,
        None => "8081".to_owned(),
    };
    let host = match host_var {
        Some(h) => h,
        None => "0.0.0.0".to_owned(),
    };
    Config { port, host }
}

/// The address to bind: `host:port`.
pub fn bind_address(config: &Config) -> (a: String)
    ensures
        a@ == config.host@ + ":"@ + config.port@,
{
    let with_colon = concat(config.host.as_str(), ":");
    concat(with_colon.as_str(), config.port.as_str())
}

/// The Deepgram API key from the value of `DEEPGRAM_API_KEY`: `None` when it is unset or empty,
/// in which case the server does not start.
pub fn load_api_key(var: Option<String>) -> (k: Option<String>)
    ensures
        match var {
            Some(v) => if v@.len() > 0 {
                k matches Some(key) && key@ == v@
            } else {
                k is None
            },
            None => k is None,
        },
{
    match var {
        Some(v) => if v.as_str().is_empty() {
            None
        } else {
            Some(v)
        },
        None => None,
    }
}

/// `len` bytes from `rand::thread_rng().fill_bytes`. The contract claims only the length:
/// the bytes are drawn at random.
#[verifier::external_body]
fn random_bytes(len: usize) -> (b: Vec<u8>)
    ensures
        b@.len() == len,
{
    let mut buf = vec![0u8; len];
    rand::RngCore::fill_bytes(&mut rand::thread_rng(), &mut buf);
    buf
}

/// The secret that signs session tokens, from the value of `SESSION_SECRET`: its UTF-8 bytes
/// when it is set and not empty, else 32 random bytes.
pub fn init_session_secret(var: Option<String>) -> (secret: Vec<u8>)
    ensures
        match var {
            Some(v) if v@.len() > 0 => secret@ == encode_utf8(v@),
            _ => secret@.len() == SESSION_SECRET_LEN,
        },
{
    if let Some(v) = &var {
        if !v.as_str().is_empty() {
            let bytes = v.as_str().as_bytes();
            return vstd::slice::slice_to_vec(bytes);
        }
    }
    random_bytes(SESSION_SECRET_LEN)
}

/// A line of `n` equals signs.
pub open spec fn rule_line(n: nat) -> Seq<char> {
    Seq::new(n, |i: int| '=')
}

/// A line of 70 equals signs.
fn rule() -> (r: String)
    ensures
        r@ == rule_line(70),
{
    let mut r = String::new();
    let mut i: usize = 0;
    proof {
        reveal_strlit("=");
    }
    while i < 70
        invariant
            i <= 70,
            r@ == rule_line(i as nat),
            "="@ == seq!['='],
        decreases 70 - i,
    {
        r = concat(r.as_str(), "=");
        i = i + 1;
        assert(r@ =~= rule_line(i as nat));
    }
    r
}

/// The lines that the server prints when it starts listening on `port`.
pub open spec fn banner_view(port: Seq<char>) -> Seq<Seq<char>> {
    seq![
        Seq::empty(),
        rule_line(70),
        "Backend API running at http://localhost:"@ + port,
        Seq::empty(),
        "GET  /api/session"@,
        "POST /api/text-intelligence (auth required)"@,
        "GET  /api/metadata"@,
        "GET  /health"@,
        rule_line(70),
        Seq::empty(),
    ]
}

/// The start-up banner for a server on `port`.
pub fn startup_banner(port: &str) -> (lines: Vec<String>)
    ensures
        lines@.map_values(|l: String| l@) == banner_view(port@),
{
    let mut lines: Vec<String> = Vec::new();
    lines.push(String::new());
    lines.push(rule());
    lines.push(concat("Backend API running at http://localhost:", port));
    lines.push(String::new());
    lines.push("GET  /api/session".to_owned());
    lines.push("POST /api/text-intelligence (auth required)".to_owned());
    lines.push("GET  /api/metadata".to_owned());
    lines.push("GET  /health".to_owned());
    lines.push(rule());
    lines.push(String::new());
    assert(lines@.map_values(|l: String| l@) =~= banner_view(port@));
    lines
}

} // verus!
