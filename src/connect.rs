use rand::Rng;
use vstd::prelude::*;
use vstd::string::*;

verus! {

/// Length of the random part of a client identifier.
pub const SUFFIX_LEN: usize = 8;

/// Keep-alive interval asked of the broker, in seconds.
pub const KEEP_ALIVE_SECS: u64 = 10;

/// Capacity of the transport's buffer of inbound events.
pub const EVENT_CAPACITY: usize = 10;

/// Whether `c` is an ASCII letter or digit.
pub open spec fn is_alphanumeric(c: char) -> bool {
    ('A' <= c && c <= 'Z') || ('a' <= c && c <= 'z') || ('0' <= c && c <= '9')
}

/// The prefix used when the caller gives none.
pub open spec fn default_prefix() -> Seq<char> {
    "tauri-mqtt"@
}

/// The prefix of a client identifier: the caller's, or the default.
pub open spec fn chosen_prefix(prefix: Option<String>) -> Seq<char> {
    match prefix {
        Some(p) => p@,
        None => default_prefix(),
    }
}

/// A client identifier made of a prefix, a dash and a suffix.
pub open spec fn client_id_of(prefix: Seq<char>, suffix: Seq<char>) -> Seq<char> {
    prefix + "-"@ + suffix
}

/// Relies on rand's `Alphanumeric` distribution, drawn from the thread-local
/// generator: each character is one of `A-Z`, `a-z`, `0-9`.
#[verifier::external_body]
fn random_alphanumeric(n: usize) -> (r: String)
    ensures
        r@.len() == n,
        forall|i: int| 0 <= i < n ==> is_alphanumeric(#[trigger] r@[i]),
{
    rand::rng().sample_iter(&rand::distr::Alphanumeric).take(n).map(char::from).collect()
}

/// The client identifier for a given prefix and random suffix: the caller's
/// prefix (or the default one), a dash, then the suffix.
pub fn compose_client_id(prefix: Option<String>, suffix: &String) -> (r: String)
    ensures
        r@ == client_id_of(chosen_prefix(prefix), suffix@),
{
    let mut id = match prefix {
        Some(p) => p,
        None => String::from_str("tauri-mqtt"),
    };
    id.append("-");
    id.append(suffix.as_str());
    id
}

/// A fresh client identifier: the prefix (or the default one), a dash, and
/// a random suffix of `SUFFIX_LEN` letters and digits.
pub fn new_client_id(prefix: Option<String>) -> (r: String)
    ensures
        exists|suffix: Seq<char>|
            {
                &&& suffix.len() == SUFFIX_LEN
                &&& forall|i: int| 0 <= i < suffix.len() ==> is_alphanumeric(#[trigger] suffix[i])
                &&& r@ == client_id_of(chosen_prefix(prefix), suffix)
            },
{
    let suffix = random_alphanumeric(SUFFIX_LEN);
    compose_client_id(prefix, &suffix)
}

/// The settings of a new transport connection.
#[derive(Debug, Clone, PartialEq, Eq)]
pub struct ConnectPlan {
    pub client_id: String,
    pub host: String,
    pub port: u16,
    /// Keep-alive interval in seconds.
    pub keep_alive_secs: u64,
    /// Whether the broker keeps no state from earlier sessions.
    pub clean_session: bool,
    /// Capacity of the buffer of inbound events.
    pub capacity: usize,
}

/// The settings for connecting to `host:port` as `client_id`: a keep-alive
/// of `KEEP_ALIVE_SECS` seconds, a clean session and `EVENT_CAPACITY`
/// buffered events.
pub fn connect_plan(host: String, port: u16, client_id: String) -> (r: ConnectPlan)
    ensures
        r.client_id@ == client_id@,
        r.host@ == host@,
        r.port == port,
        r.keep_alive_secs == KEEP_ALIVE_SECS,
        r.clean_session,
        r.capacity == EVENT_CAPACITY,
{
    ConnectPlan {
        client_id,
        host,
        port,
        keep_alive_secs: KEEP_ALIVE_SECS,
        clean_session: true,
        capacity: EVENT_CAPACITY,
    }
}

} // verus!
