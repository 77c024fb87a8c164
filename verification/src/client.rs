//! The envelope of every exchange with the device's own server, and the
//! plain decisions of the HTTP plumbing.
//!
//! The sockets, TLS and buffers live outside this crate; here are the
//! request and response records (their payload carried as JSON text), the
//! clock read for the envelope timestamp, and the connection parameters
//! derived from the server address.

use vstd::prelude::*;
use vstd::string::StrSliceExecFns;
use vstd::string::StringExecFns;

verus! {

/// The envelope every answer from the server arrives in.
#[derive(Debug, Clone)]
pub struct GeneralHttpResponse {
    pub seq: u64,
    pub cmd: String,
    pub timestamp: u64,
    /// The command's payload, as JSON text.
    pub payload: String,
}

/// The credentials carried in every request.
#[derive(Debug, Clone)]
pub struct RequestUserInfo {
    pub username: String,
    pub password: String,
}

impl Default for RequestUserInfo {
    /// The test account.
    fn default() -> (r: Self)
        ensures
            r.username@ =~= "test"@,
            r.password@ =~= "test"@,
    {
        proof {
            reveal_strlit("test");
        }
        RequestUserInfo {
            username: String::from_str("test"),
            password: String::from_str("test"),
        }
    }
}

/// The envelope every request to the server is wrapped in.
#[derive(Debug, Clone)]
pub struct GeneralHttpRequest {
    pub user_info: RequestUserInfo,
    pub timestamp: u64,
    pub seq: u64,
    /// The command's payload, as JSON text.
    pub payload: String,
}

/// Relies on `std::time::SystemTime::now` and
/// `SystemTime::duration_since(UNIX_EPOCH)`: seconds since the Unix epoch,
/// zero for a clock before it.
#[verifier::external_body]
fn unix_now_seconds() -> u64 {
    match std::time::SystemTime::now().duration_since(std::time::UNIX_EPOCH) {
        Ok(time) => time.as_secs(),
        Err(_) => 0,
    }
}

impl GeneralHttpResponse {
    /// Seconds since the Unix epoch, zero for a clock before it.
    pub fn get_now_timestamp() -> u64 {
        unix_now_seconds()
    }

    /// An answer envelope carrying the given payload, stamped with the
    /// current time.
    pub fn new_response(seq: u64, cmd: String, payload: String) -> (r: Self)
        ensures
            r.seq == seq,
            r.cmd == cmd,
            r.payload == payload,
    {
        GeneralHttpResponse {
            seq,
            cmd,
            timestamp: Self::get_now_timestamp(),
            payload,
        }
    }
}

impl GeneralHttpRequest {
    /// A request envelope: the default credentials, the next sequence
    /// number after `seq`, the given payload, stamped with the current
    /// time.
    pub fn new_request(seq: u64, payload: String) -> (r: Self)
        requires
            seq < u64::MAX,
        ensures
            r.seq == seq + 1,
            r.payload == payload,
            r.user_info.username@ =~= "test"@,
            r.user_info.password@ =~= "test"@,
    {
        GeneralHttpRequest {
            user_info: Default::default(),
            timestamp: GeneralHttpResponse::get_now_timestamp(),
            seq: seq + 1,
            payload,
        }
    }
}

/// The ASCII-lowercased code point of a character.
pub open spec fn spec_ascii_lower(c: char) -> int {
    if 'A' as int <= c as int <= 'Z' as int {
        c as int + 32
    } else {
        c as int
    }
}

/// The address names the TLS scheme: it starts with `https`, in any case.
pub open spec fn spec_is_https_address(s: Seq<char>) -> bool {
    &&& s.len() >= 5
    &&& spec_ascii_lower(s[0]) == 'h' as int
    &&& spec_ascii_lower(s[1]) == 't' as int
    &&& spec_ascii_lower(s[2]) == 't' as int
    &&& spec_ascii_lower(s[3]) == 'p' as int
    &&& spec_ascii_lower(s[4]) == 's' as int
}

/// Whether a server address asks for TLS.
pub fn is_https_address(server_address: &str) -> (r: bool)
    ensures
        r == spec_is_https_address(server_address@),
{
    if server_address.unicode_len() < 5 {
        return false;
    }
    let expected = ['h', 't', 't', 'p', 's'];
    let mut i: usize = 0;
    while i < 5
        invariant
            i <= 5,
            server_address@.len() >= 5,
            expected@ =~= seq!['h', 't', 't', 'p', 's'],
            forall|j: int| 0 <= j < i ==> spec_ascii_lower(server_address@[j]) == expected@[j] as int,
        decreases 5 - i,
    {
        let c = server_address.get_char(i);
        let v = c as u32;
        let lowered: u32 = if 65 <= v && v <= 90 {
            v + 32
        } else {
            v
        };
        if lowered != expected[i] as u32 {
            return false;
        }
        i = i + 1;
    }
    true
}

/// The connection's receive and transmit buffer sizes, larger for TLS.
pub fn buffer_sizes(is_https: bool) -> (r: (usize, usize))
    ensures
        is_https ==> r == (10240usize, 4096usize),
        !is_https ==> r == (4096usize, 2048usize),
{
    if is_https {
        (10240, 4096)
    } else {
        (4096, 2048)
    }
}

/// Whether WiFi credentials fit the radio's limits: an SSID of at most 32
/// characters and a password of at most 64. Connection attempts with
/// anything longer are rejected before the radio is touched.
pub fn wifi_credentials_ok(ssid: &str, password: &str) -> (r: bool)
    ensures
        r == (ssid@.len() <= 32 && password@.len() <= 64),
{
    ssid.unicode_len() <= 32 && password.unicode_len() <= 64
}

} // verus!
