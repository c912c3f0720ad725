//! Daemon configuration: the listen address forms and the validation of a
//! raw (string-valued) configuration into a runnable one.
//!
//! The api listen address is either a standard multi-address or the
//! pseudo-scheme `/unix/<path>` naming a local socket path.

use vstd::prelude::*;

use libp2p::multiaddr::Error as MultiaddrParseError;
use multibase::Error as MultibaseError;

verus! {

/// Whether a string is a valid multi-address.  The grammar lives in the
/// multiaddr crate; the result depends on the string alone.
pub uninterp spec fn multiaddr_str_ok(s: Seq<char>) -> bool;

/// Whether a string carries a multibase prefix and a payload valid in that
/// base.  The result depends on the string alone.
pub uninterp spec fn multibase_decode_ok(s: Seq<char>) -> bool;

/// The payload bytes of a multibase string (meaningful when it decodes).
pub uninterp spec fn multibase_decoded(s: Seq<char>) -> Seq<u8>;

/// Relies on `str::parse::<libp2p::Multiaddr>`: whether the string is a
/// valid multi-address is a function of the string alone.
#[verifier::external_body]
fn parse_multiaddr(s: &str) -> (r: Result<libp2p::Multiaddr, MultiaddrParseError>)
    ensures
        r is Ok == multiaddr_str_ok(s@),
{
    s.parse::<libp2p::Multiaddr>()
}

/// Relies on `multibase::decode`: the detected base and decoded payload
/// are a function of the string alone.
#[verifier::external_body]
fn multibase_decode(s: &str) -> (r: Result<Vec<u8>, MultibaseError>)
    ensures
        r is Ok == multibase_decode_ok(s@),
        r matches Ok(b) ==> b@ == multibase_decoded(s@),
{
    multibase::decode(s).map(|decoded| decoded.1)
}

/// Relies on `Keypair::ed25519_from_bytes`: it succeeds exactly on 32
/// bytes, since every 32-byte string is a valid Ed25519 secret key.
#[verifier::external_body]
fn ed25519_keypair_from_bytes(bytes: Vec<u8>) -> (r: Result<
    libp2p::identity::Keypair,
    libp2p::identity::DecodingError,
>)
    ensures
        r is Ok <==> bytes@.len() == 32,
{
    libp2p::identity::Keypair::ed25519_from_bytes(bytes)
}

#[verifier::external_type_specification]
#[verifier::external_body]
pub struct ExMultiaddr(libp2p::Multiaddr);

#[verifier::external_type_specification]
#[verifier::external_body]
pub struct ExMultiaddrError(MultiaddrParseError);

#[verifier::external_type_specification]
#[verifier::external_body]
pub struct ExKeypair(libp2p::identity::Keypair);

#[verifier::external_type_specification]
#[verifier::external_body]
pub struct ExDecodingError(libp2p::identity::DecodingError);

#[verifier::external_type_specification]
#[verifier::external_body]
pub struct ExMultibaseError(MultibaseError);

/// The string opens with the pseudo-scheme `/unix/`; equivalently, its
/// second `/` stands at index 5 and what precedes it reads `/unix`.
pub open spec fn is_unix_prefix(s: Seq<char>) -> bool {
    &&& s.len() >= 6
    &&& s[0] == '/'
    &&& s[1] == 'u'
    &&& s[2] == 'n'
    &&& s[3] == 'i'
    &&& s[4] == 'x'
    &&& s[5] == '/'
}

/// The string holds a second `/` to split at.
pub open spec fn has_two_slashes(s: Seq<char>) -> bool {
    exists|i: int, j: int| 0 <= i < j < s.len() && s[i] == '/' && s[j] == '/'
}

/// An api listen address: a standard multi-address, or a local socket path
/// written `/unix/<path>`.
#[derive(Debug)]
pub enum MultiaddrUnixSocket {
    Multiaddr(libp2p::Multiaddr),
    UnixSocket(String),
}

#[derive(Debug)]
pub enum MultiaddrUnixSocketError {
    ParseFailure(MultiaddrParseError),
    EmptyPath(String),
}

impl MultiaddrUnixSocket {
    /// Parse an api listen address.  A valid multi-address wins; otherwise
    /// the string is split at its second `/`, and the suffix is the socket
    /// path when the prefix reads `/unix`.  A string without a second `/`
    /// has no path at all.
    pub fn from_str(s: &str) -> (r: Result<MultiaddrUnixSocket, MultiaddrUnixSocketError>)
        ensures
            multiaddr_str_ok(s@) ==> (r matches Ok(a) && a is Multiaddr),
            !multiaddr_str_ok(s@) && is_unix_prefix(s@) ==> (r matches Ok(a) && (a matches
                MultiaddrUnixSocket::UnixSocket(p) && p@ == s@.skip(5))),
            !multiaddr_str_ok(s@) && !is_unix_prefix(s@) && has_two_slashes(s@) ==> (r matches
                Err(e) && e is ParseFailure),
            !multiaddr_str_ok(s@) && !is_unix_prefix(s@) && !has_two_slashes(s@) ==> (r matches
                Err(e) && (e matches MultiaddrUnixSocketError::EmptyPath(t) && t@ == s@)),
    {
        let parse_error = match parse_multiaddr(s) {
            Ok(a) => {
                return Ok(MultiaddrUnixSocket::Multiaddr(a));
            },
            Err(e) => e,
        };
        let n = s.unicode_len();
        let mut first: Option<usize> = None;
        let mut second: Option<usize> = None;
        let mut i: usize = 0;
        while i < n
            invariant
                i <= n,
                n == s@.len(),
                match first {
                    Option::None => second is None && (forall|j: int|
                        0 <= j < i ==> s@[j] != '/'),
                    Option::Some(f) => {
                        &&& f < i
                        &&& s@[f as int] == '/'
                        &&& forall|j: int| 0 <= j < f ==> s@[j] != '/'
                        &&& match second {
                            Option::None => forall|j: int| f < j < i ==> s@[j] != '/',
                            Option::Some(t) => f < t < i && s@[t as int] == '/' && (forall|j: int|
                                f < j < t ==> s@[j] != '/'),
                        }
                    },
                },
            decreases n - i,
        {
            if s.get_char(i) == '/' {
                if first.is_none() {
                    first = Some(i);
                } else if second.is_none() {
                    second = Some(i);
                }
            }
            i = i + 1;
        }
        match second {
            Option::Some(t) => {
                if t == 5 && s.get_char(0) == '/' && s.get_char(1) == 'u' && s.get_char(2) == 'n'
                    && s.get_char(3) == 'i' && s.get_char(4) == 'x' {
                    let path = s.substring_char(5, n).to_owned();
                    proof {
                        assert(path@ =~= s@.skip(5));
                    }
                    Ok(MultiaddrUnixSocket::UnixSocket(path))
                } else {
                    proof {
                        if is_unix_prefix(s@) {
                            let f = first->Some_0;
                            assert(s@[0] == '/');
                            assert(f == 0);
                            assert(s@[5] == '/');
                            assert(t <= 5);
                            assert(t as int == 5);
                        }
                    }
                    Err(MultiaddrUnixSocketError::ParseFailure(parse_error))
                }
            },
            Option::None => {
                proof {
                    if is_unix_prefix(s@) {
                        assert(s@[0] == '/' && s@[5] == '/');
                        assert(has_two_slashes(s@));
                    }
                    if has_two_slashes(s@) {
                        let (p, q) = choose|p: int, q: int|
                            0 <= p < q < s@.len() && s@[p] == '/' && s@[q] == '/';
                        assert(false);
                    }
                }
                Err(MultiaddrUnixSocketError::EmptyPath(s.to_owned()))
            },
        }
    }
}

/// A raw configuration, exactly as the configuration file spells it: every
/// field still a string.
#[derive(Debug, PartialEq)]
pub struct ConfigSerde {
    /// Multibase encoded serialization of ed25519 keypair
    pub keypair: String,
    /// Path to git repository on filesystem
    pub repo_dir: String,
    /// Path to file for peer database table
    pub database_path: String,
    /// listen address for swarm
    pub swarm_listen: String,
    /// listen address for api
    pub api_listen: String,
}

/// A validated configuration, ready to run the daemon on.
pub struct Config {
    /// The daemon's identity keypair
    pub keypair: libp2p::identity::Keypair,
    /// Path to git repository on filesystem
    pub repo_dir: String,
    /// Path to file for peer database table
    pub database_path: String,
    /// listen address for swarm
    pub swarm_listen: libp2p::Multiaddr,
    /// listen address for api
    pub api_listen: MultiaddrUnixSocket,
}

/// Why a raw configuration was rejected.
#[derive(Debug)]
pub enum ConfigError {
    /// The keypair field is not a multibase string.
    BadKeypairEncoding(MultibaseError),
    /// The decoded keypair bytes are not an Ed25519 secret key.
    BadKeypair(libp2p::identity::DecodingError),
    /// The swarm listen address is not a multi-address.
    BadSwarmListen(MultiaddrParseError),
    /// The api listen address is neither a multi-address nor `/unix/<path>`.
    BadApiListen(MultiaddrUnixSocketError),
}

impl Config {
    /// Validate a raw configuration: decode the keypair and parse both
    /// listen addresses, reporting the first field that is bad.
    pub fn try_from(config: ConfigSerde) -> (r: Result<Config, ConfigError>)
        ensures
            ({
                let kp_ok = multibase_decode_ok(config.keypair@) && multibase_decoded(
                    config.keypair@,
                ).len() == 32;
                let swarm_ok = multiaddr_str_ok(config.swarm_listen@);
                let api_ok = multiaddr_str_ok(config.api_listen@) || is_unix_prefix(
                    config.api_listen@,
                );
                &&& (r is Ok <==> kp_ok && swarm_ok && api_ok)
                &&& (r matches Ok(c) ==> {
                    &&& c.repo_dir@ == config.repo_dir@
                    &&& c.database_path@ == config.database_path@
                    &&& (multiaddr_str_ok(config.api_listen@) ==> c.api_listen is Multiaddr)
                    &&& (!multiaddr_str_ok(config.api_listen@) && is_unix_prefix(
                        config.api_listen@,
                    ) ==> (c.api_listen matches MultiaddrUnixSocket::UnixSocket(p) && p@
                        == config.api_listen@.skip(5)))
                })
                &&& (!multibase_decode_ok(config.keypair@) ==> (r matches Err(e)
                    && e is BadKeypairEncoding))
                &&& (multibase_decode_ok(config.keypair@) && multibase_decoded(
                    config.keypair@,
                ).len() != 32 ==> (r matches Err(e) && e is BadKeypair))
                &&& (kp_ok && !swarm_ok ==> (r matches Err(e) && e is BadSwarmListen))
                &&& (kp_ok && swarm_ok && !api_ok ==> (r matches Err(e) && e is BadApiListen))
            }),
    {
        let keypair_bytes = match multibase_decode(config.keypair.as_str()) {
            Ok(b) => b,
            Err(e) => {
                return Err(ConfigError::BadKeypairEncoding(e));
            },
        };
        let keypair = match ed25519_keypair_from_bytes(keypair_bytes) {
            Ok(k) => k,
            Err(e) => {
                return Err(ConfigError::BadKeypair(e));
            },
        };
        let swarm_listen = match parse_multiaddr(config.swarm_listen.as_str()) {
            Ok(a) => a,
            Err(e) => {
                return Err(ConfigError::BadSwarmListen(e));
            },
        };
        let api_listen = match MultiaddrUnixSocket::from_str(config.api_listen.as_str()) {
            Ok(a) => a,
            Err(e) => {
                return Err(ConfigError::BadApiListen(e));
            },
        };
        Ok(
            Config {
                keypair,
                repo_dir: config.repo_dir,
                database_path: config.database_path,
                swarm_listen,
                api_listen,
            },
        )
    }
}

} // verus!
