//! Client configuration: the builder's settings, the socket URI, and the
//! settings a connected client keeps.

use vstd::prelude::*;
use std::time::Duration;
use crate::client::items::{
    catalog_name, catalog_object_type_name, is_object_type_catalog, pcb_object_types,
};
use crate::model::common::PcbObjectTypeCode;
use crate::text::{chars_of, chars_start_with_at, copy_string, opt_string_view, owned, push_str};

verus! {

// ---------------------------------------------------------------------------
// Socket URIs.
// ---------------------------------------------------------------------------
/// Whether `s` contains `pat` somewhere.
pub open spec fn seq_contains_seq(s: Seq<char>, pat: Seq<char>) -> bool {
    exists|i: int| 0 <= i && i + pat.len() <= s.len() && #[trigger] s.subrange(i, i + pat.len()) == pat
}

/// The socket URI a socket path or URI stands for: as given when it already
/// names a scheme (`://`), otherwise an `ipc://` URI of the path.
pub open spec fn normalized_socket_uri(socket: Seq<char>) -> Seq<char> {
    if seq_contains_seq(socket, "://"@) {
        socket
    } else {
        "ipc://"@ + socket
    }
}

fn contains_scheme_separator(s: &str) -> (r: bool)
    ensures
        r == seq_contains_seq(s@, "://"@),
{
    let chars = chars_of(s);
    let pat = chars_of("://");
    proof {
        reveal_strlit("://");
    }
    let n = chars.len();
    if n < 3 {
        assert forall|j: int| 0 <= j && j + 3 <= s@.len() implies #[trigger] s@.subrange(j, j + 3)
            != "://"@ by {}
        return false;
    }
    let mut i: usize = 0;
    while i <= n - 3
        invariant
            n == chars@.len(),
            n >= 3,
            chars@ == s@,
            pat@ == "://"@,
            "://"@.len() == 3,
            forall|j: int| 0 <= j < i ==> #[trigger] s@.subrange(j, j + 3) != "://"@,
        decreases n - i,
    {
        let found = chars_start_with_at(chars.as_slice(), i, pat.as_slice());
        assert(chars@.skip(i as int).take(3) =~= s@.subrange(i as int, i + 3));
        if found {
            assert(s@.subrange(i as int, i + 3) == "://"@);
            return true;
        }
        i = i + 1;
    }
    assert forall|j: int| 0 <= j && j + 3 <= s@.len() implies #[trigger] s@.subrange(j, j + 3)
        != "://"@ by {
        assert(j < i);
    }
    false
}

/// Turns a socket path into a socket URI: an `ipc://` URI, unless it already
/// names a scheme.
pub fn normalize_socket_uri(socket: &str) -> (r: String)
    ensures
        r@ == normalized_socket_uri(socket@),
{
    if contains_scheme_separator(socket) {
        owned(socket)
    } else {
        let mut r = owned("ipc://");
        push_str(&mut r, socket);
        r
    }
}

/// Normalising a socket URI twice gives what normalising it once gives.
pub proof fn lemma_normalize_socket_uri_idempotent(s: Seq<char>)
    ensures
        normalized_socket_uri(normalized_socket_uri(s)) == normalized_socket_uri(s),
{
    if !seq_contains_seq(s, "://"@) {
        reveal_strlit("ipc://");
        reveal_strlit("://");
        let t = "ipc://"@ + s;
        assert(t.subrange(3, 3 + "://"@.len() as int) =~= "://"@);
        assert(seq_contains_seq(t, "://"@));
    }
}

/// The filesystem path of an `ipc://` socket URI.
pub open spec fn ipc_path_of(uri: Seq<char>) -> Option<Seq<char>> {
    if uri.len() >= 6 && uri.take(6) == "ipc://"@ {
        Some(uri.skip(6))
    } else {
        None
    }
}

/// The filesystem path of an `ipc://` socket URI; `None` for another scheme.
pub fn ipc_path_from_uri(socket_uri: &str) -> (r: Option<String>)
    ensures
        opt_string_view(r) == ipc_path_of(socket_uri@),
{
    let chars = chars_of(socket_uri);
    let prefix = chars_of("ipc://");
    proof {
        reveal_strlit("ipc://");
    }
    if chars.len() >= 6 && chars_start_with_at(chars.as_slice(), 0, prefix.as_slice()) {
        assert(chars@.skip(0) =~= chars@);
        let rest = crate::text::chars_from(chars.as_slice(), 6);
        Some(crate::text::string_from_chars(rest.as_slice()))
    } else {
        proof {
            if chars@.len() >= 6 {
                assert(chars@.skip(0) =~= chars@);
            }
        }
        None
    }
}

/// A socket path without a scheme becomes an `ipc://` URI whose path is
/// the socket path.
pub proof fn lemma_socket_path_round_trip(path: Seq<char>)
    requires
        !seq_contains_seq(path, "://"@),
    ensures
        ipc_path_of(normalized_socket_uri(path)) == Some(path),
{
    reveal_strlit("ipc://");
    let t = "ipc://"@ + path;
    assert(t.take(6) =~= "ipc://"@);
    assert(t.skip(6) =~= path);
}

/// The socket URI a client uses: the explicit socket when one is given, else
/// the socket environment variable's value when it is set and not empty,
/// else the platform's default socket path; normalised in each case.
pub open spec fn resolved_socket_uri(
    explicit: Option<Seq<char>>,
    env_socket: Option<Seq<char>>,
    default_path: Seq<char>,
) -> Seq<char> {
    match explicit {
        Some(s) => normalized_socket_uri(s),
        None => match env_socket {
            Some(s) => if s.len() > 0 {
                normalized_socket_uri(s)
            } else {
                normalized_socket_uri(default_path)
            },
            None => normalized_socket_uri(default_path),
        },
    }
}

/// The view of an optional string slice.
pub open spec fn opt_str(s: Option<&str>) -> Option<Seq<char>> {
    match s {
        Some(v) => Some(v@),
        None => None,
    }
}

/// Resolves the socket URI from an explicit socket, the value of the socket
/// environment variable (`KICAD_API_SOCKET`), and the default socket path.
pub fn resolve_socket_uri(explicit: Option<&str>, env_socket: Option<&str>, default_path: &str) -> (r:
    String)
    ensures
        r@ == resolved_socket_uri(opt_str(explicit), opt_str(env_socket), default_path@),
{
    match explicit {
        Some(socket) => normalize_socket_uri(socket),
        None => match env_socket {
            Some(socket) => {
                if socket.unicode_len() > 0 {
                    normalize_socket_uri(socket)
                } else {
                    normalize_socket_uri(default_path)
                }
            },
            None => normalize_socket_uri(default_path),
        },
    }
}

// ---------------------------------------------------------------------------
// Durations.
// ---------------------------------------------------------------------------
/// The duration of `millis` milliseconds (`Duration::from_millis`).
pub uninterp spec fn duration_of_millis(millis: u64) -> Duration;

/// `Duration::from_millis`, the duration of a number of milliseconds.
#[verifier::external_body]
pub(crate) fn duration_from_millis(millis: u64) -> (d: Duration)
    ensures
        d == duration_of_millis(millis),
{
    Duration::from_millis(millis)
}

/// `Duration`'s `clone`: `Duration` is `Copy`, and its clone is the same
/// duration.
pub assume_specification[ <Duration as Clone>::clone ](d: &Duration) -> (r: Duration)
    ensures
        r == *d,
;

/// The per-request timeout a builder starts with, in milliseconds.
pub const DEFAULT_TIMEOUT_MS: u64 = 3000;

// ---------------------------------------------------------------------------
// The builder.
// ---------------------------------------------------------------------------
#[derive(Clone, Debug)]
struct ClientConfig {
    timeout: Duration,
    socket_uri: Option<String>,
    token: Option<String>,
    client_name: Option<String>,
}

/// Builder for [`KiCadClient`].
///
/// Defaults: a timeout of three seconds; the socket from `KICAD_API_SOCKET`,
/// else the platform default; the token from `KICAD_API_TOKEN`, else empty;
/// a generated client name.
#[derive(Clone, Debug)]
pub struct ClientBuilder {
    config: ClientConfig,
}

impl ClientBuilder {
    /// The per-request timeout the builder is set to.
    pub closed spec fn timeout_spec(&self) -> Duration {
        self.config.timeout
    }

    /// The explicit socket the builder is set to, if any.
    pub closed spec fn socket_spec(&self) -> Option<Seq<char>> {
        opt_string_view(self.config.socket_uri)
    }

    /// The token the builder is set to, if any.
    pub closed spec fn token_spec(&self) -> Option<Seq<char>> {
        opt_string_view(self.config.token)
    }

    /// The client name the builder is set to, if any.
    pub closed spec fn client_name_spec(&self) -> Option<Seq<char>> {
        opt_string_view(self.config.client_name)
    }

    /// Creates a builder with the defaults for local KiCad IPC use.
    pub fn new() -> (r: Self)
        ensures
            r.timeout_spec() == duration_of_millis(DEFAULT_TIMEOUT_MS),
            r.socket_spec() is None,
            r.token_spec() is None,
            r.client_name_spec() is None,
    {
        ClientBuilder {
            config: ClientConfig {
                timeout: duration_from_millis(DEFAULT_TIMEOUT_MS),
                socket_uri: None,
                token: None,
                client_name: None,
            },
        }
    }

    /// Sets the per-request timeout of the IPC transport.
    pub fn timeout(self, timeout: Duration) -> (r: Self)
        ensures
            r.timeout_spec() == timeout,
            r.socket_spec() == self.socket_spec(),
            r.token_spec() == self.token_spec(),
            r.client_name_spec() == self.client_name_spec(),
    {
        let mut s = self;
        s.config.timeout = timeout;
        s
    }

    /// Sets the KiCad IPC socket URI or path; unset, the socket comes from
    /// the environment or the platform default.
    pub fn socket_path(self, socket_path: &str) -> (r: Self)
        ensures
            r.timeout_spec() == self.timeout_spec(),
            r.socket_spec() == Some(socket_path@),
            r.token_spec() == self.token_spec(),
            r.client_name_spec() == self.client_name_spec(),
    {
        let mut s = self;
        s.config.socket_uri = Some(owned(socket_path));
        s
    }

    /// Sets the IPC authentication token; unset, the token comes from
    /// `KICAD_API_TOKEN`.
    pub fn token(self, token: &str) -> (r: Self)
        ensures
            r.timeout_spec() == self.timeout_spec(),
            r.socket_spec() == self.socket_spec(),
            r.token_spec() == Some(token@),
            r.client_name_spec() == self.client_name_spec(),
    {
        let mut s = self;
        s.config.token = Some(owned(token));
        s
    }

    /// Sets the client name reported to KiCad.
    pub fn client_name(self, client_name: &str) -> (r: Self)
        ensures
            r.timeout_spec() == self.timeout_spec(),
            r.socket_spec() == self.socket_spec(),
            r.token_spec() == self.token_spec(),
            r.client_name_spec() == Some(client_name@),
    {
        let mut s = self;
        s.config.client_name = Some(owned(client_name));
        s
    }

    /// The settings a client connected with this builder uses: the socket
    /// URI resolved from the builder, the socket environment variable's value
    /// `env_socket` and the default socket path; the builder's token, else
    /// the token environment variable's value `env_token`, else empty; the
    /// builder's client name, else `default_client_name`.
    pub fn resolve(
        self,
        env_socket: Option<&str>,
        env_token: Option<&str>,
        default_socket_path: &str,
        default_client_name: String,
    ) -> (r: KiCadClient)
        ensures
            r.timeout_spec() == self.timeout_spec(),
            r.socket_uri_spec() == resolved_socket_uri(
                self.socket_spec(),
                opt_str(env_socket),
                default_socket_path@,
            ),
            r.token_spec() == match self.token_spec() {
                Some(t) => t,
                None => match opt_str(env_token) {
                    Some(t) => t,
                    None => Seq::empty(),
                },
            },
            r.client_name_spec() == match self.client_name_spec() {
                Some(n) => n,
                None => default_client_name@,
            },
    {
        let socket_uri = match &self.config.socket_uri {
            Some(s) => resolve_socket_uri(Some(s.as_str()), env_socket, default_socket_path),
            None => resolve_socket_uri(None, env_socket, default_socket_path),
        };
        let token = match &self.config.token {
            Some(t) => copy_string(t),
            None => match env_token {
                Some(t) => owned(t),
                None => String::new(),
            },
        };
        let client_name = match &self.config.client_name {
            Some(n) => copy_string(n),
            None => default_client_name,
        };
        KiCadClient { timeout: self.config.timeout, socket_uri, token, client_name }
    }
}

impl Default for ClientBuilder {
    fn default() -> (r: Self)
        ensures
            r.timeout_spec() == duration_of_millis(DEFAULT_TIMEOUT_MS),
            r.socket_spec() is None,
            r.token_spec() is None,
            r.client_name_spec() is None,
    {
        Self::new()
    }
}

// ---------------------------------------------------------------------------
// The client's settings.
// ---------------------------------------------------------------------------
/// A client of a running KiCad instance: the settings it was connected with.
/// The IPC transport that carries its requests belongs to the program that
/// drives it.
#[derive(Clone, Debug)]
pub struct KiCadClient {
    timeout: Duration,
    socket_uri: String,
    token: String,
    client_name: String,
}

impl KiCadClient {
    /// The client's per-request timeout.
    pub closed spec fn timeout_spec(&self) -> Duration {
        self.timeout
    }

    /// The socket URI the client talks to.
    pub closed spec fn socket_uri_spec(&self) -> Seq<char> {
        self.socket_uri@
    }

    /// The authentication token the client sends.
    pub closed spec fn token_spec(&self) -> Seq<char> {
        self.token@
    }

    /// The name the client reports to KiCad.
    pub closed spec fn client_name_spec(&self) -> Seq<char> {
        self.client_name@
    }

    /// Returns a builder for a client.
    pub fn builder() -> (r: ClientBuilder)
        ensures
            r.timeout_spec() == duration_of_millis(DEFAULT_TIMEOUT_MS),
            r.socket_spec() is None,
            r.token_spec() is None,
            r.client_name_spec() is None,
    {
        ClientBuilder::new()
    }

    /// Returns the per-request timeout of this client.
    pub fn timeout(&self) -> (r: Duration)
        ensures
            r == self.timeout_spec(),
    {
        self.timeout
    }

    /// Returns the IPC socket URI this client uses.
    pub fn socket_uri(&self) -> (r: &str)
        ensures
            r@ == self.socket_uri_spec(),
    {
        self.socket_uri.as_str()
    }

    /// Returns the token this client sends.
    pub fn token(&self) -> (r: &str)
        ensures
            r@ == self.token_spec(),
    {
        self.token.as_str()
    }

    /// Returns the name this client reports to KiCad.
    pub fn client_name(&self) -> (r: &str)
        ensures
            r@ == self.client_name_spec(),
    {
        self.client_name.as_str()
    }

    /// Replaces the token this client sends (KiCad hands out a token with
    /// its first response).
    pub fn set_token(&mut self, token: &str)
        ensures
            final(self).token_spec() == token@,
            final(self).timeout_spec() == old(self).timeout_spec(),
            final(self).socket_uri_spec() == old(self).socket_uri_spec(),
            final(self).client_name_spec() == old(self).client_name_spec(),
    {
        self.token = owned(token);
    }

    /// Returns the known PCB object types, in catalog order.
    pub fn pcb_object_type_codes() -> (r: Vec<PcbObjectTypeCode>)
        ensures
            is_object_type_catalog(r@),
    {
        pcb_object_types()
    }

    /// Resolves the name of a PCB object type code of the catalog.
    pub fn pcb_object_type_name(type_code: i32) -> (r: Option<&'static str>)
        ensures
            opt_str(r) == catalog_name(type_code),
    {
        catalog_object_type_name(type_code)
    }
}

} // verus!
