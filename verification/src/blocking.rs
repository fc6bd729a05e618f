//! The builder of the blocking client, which runs the client's requests on a
//! runtime thread of its own.

use vstd::prelude::*;
use std::time::Duration;
use crate::client::config::{duration_of_millis, ClientBuilder, DEFAULT_TIMEOUT_MS};

verus! {

/// Builder for the blocking client: the settings of the client it wraps.
#[derive(Clone, Debug)]
pub struct KiCadClientBlockingBuilder {
    inner: ClientBuilder,
}

impl KiCadClientBlockingBuilder {
    /// The settings of the wrapped client's builder.
    pub closed spec fn inner_spec(&self) -> ClientBuilder {
        self.inner
    }

    /// Creates a blocking client builder with the default settings.
    pub fn new() -> (r: Self)
        ensures
            r.inner_spec().timeout_spec() == duration_of_millis(DEFAULT_TIMEOUT_MS),
            r.inner_spec().socket_spec() is None,
            r.inner_spec().token_spec() is None,
            r.inner_spec().client_name_spec() is None,
    {
        KiCadClientBlockingBuilder { inner: ClientBuilder::new() }
    }

    /// Sets the IPC timeout of the wrapped client.
    pub fn timeout(self, timeout: Duration) -> (r: Self)
        ensures
            r.inner_spec().timeout_spec() == timeout,
            r.inner_spec().socket_spec() == self.inner_spec().socket_spec(),
            r.inner_spec().token_spec() == self.inner_spec().token_spec(),
            r.inner_spec().client_name_spec() == self.inner_spec().client_name_spec(),
    {
        KiCadClientBlockingBuilder { inner: self.inner.timeout(timeout) }
    }

    /// Sets the KiCad IPC socket path or URI.
    pub fn socket_path(self, socket_path: &str) -> (r: Self)
        ensures
            r.inner_spec().timeout_spec() == self.inner_spec().timeout_spec(),
            r.inner_spec().socket_spec() == Some(socket_path@),
            r.inner_spec().token_spec() == self.inner_spec().token_spec(),
            r.inner_spec().client_name_spec() == self.inner_spec().client_name_spec(),
    {
        KiCadClientBlockingBuilder { inner: self.inner.socket_path(socket_path) }
    }

    /// Sets the authentication token sent to KiCad.
    pub fn token(self, token: &str) -> (r: Self)
        ensures
            r.inner_spec().timeout_spec() == self.inner_spec().timeout_spec(),
            r.inner_spec().socket_spec() == self.inner_spec().socket_spec(),
            r.inner_spec().token_spec() == Some(token@),
            r.inner_spec().client_name_spec() == self.inner_spec().client_name_spec(),
    {
        KiCadClientBlockingBuilder { inner: self.inner.token(token) }
    }

    /// Sets the client name sent to KiCad.
    pub fn client_name(self, client_name: &str) -> (r: Self)
        ensures
            r.inner_spec().timeout_spec() == self.inner_spec().timeout_spec(),
            r.inner_spec().socket_spec() == self.inner_spec().socket_spec(),
            r.inner_spec().token_spec() == self.inner_spec().token_spec(),
            r.inner_spec().client_name_spec() == Some(client_name@),
    {
        KiCadClientBlockingBuilder { inner: self.inner.client_name(client_name) }
    }

    /// The builder of the wrapped client.
    pub fn into_inner(self) -> (r: ClientBuilder)
        ensures
            r == self.inner_spec(),
    {
        self.inner
    }
}

impl Default for KiCadClientBlockingBuilder {
    fn default() -> (r: Self)
        ensures
            r.inner_spec().timeout_spec() == duration_of_millis(DEFAULT_TIMEOUT_MS),
            r.inner_spec().socket_spec() is None,
            r.inner_spec().token_spec() is None,
            r.inner_spec().client_name_spec() is None,
    {
        Self::new()
    }
}

} // verus!
