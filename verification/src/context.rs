//! What one invocation carries through every command.

use crate::colors::ColorScheme;
use crate::config_from_env::{layered_get, layered_token, EnvConfig};
use crate::error::{Error, ErrorKind};
use crate::iostreams::IoStreams;
use vstd::prelude::*;

verus! {

/// Where requests go and how they are authorised.
#[derive(Clone, Debug)]
pub struct Client {
    pub host: String,
    pub token: String,
}

/// The characters of a [`Client`].
pub struct ClientView {
    pub host: Seq<char>,
    pub token: Seq<char>,
}

impl View for Client {
    type V = ClientView;

    open spec fn view(&self) -> ClientView {
        ClientView { host: self.host@, token: self.token@ }
    }
}

/// The characters and kind of an [`Error`].
pub struct ErrorView {
    pub kind: ErrorKind,
    pub message: Seq<char>,
}

impl View for Error {
    type V = ErrorView;

    open spec fn view(&self) -> ErrorView {
        ErrorView { kind: self.kind, message: self.message@ }
    }
}

/// A configuration error that reads `message`.
pub open spec fn config_error(message: Seq<char>) -> ErrorView {
    ErrorView { kind: ErrorKind::Config, message }
}

/// An argument error that reads `message`.
pub open spec fn argument_error(message: Seq<char>) -> ErrorView {
    ErrorView { kind: ErrorKind::Argument, message }
}

/// An error of a running command that reads `message`.
pub open spec fn command_error(message: Seq<char>) -> ErrorView {
    ErrorView { kind: ErrorKind::Command, message }
}

/// The streams, the debug flag and the layered configuration of one
/// invocation.
pub struct Context {
    pub config: EnvConfig,
    pub io: IoStreams,
    pub debug: bool,
}

impl Context {
    /// The host of a client for `hostname`: `hostname` itself unless it is
    /// empty, in which case the layered `host` setting.
    pub open spec fn spec_host(&self, hostname: Seq<char>) -> Option<Seq<char>> {
        if hostname.len() > 0 {
            Some(hostname)
        } else {
            layered_get(self.config.env.vars@, self.config.config.settings@, "host"@)
        }
    }

    /// The client for requests to `hostname`, or the configuration error
    /// that says what is missing.
    pub open spec fn spec_api_client(&self, hostname: Seq<char>) -> Result<ClientView, ErrorView> {
        match self.spec_host(hostname) {
            None => Err(config_error("no host is configured"@)),
            Some(host) => match layered_token(
                self.config.env.vars@,
                self.config.config.settings@,
                self.config.config.hosts@,
                host,
            ) {
                None => Err(config_error("no token is configured for the host"@)),
                Some(token) => Ok(ClientView { host, token }),
            },
        }
    }

    /// The colour scheme of the streams.
    pub open spec fn color_scheme_spec(&self) -> ColorScheme {
        ColorScheme { enabled: self.io.color_enabled }
    }

    /// A context over `config` that writes to `io`, with debugging off.
    pub fn new(config: EnvConfig, io: IoStreams) -> (ctx: Context)
        ensures
            ctx.config == config,
            ctx.io == io,
            !ctx.debug,
    {
        Context { config, io, debug: false }
    }

    /// The client for requests to `hostname`; the default host where
    /// `hostname` is empty.
    pub fn api_client(&self, hostname: &str) -> (r: Result<Client, Error>)
        ensures
            result_view(r) == self.spec_api_client(hostname@),
    {
        let host = if hostname.is_empty() {
            match self.config.default_host() {
                Ok(host) => host,
                Err(e) => {
                    return Err(e);
                },
            }
        } else {
            String::from_str(hostname)
        };
        match self.config.token(host.as_str()) {
            Ok(token) => Ok(Client { host, token }),
            Err(e) => Err(e),
        }
    }

    /// The colour scheme of the streams.
    pub fn color_scheme(&self) -> (cs: ColorScheme)
        ensures
            cs == self.color_scheme_spec(),
    {
        ColorScheme::new(self.io.color_enabled)
    }
}

/// The view of a client or of the error in its place.
pub open spec fn result_view(r: Result<Client, Error>) -> Result<ClientView, ErrorView> {
    match r {
        Ok(c) => Ok(c@),
        Err(e) => Err(e@),
    }
}

} // verus!
