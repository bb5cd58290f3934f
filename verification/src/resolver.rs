//! From the settings of the environment to a tunnel provider and the
//! configuration of its connection.

use vstd::prelude::*;
use vstd::string::*;
use crate::provider::{TunnelProvider, provider_of_alias};
use crate::number::{bounded_decimal, parse_unsigned};
use crate::text::{text_of, copy_text};

verus! {

/// The port of an SSH server that names none.
pub const DEFAULT_SERVER_PORT: u16 = 22;

/// The remote port that is forwarded where none is named.
pub const DEFAULT_REMOTE_PORT: u32 = 80;

/// The address on which the server listens, and to which the tunnel forwards.
pub open spec fn local_address() -> Seq<char> {
    "127.0.0.1"@
}

/// The settings that the environment may hold, each as it was found there.
#[derive(Clone, Debug, PartialEq, Eq)]
pub struct TunnelEnv {
    /// The provider selector.
    pub provider: Option<String>,
    /// The SSH user name.
    pub user: Option<String>,
    /// The path of the SSH private key.
    pub key_path: Option<String>,
    /// The address of the SSH server.
    pub server: Option<String>,
    /// The port of the SSH server, as text.
    pub port: Option<String>,
    /// The SSH password.
    pub password: Option<String>,
    /// The remote port, as text.
    pub remote_port: Option<String>,
    /// The subdomain asked of the provider.
    pub tunnel_name: Option<String>,
}

/// What the tunnel client needs to connect and forward.
#[derive(Clone, Debug, PartialEq, Eq)]
pub struct TunnelConfig {
    pub server_addr: String,
    pub server_port: u16,
    pub username: String,
    pub key_path: Option<String>,
    pub password: Option<String>,
    pub bind_address: String,
    pub remote_port: u32,
    pub local_addr: String,
    pub local_port: u16,
}

/// A `TunnelConfig` as plain values.
pub struct TunnelConfigView {
    pub server_addr: Seq<char>,
    pub server_port: u16,
    pub username: Seq<char>,
    pub key_path: Option<Seq<char>>,
    pub password: Option<Seq<char>>,
    pub bind_address: Seq<char>,
    pub remote_port: u32,
    pub local_addr: Seq<char>,
    pub local_port: u16,
}

impl View for TunnelConfig {
    type V = TunnelConfigView;

    open spec fn view(&self) -> TunnelConfigView {
        TunnelConfigView {
            server_addr: self.server_addr@,
            server_port: self.server_port,
            username: self.username@,
            key_path: text_of(self.key_path),
            password: text_of(self.password),
            bind_address: self.bind_address@,
            remote_port: self.remote_port,
            local_addr: self.local_addr@,
            local_port: self.local_port,
        }
    }
}

/// The lower-case form of a text, as `str::to_lowercase` gives it.
pub uninterp spec fn lowercased(s: Seq<char>) -> Seq<char>;

/// Calls `str::to_lowercase`. Nothing is claimed of the result but that it
/// depends on the characters of `s` alone.
#[verifier::external_body]
fn to_lower(s: &str) -> (r: String)
    ensures
        r@ == lowercased(s@),
{
    s.to_lowercase()
}

/// The provider that the environment selects. A selector decides alone,
/// through the alias table; without one the provider is Pico where a key
/// path or a server address is set, and none otherwise.
pub open spec fn selected_provider(
    selector: Option<Seq<char>>,
    has_key: bool,
    has_server: bool,
) -> Option<TunnelProvider> {
    match selector {
        Some(lower) => provider_of_alias(lower),
        None => if has_key || has_server {
            Some(TunnelProvider::Pico)
        } else {
            None
        },
    }
}

/// The user name of the connection: the one that is set, else the
/// provider's own.
pub open spec fn resolved_username(provider: TunnelProvider, user: Option<Seq<char>>) -> Option<
    Seq<char>,
> {
    match user {
        Some(u) => Some(u),
        None => provider.spec_default_username(),
    }
}

/// The subdomain hint: the tunnel name for Pico, where one is set, and
/// empty otherwise.
pub open spec fn resolved_bind_address(provider: TunnelProvider, name: Option<Seq<char>>) -> Seq<
    char,
> {
    match (provider, name) {
        (TunnelProvider::Pico, Some(n)) => n,
        _ => Seq::<char>::empty(),
    }
}

/// The provider and configuration that `env` resolves to, given the
/// selector in lower case and the two ports as numbers, where they are set
/// and denote one.
pub open spec fn resolved(
    env: TunnelEnv,
    selector: Option<Seq<char>>,
    port: Option<u16>,
    remote_port: Option<u32>,
    local_port: u16,
) -> Option<(TunnelProvider, TunnelConfigView)> {
    match selected_provider(selector, env.key_path is Some, env.server is Some) {
        None => None,
        Some(provider) => match resolved_username(provider, text_of(env.user)) {
            None => None,
            Some(username) => Some(
                (
                    provider,
                    TunnelConfigView {
                        server_addr: match env.server {
                            Some(s) => s@,
                            None => provider.spec_default_server(),
                        },
                        server_port: match port {
                            Some(p) => p,
                            None => DEFAULT_SERVER_PORT,
                        },
                        username,
                        key_path: text_of(env.key_path),
                        password: text_of(env.password),
                        bind_address: resolved_bind_address(provider, text_of(env.tunnel_name)),
                        remote_port: match remote_port {
                            Some(p) => p,
                            None => DEFAULT_REMOTE_PORT,
                        },
                        local_addr: local_address(),
                        local_port,
                    },
                ),
            ),
        },
    }
}

/// The selector of `env` in lower case.
pub open spec fn selector_of(env: TunnelEnv) -> Option<Seq<char>> {
    match env.provider {
        Some(s) => Some(lowercased(s@)),
        None => None,
    }
}

/// The server port that `env` names: a decimal number that fits 16 bits.
pub open spec fn port_of(env: TunnelEnv) -> Option<u16> {
    match env.port {
        Some(s) => match bounded_decimal(s@, u16::MAX as u32) {
            Some(v) => Some(v as u16),
            None => None,
        },
        None => None,
    }
}

/// The remote port that `env` names: a decimal number that fits 32 bits.
pub open spec fn remote_port_of(env: TunnelEnv) -> Option<u32> {
    match env.remote_port {
        Some(s) => bounded_decimal(s@, u32::MAX),
        None => None,
    }
}

/// A resolution as plain values.
pub open spec fn resolution_view(r: Option<(TunnelProvider, TunnelConfig)>) -> Option<
    (TunnelProvider, TunnelConfigView),
> {
    match r {
        Some((p, c)) => Some((p, c@)),
        None => None,
    }
}

/// Resolves provider and configuration from settings whose selector was
/// put in lower case and whose ports were read as numbers.
pub fn resolve_parsed(
    env: &TunnelEnv,
    selector: &Option<String>,
    port: Option<u16>,
    remote_port: Option<u32>,
    local_port: u16,
) -> (r: Option<(TunnelProvider, TunnelConfig)>)
    ensures
        resolution_view(r) == resolved(*env, text_of(*selector), port, remote_port, local_port),
{
    let chosen = match selector {
        Some(lower) => TunnelProvider::from_alias(lower.as_str()),
        None => if env.key_path.is_some() || env.server.is_some() {
            Some(TunnelProvider::Pico)
        } else {
            None
        },
    };
    let provider = match chosen {
        Some(p) => p,
        None => {
            return None;
        },
    };
    let username = match &env.user {
        Some(u) => u.clone(),
        None => match provider.default_username() {
            Some(u) => String::from_str(u),
            None => {
                return None;
            },
        },
    };
    let bind_address = match (provider, &env.tunnel_name) {
        (TunnelProvider::Pico, Some(n)) => n.clone(),
        _ => String::new(),
    };
    let server_addr = match &env.server {
        Some(s) => s.clone(),
        None => String::from_str(provider.default_server()),
    };
    let config = TunnelConfig {
        server_addr,
        server_port: match port {
            Some(p) => p,
            None => DEFAULT_SERVER_PORT,
        },
        username,
        key_path: copy_text(&env.key_path),
        password: copy_text(&env.password),
        bind_address,
        remote_port: match remote_port {
            Some(p) => p,
            None => DEFAULT_REMOTE_PORT,
        },
        local_addr: String::from_str("127.0.0.1"),
        local_port,
    };
    Some((provider, config))
}

/// Resolves provider and configuration from the settings of the
/// environment. `None` means that the server runs without a tunnel.
pub fn resolve(env: &TunnelEnv, local_port: u16) -> (r: Option<(TunnelProvider, TunnelConfig)>)
    ensures
        resolution_view(r) == resolved(
            *env,
            selector_of(*env),
            port_of(*env),
            remote_port_of(*env),
            local_port,
        ),
{
    let selector = match &env.provider {
        Some(s) => Some(to_lower(s.as_str())),
        None => None,
    };
    let port = match &env.port {
        Some(s) => match parse_unsigned(s.as_str(), u16::MAX as u32) {
            Some(v) => Some(v as u16),
            None => None,
        },
        None => None,
    };
    let remote_port = match &env.remote_port {
        Some(s) => parse_unsigned(s.as_str(), u32::MAX),
        None => None,
    };
    resolve_parsed(env, &selector, port, remote_port, local_port)
}

/// With no selector, no key path and no server address the environment
/// selects no provider, and nothing is resolved: the server runs locally.
pub proof fn law_no_settings_no_tunnel(env: TunnelEnv, local_port: u16)
    requires
        env.provider is None,
        env.key_path is None,
        env.server is None,
    ensures
        resolved(env, selector_of(env), port_of(env), remote_port_of(env), local_port) is None,
{
}

/// With no selector, a key path alone selects Pico.
pub proof fn law_key_path_selects_pico(env: TunnelEnv, local_port: u16)
    requires
        env.provider is None,
        env.key_path is Some,
    ensures
        selected_provider(selector_of(env), env.key_path is Some, env.server is Some) == Some(
            TunnelProvider::Pico,
        ),
        env.user is Some ==> (resolved(
            env,
            selector_of(env),
            port_of(env),
            remote_port_of(env),
            local_port,
        ) matches Some(r) && r.0 == TunnelProvider::Pico && r.1.username == env.user->0@),
{
}

/// Where Pico is selected and no user name is set, nothing is resolved:
/// Pico has no user name of its own.
pub proof fn law_pico_needs_user(
    env: TunnelEnv,
    selector: Option<Seq<char>>,
    port: Option<u16>,
    remote_port: Option<u32>,
    local_port: u16,
)
    requires
        selected_provider(selector, env.key_path is Some, env.server is Some) == Some(
            TunnelProvider::Pico,
        ),
        env.user is None,
    ensures
        resolved(env, selector, port, remote_port, local_port) is None,
{
}

} // verus!
