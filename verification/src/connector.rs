//! The transport connector's decisions: which target a URI names, which of
//! the resolved addresses to connect to, and under which server name.
//!
//! Only `https` URIs are accepted. The port is the one the URI gives, else the
//! default the caller passes. Of the candidate addresses the first is taken.
//! The handshake verifies the server under the host name of the URI, never
//! under the address it resolved to.

use vstd::prelude::*;
use crate::error::ClientError;

verus! {

/// The conventional port of `https`: the default to pass where the deployment
/// names no other.
pub const DEFAULT_PORT: u16 = 443;

/// What a URI is made of, as far as the connector reads it.
#[derive(Debug)]
pub struct UriParts {
    pub scheme: Option<String>,
    pub host: Option<String>,
    pub port: Option<u16>,
}

/// The mathematical model of `UriParts`.
pub struct UriPartsView {
    pub scheme: Option<Seq<char>>,
    pub host: Option<Seq<char>>,
    pub port: Option<u16>,
}

impl View for UriParts {
    type V = UriPartsView;

    open spec fn view(&self) -> UriPartsView {
        UriPartsView {
            scheme: match self.scheme {
                Some(s) => Some(s@),
                None => None,
            },
            host: match self.host {
                Some(h) => Some(h@),
                None => None,
            },
            port: self.port,
        }
    }
}

/// The parts that the `http` crate finds in a URI text: scheme, host and port
/// as `Uri::scheme_str`, `Uri::host` and `Uri::port_u16` give them, or `None`
/// where the text is no URI to it.
pub uninterp spec fn uri_parts_of(text: Seq<char>) -> Option<UriPartsView>;

/// Parses the text as an `http::Uri` and reads its scheme, host and port.
/// Trusted: the result is what `uri_parts_of` names.
#[verifier::external_body]
fn split_uri(text: &str) -> (parts: Option<UriParts>)
    ensures
        match parts {
            Some(p) => uri_parts_of(text@) == Some(p@),
            None => uri_parts_of(text@) is None,
        },
{
    match text.parse::<http::Uri>() {
        Ok(uri) => Some(
            UriParts {
                scheme: uri.scheme_str().map(|s| s.to_string()),
                host: uri.host().map(|h| h.to_string()),
                port: uri.port_u16(),
            },
        ),
        Err(_) => None,
    }
}

/// Where to connect: a host name and a port.
#[derive(Debug)]
pub struct Target {
    host: String,
    port: u16,
}

/// The mathematical model of a target.
pub struct TargetView {
    pub host: Seq<char>,
    pub port: u16,
}

impl View for Target {
    type V = TargetView;

    closed spec fn view(&self) -> TargetView {
        TargetView { host: self.host@, port: self.port }
    }
}

impl Target {
    pub fn host(&self) -> (h: &str)
        ensures
            h@ == self@.host,
    {
        self.host.as_str()
    }

    pub fn port(&self) -> (p: u16)
        ensures
            p == self@.port,
    {
        self.port
    }
}

/// The target that URI parts name: the host and the port of an `https` URI,
/// with the default port where the URI gives none. Anything else, a text that
/// is no URI included, is a `SchemeError`.
pub open spec fn target_of(parts: Option<UriPartsView>, default_port: u16) -> Result<
    TargetView,
    ClientError,
> {
    match parts {
        Some(p) => if p.scheme == Some("https"@) && p.host is Some {
            Ok(
                TargetView {
                    host: p.host->Some_0,
                    port: match p.port {
                        Some(port) => port,
                        None => default_port,
                    },
                },
            )
        } else {
            Err(ClientError::SchemeError)
        },
        None => Err(ClientError::SchemeError),
    }
}

/// Decides the target from the parts of a URI.
pub fn target_from_parts(parts: Option<UriParts>, default_port: u16) -> (r: Result<
    Target,
    ClientError,
>)
    ensures
        match r {
            Ok(target) => target_of(
                match parts {
                    Some(p) => Some(p@),
                    None => None,
                },
                default_port,
            ) == Ok::<TargetView, ClientError>(target@),
            Err(e) => target_of(
                match parts {
                    Some(p) => Some(p@),
                    None => None,
                },
                default_port,
            ) == Err::<TargetView, ClientError>(e),
        },
{
    let parts = match parts {
        Some(p) => p,
        None => {
            return Err(ClientError::SchemeError);
        },
    };
    let UriParts { scheme, host, port } = parts;
    let secure = match scheme {
        Some(s) => s == "https".to_owned(),
        None => false,
    };
    if !secure {
        return Err(ClientError::SchemeError);
    }
    match host {
        Some(host) => {
            let port = match port {
                Some(p) => p,
                None => default_port,
            };
            Ok(Target { host, port })
        },
        None => Err(ClientError::SchemeError),
    }
}

/// Decides the target from a URI text.
pub fn parse_target(uri: &str, default_port: u16) -> (r: Result<Target, ClientError>)
    ensures
        match r {
            Ok(target) => target_of(uri_parts_of(uri@), default_port) == Ok::<
                TargetView,
                ClientError,
            >(target@),
            Err(e) => target_of(uri_parts_of(uri@), default_port) == Err::<TargetView, ClientError>(
                e,
            ),
        },
{
    target_from_parts(split_uri(uri), default_port)
}

/// What the handshake is to be attempted with.
#[derive(Debug)]
pub struct ConnectRequest<A> {
    /// The address to connect to.
    pub address: A,
    /// The name the server's certificate must be valid for.
    pub server_name: String,
}

/// Picks the address to connect to from what the host resolved to: the first
/// candidate. With no candidate the resolution has failed. The server name is
/// the target's host name.
pub fn connect_request<A>(target: &Target, candidates: Vec<A>) -> (r: Result<
    ConnectRequest<A>,
    ClientError,
>)
    ensures
        candidates@.len() == 0 ==> r is Err && r->Err_0 == ClientError::ResolutionError,
        candidates@.len() > 0 ==> r is Ok && r->Ok_0.address == candidates@[0]
            && r->Ok_0.server_name@ == target@.host,
{
    let mut candidates = candidates;
    if candidates.len() == 0 {
        return Err(ClientError::ResolutionError);
    }
    let address = candidates.remove(0);
    Ok(ConnectRequest { address, server_name: target.host.clone() })
}

/// A URI whose scheme is not `https` names no target, whatever else it holds.
pub proof fn law_insecure_scheme_rejected(parts: UriPartsView, default_port: u16)
    requires
        parts.scheme != Some("https"@),
    ensures
        target_of(Some(parts), default_port) == Err::<TargetView, ClientError>(
            ClientError::SchemeError,
        ),
{
}

/// The port of a target is the URI's own where it has one, and the default
/// only where it has none.
pub proof fn law_port_choice(parts: UriPartsView, default_port: u16)
    requires
        target_of(Some(parts), default_port) is Ok,
    ensures
        parts.port is Some ==> target_of(Some(parts), default_port)->Ok_0.port
            == parts.port->Some_0,
        parts.port is None ==> target_of(Some(parts), default_port)->Ok_0.port == default_port,
        Some(target_of(Some(parts), default_port)->Ok_0.host) == parts.host,
{
}

} // verus!
