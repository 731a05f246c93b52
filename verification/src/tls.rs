//! The client's TLS settings: the given trust anchors, no client
//! certificate, early data on, and HTTP/3 as the one ALPN protocol.

use vstd::prelude::*;
use crate::error::ClientError;
use crate::trust::{trusted_roots, AnchorView};

verus! {

/// rustls's client configuration. Opaque here: what the contracts need of it
/// is named below.
#[verifier::external_type_specification]
#[verifier::external_body]
pub struct ExClientConfig(rustls::ClientConfig);

/// The ALPN protocols a configuration offers: its field `alpn_protocols`.
pub uninterp spec fn alpn_protocols(config: rustls::ClientConfig) -> Seq<Seq<u8>>;

/// Whether a configuration sends early data: its field `enable_early_data`.
pub uninterp spec fn early_data_enabled(config: rustls::ClientConfig) -> bool;

/// Whether a configuration has a client certificate to offer: what its field
/// `client_auth_cert_resolver` answers to `has_certs`.
pub uninterp spec fn client_auth_offered(config: rustls::ClientConfig) -> bool;

/// The trust anchors that a configuration's server verifier was made with.
pub uninterp spec fn verifier_roots(config: rustls::ClientConfig) -> Seq<AnchorView>;

/// The ALPN identifier of HTTP/3: the two bytes of "h3".
pub open spec fn h3_alpn() -> Seq<u8> {
    seq![0x68u8, 0x33u8]
}

/// Calls `ClientConfig::builder_with_provider` with ring's default provider,
/// then `with_safe_default_protocol_versions`, `with_root_certificates` and
/// `with_no_client_auth`. Trusted: the call succeeds, since ring's default
/// provider has TLS 1.3 cipher suites and key-exchange groups that serve
/// every suite it has, which is all that the default protocol versions ask;
/// and the configuration verifies servers against the given anchors, offers
/// no client certificate and no ALPN protocol, and has early data off.
#[verifier::external_body]
fn new_client_config(roots: rustls::RootCertStore) -> (r: Result<
    rustls::ClientConfig,
    rustls::Error,
>)
    ensures
        r is Ok,
        verifier_roots(r->Ok_0) == trusted_roots(roots),
        !client_auth_offered(r->Ok_0),
        alpn_protocols(r->Ok_0) == Seq::<Seq<u8>>::empty(),
        !early_data_enabled(r->Ok_0),
{
    let provider = std::sync::Arc::new(rustls::crypto::ring::default_provider());
    Ok(
        rustls::ClientConfig::builder_with_provider(provider)
            .with_safe_default_protocol_versions()?
            .with_root_certificates(roots)
            .with_no_client_auth(),
    )
}

/// Sets the field `enable_early_data`. Trusted: the field has the given value
/// afterwards and nothing else that is named here has changed.
#[verifier::external_body]
fn set_early_data(config: &mut rustls::ClientConfig, enabled: bool)
    ensures
        early_data_enabled(*final(config)) == enabled,
        alpn_protocols(*final(config)) == alpn_protocols(*old(config)),
        client_auth_offered(*final(config)) == client_auth_offered(*old(config)),
        verifier_roots(*final(config)) == verifier_roots(*old(config)),
{
    config.enable_early_data = enabled;
}

/// Appends to the field `alpn_protocols`. Trusted: the protocol is the last
/// one offered afterwards and nothing else that is named here has changed.
#[verifier::external_body]
fn push_alpn_protocol(config: &mut rustls::ClientConfig, protocol: Vec<u8>)
    ensures
        alpn_protocols(*final(config)) == alpn_protocols(*old(config)).push(protocol@),
        early_data_enabled(*final(config)) == early_data_enabled(*old(config)),
        client_auth_offered(*final(config)) == client_auth_offered(*old(config)),
        verifier_roots(*final(config)) == verifier_roots(*old(config)),
{
    config.alpn_protocols.push(protocol);
}

/// The bytes of the HTTP/3 ALPN identifier.
pub fn alpn_identifier() -> (id: Vec<u8>)
    ensures
        id@ == h3_alpn(),
{
    let mut id: Vec<u8> = Vec::new();
    id.push(0x68u8);
    id.push(0x33u8);
    id
}

/// Turns a freshly built configuration into the client's: early data on, and
/// the HTTP/3 identifier appended to the ALPN protocols. A configuration that
/// could not be built is reported as `TlsConfigError`.
pub fn finish_tls_config(built: Result<rustls::ClientConfig, rustls::Error>) -> (r: Result<
    rustls::ClientConfig,
    ClientError,
>)
    ensures
        built is Err ==> r is Err && r->Err_0 == ClientError::TlsConfigError,
        built matches Ok(base) ==> r matches Ok(config) && {
            &&& alpn_protocols(config) == alpn_protocols(base).push(h3_alpn())
            &&& early_data_enabled(config)
            &&& client_auth_offered(config) == client_auth_offered(base)
            &&& verifier_roots(config) == verifier_roots(base)
        },
{
    match built {
        Ok(base) => {
            let mut config = base;
            set_early_data(&mut config, true);
            push_alpn_protocol(&mut config, alpn_identifier());
            Ok(config)
        },
        Err(_) => Err(ClientError::TlsConfigError),
    }
}

/// Builds the client's TLS settings from a root store, and succeeds for every
/// store, an empty one too: servers are verified against exactly the given
/// anchors, no client certificate is offered, early data is on, and HTTP/3 is
/// the one ALPN protocol.
pub fn configure_tls(roots: rustls::RootCertStore) -> (r: Result<rustls::ClientConfig, ClientError>)
    ensures
        r is Ok,
        verifier_roots(r->Ok_0) == trusted_roots(roots),
        !client_auth_offered(r->Ok_0),
        alpn_protocols(r->Ok_0) == seq![h3_alpn()],
        early_data_enabled(r->Ok_0),
{
    let built = new_client_config(roots);
    let r = finish_tls_config(built);
    proof {
        assert(Seq::<Seq<u8>>::empty().push(h3_alpn()) == seq![h3_alpn()]);
    }
    r
}

} // verus!
