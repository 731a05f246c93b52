//! Everything a run settles before it touches the network: the trust anchors,
//! the target and the TLS settings.

use vstd::prelude::*;
use crate::connector::{parse_target, target_of, uri_parts_of, Target, TargetView};
use crate::error::ClientError;
use crate::tls::{
    alpn_protocols,
    client_auth_offered,
    configure_tls,
    early_data_enabled,
    h3_alpn,
    verifier_roots,
};
use crate::trust::{load_ca_cert, load_outcome, pem_certificates, AnchorView};

verus! {

/// What loading the bundle with these bytes comes to.
pub open spec fn loaded(bundle: Seq<u8>) -> Result<Seq<AnchorView>, ClientError> {
    load_outcome(pem_certificates(bundle))
}

/// What a run needs in order to connect.
#[derive(Debug)]
pub struct ClientSetup {
    pub tls: rustls::ClientConfig,
    pub target: Target,
}

/// Settles a run from the bytes of the CA bundle, `None` where the bundle
/// could not be read, and the text of the target URI.
///
/// An unreadable bundle is a `CertificateReadError`. A bundle that does not
/// load fails with its parse or trust error. Then a URI that names no target
/// is a `SchemeError`. When all of that is in order the run is settled: the
/// TLS settings are built for the anchors of the bundle. Nothing here touches
/// the network.
pub fn prepare(bundle: Option<Vec<u8>>, uri: &str, default_port: u16) -> (r: Result<
    ClientSetup,
    ClientError,
>)
    ensures
        bundle is None ==> r is Err && r->Err_0 == ClientError::CertificateReadError,
        bundle is Some && loaded(bundle->Some_0@) is Err ==> r is Err && r->Err_0 == loaded(
            bundle->Some_0@,
        )->Err_0,
        bundle is Some && loaded(bundle->Some_0@) is Ok && target_of(
            uri_parts_of(uri@),
            default_port,
        ) is Err ==> r is Err && r->Err_0 == target_of(uri_parts_of(uri@), default_port)->Err_0,
        bundle is Some && loaded(bundle->Some_0@) is Ok && target_of(
            uri_parts_of(uri@),
            default_port,
        ) is Ok ==> r is Ok,
        r is Ok ==> {
            &&& bundle is Some
            &&& loaded(bundle->Some_0@) == Ok::<Seq<AnchorView>, ClientError>(
                verifier_roots(r->Ok_0.tls),
            )
            &&& target_of(uri_parts_of(uri@), default_port) == Ok::<TargetView, ClientError>(
                r->Ok_0.target@,
            )
            &&& alpn_protocols(r->Ok_0.tls) == seq![h3_alpn()]
            &&& early_data_enabled(r->Ok_0.tls)
            &&& !client_auth_offered(r->Ok_0.tls)
        },
{
    let bytes = match bundle {
        Some(bytes) => bytes,
        None => {
            return Err(ClientError::CertificateReadError);
        },
    };
    let roots = match load_ca_cert(bytes.as_slice()) {
        Ok(roots) => roots,
        Err(e) => {
            return Err(e);
        },
    };
    let target = match parse_target(uri, default_port) {
        Ok(target) => target,
        Err(e) => {
            return Err(e);
        },
    };
    match configure_tls(roots) {
        Ok(tls) => Ok(ClientSetup { tls, target }),
        Err(e) => Err(e),
    }
}

} // verus!
