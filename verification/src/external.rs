use vstd::prelude::*;

verus! {

/// The HTTP client of `reqwest`; opaque to the proofs.
#[verifier::external_type_specification]
#[verifier::external_body]
pub struct ExHttpClient(reqwest::Client);

/// The builder of `reqwest` HTTP clients; opaque to the proofs.
#[verifier::external_type_specification]
#[verifier::external_body]
pub struct ExHttpClientBuilder(reqwest::ClientBuilder);

/// The error type of `reqwest`; opaque to the proofs.
#[verifier::external_type_specification]
#[verifier::external_body]
pub struct ExHttpError(reqwest::Error);

/// A notification connection to one rxqlite node; opaque to the proofs.
#[verifier::external_type_specification]
#[verifier::external_body]
pub struct ExNetStream(rxqlite_lite_common::NetStream);

/// `std::sync::Mutex`, which vstd does not specify; opaque to the proofs.
#[verifier::external_type_specification]
#[verifier::external_body]
#[verifier::reject_recursive_types(T)]
pub struct ExMutex<T: ?Sized>(std::sync::Mutex<T>);

/// Whether a `reqwest` builder is set to accept invalid server certificates
/// (its certificate verification is switched off).
pub uninterp spec fn builder_accepts_invalid_certs(builder: reqwest::ClientBuilder) -> bool;

/// Whether a `reqwest` builder builds its TLS setup with reqwest's own TLS
/// backend, rather than using one preconfigured by the caller
/// (`use_preconfigured_tls`).
pub uninterp spec fn builder_uses_own_tls(builder: reqwest::ClientBuilder) -> bool;

/// Whether a `reqwest` client accepts invalid server certificates (it was
/// built without certificate verification).
pub uninterp spec fn client_accepts_invalid_certs(client: reqwest::Client) -> bool;

/// `reqwest::ClientBuilder::new`: a builder with the default settings, which
/// build the TLS setup with reqwest's own backend and verify server
/// certificates. Nothing else is claimed of it.
pub assume_specification[ reqwest::ClientBuilder::new ]() -> (builder: reqwest::ClientBuilder)
    ensures
        builder_uses_own_tls(builder),
        !builder_accepts_invalid_certs(builder),
;

/// `reqwest::ClientBuilder::danger_accept_invalid_certs`: the same builder,
/// set to accept invalid server certificates exactly where the argument
/// says so; its TLS backend is left as it was. Nothing else is claimed of it.
pub assume_specification[ reqwest::ClientBuilder::danger_accept_invalid_certs ](
    builder: reqwest::ClientBuilder,
    accept_invalid_certs: bool,
) -> (r: reqwest::ClientBuilder)
    ensures
        builder_accepts_invalid_certs(r) == accept_invalid_certs,
        builder_uses_own_tls(r) == builder_uses_own_tls(builder),
;

/// `reqwest::ClientBuilder::build`: the HTTP client, or an error where the TLS
/// backend or the system's resolver configuration cannot be loaded. Which of
/// the two comes back depends on the machine, so that is left unsaid. Where
/// the builder uses reqwest's own TLS backend, a client that comes back
/// accepts invalid server certificates exactly as the builder was set to; a
/// preconfigured TLS setup keeps its own verifier, and nothing is claimed of
/// it.
pub assume_specification[ reqwest::ClientBuilder::build ](
    builder: reqwest::ClientBuilder,
) -> (r: reqwest::Result<reqwest::Client>)
    ensures
        builder_uses_own_tls(builder) ==> (r matches Ok(c) ==> client_accepts_invalid_certs(c)
            == builder_accepts_invalid_certs(builder)),
;

/// `std::sync::Mutex::new`: a lock holding `t`. The lock is opaque, so
/// nothing is claimed of it.
pub assume_specification<T>[ std::sync::Mutex::<T>::new ](t: T) -> std::sync::Mutex<T>;

} // verus!
