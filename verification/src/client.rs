//! The client of an rxqlite cluster and its builder.
//!
//! The client keeps the node it was made for, the node it takes for the
//! leader, an HTTP client and the manager of its notification
//! subscriptions. Its requests are sent asynchronously by the caller, with
//! the decisions of `routing` and `reply`.
use vstd::prelude::*;
use std::sync::{Arc, Mutex};
use rxqlite_lite_common::NodeId;
use crate::notify::{NetStreamManager, fresh};
use crate::routing::{rpc_url, url_of};
use crate::external::client_accepts_invalid_certs;

verus! {

/// The TLS settings of a client: the certificates to trust and whether
/// invalid certificates are accepted.
pub struct ClientTlsConfig {
    /// Paths of the certificates to trust.
    pub cert_paths: Vec<String>,
    /// Whether invalid server certificates are accepted.
    pub accept_invalid_certificates: bool,
}

/// Why a client could not be made.
#[derive(Debug)]
pub enum ClientBuildError {
    /// The HTTP client could not be made (its TLS backend or the system's
    /// resolver configuration could not be loaded).
    HttpClient(reqwest::Error),
}

/// The settings that a builder collected.
pub struct BuilderView {
    /// The node that the client is made for.
    pub node_id: NodeId,
    /// The API address of that node.
    pub node_addr: Seq<char>,
    /// Whether requests use TLS.
    pub use_tls: bool,
    /// Whether invalid server certificates are accepted.
    pub accept_invalid_certificates: bool,
}

/// Whether the HTTP client of a client built with these settings accepts
/// invalid server certificates: only over TLS, and only where asked.
pub open spec fn http_accepts_invalid_certificates(b: BuilderView) -> bool {
    b.use_tls && b.accept_invalid_certificates
}

/// Collects the settings of a client.
pub struct RXQLiteClientBuilder {
    node_id: NodeId,
    node_addr: String,
    use_tls: bool,
    accept_invalid_certificates: bool,
}

impl View for RXQLiteClientBuilder {
    type V = BuilderView;

    closed spec fn view(&self) -> BuilderView {
        BuilderView {
            node_id: self.node_id,
            node_addr: self.node_addr@,
            use_tls: self.use_tls,
            accept_invalid_certificates: self.accept_invalid_certificates,
        }
    }
}

impl RXQLiteClientBuilder {
    /// A builder for a client of the node `node_id` at `node_addr`, without
    /// TLS.
    pub fn new(node_id: NodeId, node_addr: String) -> (r: Self)
        ensures
            r@ == (BuilderView { node_id, node_addr: node_addr@, use_tls: false, accept_invalid_certificates: false }),
    {
        RXQLiteClientBuilder { node_id, node_addr, use_tls: false, accept_invalid_certificates: false }
    }

    /// Takes the TLS settings: with some, TLS is used and invalid
    /// certificates are accepted as they say; with none, TLS is not used.
    pub fn tls_config(self, tls_config: Option<ClientTlsConfig>) -> (r: Self)
        ensures
            r@ == (match tls_config {
                Some(c) => BuilderView { use_tls: true, accept_invalid_certificates: c.accept_invalid_certificates, ..self@ },
                None => BuilderView { use_tls: false, accept_invalid_certificates: false, ..self@ },
            }),
    {
        let mut b = self;
        if let Some(tls_config) = tls_config {
            b.use_tls = true;
            b.accept_invalid_certificates = tls_config.accept_invalid_certificates;
        } else {
            b.use_tls = false;
            b.accept_invalid_certificates = false;
        }
        b
    }

    /// Sets whether TLS is used.
    pub fn use_tls(self, use_tls: bool) -> (r: Self)
        ensures
            r@ == (BuilderView { use_tls, ..self@ }),
    {
        let mut b = self;
        b.use_tls = use_tls;
        b
    }

    /// Sets whether invalid server certificates are accepted.
    pub fn accept_invalid_certificates(self, accept_invalid_certificates: bool) -> (r: Self)
        ensures
            r@ == (BuilderView { accept_invalid_certificates, ..self@ }),
    {
        let mut b = self;
        b.accept_invalid_certificates = accept_invalid_certificates;
        b
    }

    /// Whether the HTTP client that `build` makes accepts invalid server
    /// certificates.
    pub fn http_accepts_invalid_certificates(&self) -> (r: bool)
        ensures
            r == http_accepts_invalid_certificates(self@),
    {
        self.use_tls && self.accept_invalid_certificates
    }

    /// Makes the client: it uses TLS as set; its notification manager listens
    /// to nothing and connects with the builder's TLS settings; its HTTP
    /// client accepts invalid certificates exactly where
    /// `http_accepts_invalid_certificates` says so. Fails only where the HTTP
    /// client cannot be made. The locks `leader`
    /// and `node` are made holding the builder's node; the contract leaves
    /// that unsaid, as the contents of a `Mutex` are opaque to the proofs.
    pub fn build(self) -> (r: Result<RXQLiteClient, ClientBuildError>)
        ensures
            r matches Ok(c) ==> {
                &&& client_accepts_invalid_certs(c.http_client()) == http_accepts_invalid_certificates(self@)
                &&& c.tls_enabled() == self@.use_tls
                &&& c.notifications()@ == fresh(self@.use_tls, self@.accept_invalid_certificates)
                &&& c.notifications().wf()
            },
    {
        let accept_invalid = self.http_accepts_invalid_certificates();
        let mut http = reqwest::ClientBuilder::new();
        if accept_invalid {
            http = http.danger_accept_invalid_certs(true);
        }
        self.build_with_http_client(http.build())
    }

    /// Makes the client from the outcome of making its HTTP client: fails
    /// with that error where it is one; else the client carries that HTTP
    /// client, uses TLS as set, and its notification manager listens to
    /// nothing and connects with the builder's TLS settings. The locks `leader`
    /// and `node` are made holding the builder's node; the contract leaves
    /// that unsaid, as the contents of a `Mutex` are opaque to the proofs.
    pub fn build_with_http_client(self, http: Result<reqwest::Client, reqwest::Error>) -> (r: Result<RXQLiteClient, ClientBuildError>)
        ensures
            r is Ok <==> http is Ok,
            r matches Ok(c) ==> {
                &&& c.http_client() == http->Ok_0
                &&& c.tls_enabled() == self@.use_tls
                &&& c.notifications()@ == fresh(self@.use_tls, self@.accept_invalid_certificates)
                &&& c.notifications().wf()
            },
            r matches Err(ClientBuildError::HttpClient(e)) ==> http == Err::<reqwest::Client, reqwest::Error>(e),
    {
        let inner = match http {
            Ok(inner) => inner,
            Err(e) => {
                return Err(ClientBuildError::HttpClient(e));
            },
        };
        let use_tls = self.use_tls;
        let node = Arc::new(Mutex::new((self.node_id, self.node_addr.clone())));
        let leader = Arc::new(Mutex::new((self.node_id, self.node_addr)));
        Ok(RXQLiteClient {
            leader,
            node,
            inner,
            use_tls,
            notification_stream_manager: NetStreamManager::new(use_tls, self.accept_invalid_certificates),
        })
    }
}

/// A client of an rxqlite cluster.
pub struct RXQLiteClient {
    /// The node taken for the leader: all writes are sent to the leader.
    pub leader: Arc<Mutex<(NodeId, String)>>,
    /// The node that the client was made for; its metrics are read there.
    pub node: Arc<Mutex<(NodeId, String)>>,
    /// The HTTP client that carries the requests.
    pub inner: reqwest::Client,
    use_tls: bool,
    /// The notification subscriptions of the client.
    pub notification_stream_manager: NetStreamManager,
}

impl RXQLiteClient {
    /// Whether the client's requests use TLS.
    pub closed spec fn tls_enabled(&self) -> bool {
        self.use_tls
    }

    /// The HTTP client of the client.
    pub closed spec fn http_client(&self) -> reqwest::Client {
        self.inner
    }

    /// The notification manager of the client.
    pub closed spec fn notifications(&self) -> NetStreamManager {
        self.notification_stream_manager
    }

    /// A client of the node `node_id` at `node_addr`, without TLS, whose HTTP
    /// client verifies server certificates. Fails only where the HTTP client
    /// cannot be made. The locks `leader` and
    /// `node` are made holding that node; the contract leaves that unsaid, as
    /// the contents of a `Mutex` are opaque to the proofs.
    pub fn new(node_id: NodeId, node_addr: &str) -> (r: Result<Self, ClientBuildError>)
        ensures
            r matches Ok(c) ==> {
                &&& !client_accepts_invalid_certs(c.http_client())
                &&& !c.tls_enabled()
                &&& c.notifications()@ == fresh(false, false)
                &&& c.notifications().wf()
            },
    {
        Self::with_http_client(node_id, node_addr, reqwest::ClientBuilder::new().build())
    }

    /// A client of the node `node_id` at `node_addr`, without TLS, from the
    /// outcome of making its HTTP client: fails with that error where it is
    /// one, else carries that HTTP client. The locks `leader` and
    /// `node` are made holding that node; the contract leaves that unsaid, as
    /// the contents of a `Mutex` are opaque to the proofs.
    pub fn with_http_client(node_id: NodeId, node_addr: &str, http: Result<reqwest::Client, reqwest::Error>) -> (r: Result<Self, ClientBuildError>)
        ensures
            r is Ok <==> http is Ok,
            r matches Ok(c) ==> {
                &&& c.http_client() == http->Ok_0
                &&& !c.tls_enabled()
                &&& c.notifications()@ == fresh(false, false)
                &&& c.notifications().wf()
            },
            r matches Err(ClientBuildError::HttpClient(e)) ==> http == Err::<reqwest::Client, reqwest::Error>(e),
    {
        let inner = match http {
            Ok(inner) => inner,
            Err(e) => {
                return Err(ClientBuildError::HttpClient(e));
            },
        };
        Ok(RXQLiteClient {
            node: Arc::new(Mutex::new((node_id, node_addr.to_owned()))),
            leader: Arc::new(Mutex::new((node_id, node_addr.to_owned()))),
            inner,
            use_tls: false,
            notification_stream_manager: NetStreamManager::new(false, false),
        })
    }

    /// Whether the client's requests use TLS.
    pub fn uses_tls(&self) -> (r: bool)
        ensures
            r == self.tls_enabled(),
    {
        self.use_tls
    }

    /// The URL of `uri` on the node at `target_addr`, with the client's
    /// scheme.
    pub fn url_for(&self, target_addr: &str, uri: &str) -> (url: String)
        ensures
            url@ == url_of(self.tls_enabled(), target_addr@, uri@),
    {
        rpc_url(self.use_tls, target_addr, uri)
    }
}

} // verus!
