use rxqlite_client::{ClientBuildError, ClientTlsConfig, RXQLiteClient, RXQLiteClientBuilder};

#[test]
fn new_client_targets_its_node() {
    let client = RXQLiteClient::new(1, "127.0.0.1:21001").ok().unwrap();
    assert!(!client.uses_tls());
    assert_eq!(*client.leader.lock().unwrap(), (1, "127.0.0.1:21001".to_string()));
    assert_eq!(*client.node.lock().unwrap(), (1, "127.0.0.1:21001".to_string()));
    assert!(!client.notification_stream_manager.is_listening());
    assert_eq!(client.url_for("127.0.0.1:21001", "lite-cluster/metrics"), "http://127.0.0.1:21001/lite-cluster/metrics");
}

#[test]
fn builder_with_tls() {
    let client = RXQLiteClientBuilder::new(3, "10.0.0.3:21003".to_string())
        .use_tls(true)
        .accept_invalid_certificates(true)
        .build()
        .ok()
        .unwrap();
    assert!(client.uses_tls());
    assert!(client.notification_stream_manager.use_tls);
    assert!(client.notification_stream_manager.accept_invalid_certificates);
    assert_eq!(client.notification_stream_manager.connect_mode(), Some(true));
    assert_eq!(*client.leader.lock().unwrap(), (3, "10.0.0.3:21003".to_string()));
    assert_eq!(client.url_for("10.0.0.3:21003", "lite-api/sql"), "https://10.0.0.3:21003/lite-api/sql");
}

#[test]
fn builder_without_tls_keeps_the_acceptance_for_notifications() {
    let b = RXQLiteClientBuilder::new(1, "h:1".to_string()).accept_invalid_certificates(true);
    assert!(!b.http_accepts_invalid_certificates());
    let client = b.build().ok().unwrap();
    assert!(!client.uses_tls());
    assert!(!client.notification_stream_manager.use_tls);
    assert!(client.notification_stream_manager.accept_invalid_certificates);
    assert_eq!(client.notification_stream_manager.connect_mode(), None);
}

#[test]
fn tls_config_sets_and_resets_tls() {
    let cfg = ClientTlsConfig { cert_paths: vec![], accept_invalid_certificates: true };
    let b = RXQLiteClientBuilder::new(1, "h:1".to_string()).tls_config(Some(cfg));
    assert!(b.http_accepts_invalid_certificates());
    let b = b.tls_config(None);
    assert!(!b.http_accepts_invalid_certificates());
    let client = b.build().ok().unwrap();
    assert!(!client.uses_tls());
    assert!(!client.notification_stream_manager.accept_invalid_certificates);
    let cfg = ClientTlsConfig { cert_paths: vec!["ca.pem".to_string()], accept_invalid_certificates: false };
    let client = RXQLiteClientBuilder::new(1, "h:1".to_string()).tls_config(Some(cfg)).build().ok().unwrap();
    assert!(client.uses_tls());
    assert!(!client.notification_stream_manager.accept_invalid_certificates);
}

fn http_error() -> reqwest::Error {
    reqwest::Client::builder().build().unwrap().get("not a url").build().unwrap_err()
}

#[test]
fn builder_takes_the_http_client_outcome() {
    let http = reqwest::Client::builder().build();
    let client = RXQLiteClientBuilder::new(2, "h:2".to_string())
        .use_tls(true)
        .build_with_http_client(http)
        .ok()
        .unwrap();
    assert!(client.uses_tls());
    assert_eq!(*client.node.lock().unwrap(), (2, "h:2".to_string()));
    assert!(!client.notification_stream_manager.is_listening());
    let r = RXQLiteClientBuilder::new(2, "h:2".to_string()).build_with_http_client(Err(http_error()));
    assert!(matches!(r, Err(ClientBuildError::HttpClient(_))));
}

#[test]
fn new_client_takes_the_http_client_outcome() {
    let client = RXQLiteClient::with_http_client(4, "h:4", reqwest::Client::builder().build()).ok().unwrap();
    assert!(!client.uses_tls());
    assert_eq!(*client.leader.lock().unwrap(), (4, "h:4".to_string()));
    let r = RXQLiteClient::with_http_client(4, "h:4", Err(http_error()));
    assert!(matches!(r, Err(ClientBuildError::HttpClient(_))));
}
