use jimaku::bundle::CertificateRecord;
use jimaku::bundle::TlsConfigState;
use jimaku::hello::classify_alpn;
use jimaku::hello::parse_client_hello;
use jimaku::hello::ConnectionClass;
use jimaku::hello::HelloError;
use jimaku::lifecycle::LifecycleManager;
use jimaku::lifecycle::OrderState;
use jimaku::peek::classify_and_take;
use jimaku::peek::PeekStream;
use jimaku::server::plan_connection;
use jimaku::server::reaches_pipeline;
use jimaku::server::serving_mode;
use jimaku::server::ConnectionPlan;
use jimaku::server::ServingMode;

/// Builds the bytes of one TLS handshake record holding a ClientHello
/// with the given ALPN protocols and server name.
fn client_hello(alpn: &[&[u8]], sni: Option<&str>) -> Vec<u8> {
    let mut body = vec![3u8, 3];
    body.extend([0u8; 32]);
    body.push(0); // empty session id
    body.extend([0u8, 2, 0x13, 0x01]); // one cipher suite
    body.extend([1u8, 0]); // null compression
    let mut exts: Vec<u8> = Vec::new();
    if let Some(name) = sni {
        let n = name.as_bytes();
        let mut data = Vec::new();
        data.extend(((n.len() + 3) as u16).to_be_bytes());
        data.push(0); // host_name
        data.extend((n.len() as u16).to_be_bytes());
        data.extend(n);
        exts.extend(0u16.to_be_bytes());
        exts.extend((data.len() as u16).to_be_bytes());
        exts.extend(data);
    }
    if !alpn.is_empty() {
        let mut list = Vec::new();
        for p in alpn {
            list.push(p.len() as u8);
            list.extend(*p);
        }
        let mut data = Vec::new();
        data.extend((list.len() as u16).to_be_bytes());
        data.extend(list);
        exts.extend(16u16.to_be_bytes());
        exts.extend((data.len() as u16).to_be_bytes());
        exts.extend(data);
    }
    body.extend((exts.len() as u16).to_be_bytes());
    body.extend(exts);
    let mut hs = vec![1u8];
    hs.extend(&(body.len() as u32).to_be_bytes()[1..]);
    hs.extend(body);
    let mut rec = vec![22u8, 3, 1];
    rec.extend((hs.len() as u16).to_be_bytes());
    rec.extend(hs);
    rec
}

fn record(serial: u8, issued_at: u64, expires_at: u64) -> CertificateRecord {
    CertificateRecord {
        domains: vec!["example.test".to_string()],
        cert_chain: vec![serial, 1, 2, 3],
        private_key: vec![serial, 9, 8, 7],
        issued_at,
        expires_at,
    }
}

#[test]
fn probe_alpn_is_classified_as_probe() {
    let hello = client_hello(&[b"acme-tls/1"], Some("example.test"));
    let summary = parse_client_hello(&hello).unwrap();
    assert_eq!(summary.alpn, vec![b"acme-tls/1".to_vec()]);
    assert_eq!(summary.server_name, Some(b"example.test".to_vec()));
    assert_eq!(classify_alpn(&summary.alpn), ConnectionClass::Probe);
}

#[test]
fn ordinary_alpn_is_classified_as_ordinary() {
    let hello = client_hello(&[b"h2", b"http/1.1"], Some("example.test"));
    let summary = parse_client_hello(&hello).unwrap();
    assert_eq!(summary.alpn, vec![b"h2".to_vec(), b"http/1.1".to_vec()]);
    assert_eq!(classify_alpn(&summary.alpn), ConnectionClass::Ordinary);
}

#[test]
fn probe_among_other_protocols_is_still_a_probe() {
    let hello = client_hello(&[b"h2", b"acme-tls/1"], None);
    let summary = parse_client_hello(&hello).unwrap();
    assert_eq!(classify_alpn(&summary.alpn), ConnectionClass::Probe);
}

#[test]
fn missing_alpn_is_ordinary() {
    let hello = client_hello(&[], None);
    let summary = parse_client_hello(&hello).unwrap();
    assert!(summary.alpn.is_empty());
    assert_eq!(classify_alpn(&summary.alpn), ConnectionClass::Ordinary);
}

#[test]
fn plain_mode_serves_without_tls() {
    assert_eq!(serving_mode(false, 443), ServingMode::Plain);
    assert_eq!(serving_mode(true, 8080), ServingMode::Plain);
    assert_eq!(serving_mode(false, 80), ServingMode::Plain);
    assert_eq!(serving_mode(true, 443), ServingMode::Encrypted);
    // In plain mode every connection goes straight to the pipeline,
    // whatever its bytes look like: no TLS negotiation is attempted.
    let plan = plan_connection(ServingMode::Plain, b"GET / HTTP/1.1\r\n");
    assert_eq!(plan, ConnectionPlan::ServePlain);
    assert!(reaches_pipeline(&plan));
}

#[test]
fn probe_connection_terminates_without_reaching_pipeline() {
    // Encrypted mode, no certificate issued yet, an order pending
    // validation for the domain; a probe for it arrives.
    let mut manager = LifecycleManager::new(vec!["example.test".to_string()], 1000);
    manager.start_order();
    manager.challenge_ready();
    assert_eq!(manager.state, OrderState::ValidationPending);

    let mut tls = TlsConfigState::new();
    tls.install_challenge(&record(1, 0, 100));

    let hello = client_hello(&[b"acme-tls/1"], Some("example.test"));
    let plan = plan_connection(serving_mode(true, 443), &hello);
    assert_eq!(
        plan,
        ConnectionPlan::Terminate {
            class: ConnectionClass::Probe
        }
    );
    // The handshake uses the challenge bundle and the connection closes
    // without reaching the pipeline.
    let bundle = tls.select(ConnectionClass::Probe).unwrap();
    assert_eq!(bundle.alpn[0], b"acme-tls/1".to_vec());
    assert!(!reaches_pipeline(&plan));
}

#[test]
fn truncated_peek_rejects_only_that_connection() {
    let hello = client_hello(&[b"h2"], None);
    let plan = plan_connection(ServingMode::Encrypted, &hello[..4]);
    assert_eq!(
        plan,
        ConnectionPlan::Reject {
            error: HelloError::Truncated
        }
    );
    let plan = plan_connection(ServingMode::Encrypted, &hello[..hello.len() - 3]);
    assert_eq!(
        plan,
        ConnectionPlan::Reject {
            error: HelloError::Truncated
        }
    );
    // The next connection is handled as if nothing had happened.
    let plan = plan_connection(ServingMode::Encrypted, &hello);
    assert_eq!(
        plan,
        ConnectionPlan::Terminate {
            class: ConnectionClass::Ordinary
        }
    );
}

#[test]
fn garbage_bytes_are_not_tls() {
    let plan = plan_connection(ServingMode::Encrypted, b"GET / HTTP/1.1\r\nHost: x\r\n\r\n");
    assert_eq!(
        plan,
        ConnectionPlan::Reject {
            error: HelloError::NotTls
        }
    );
}

#[test]
fn peeking_consumes_nothing() {
    let hello = client_hello(&[b"acme-tls/1"], Some("example.test"));
    let mut stream = PeekStream::new();
    stream.feed(&hello);
    // The classifier peeks; the bytes handed to the handshake afterwards
    // are the full original sequence.
    let peeked = stream.peek();
    assert_eq!(peeked, hello);
    let (class, handshake_bytes) = classify_and_take(&mut stream);
    assert_eq!(class, Ok(ConnectionClass::Probe));
    assert_eq!(handshake_bytes, hello);
}

#[test]
fn peek_errors_surface_through_the_stream() {
    let mut stream = PeekStream::new();
    stream.feed(&[22, 3, 1]);
    let (class, bytes) = classify_and_take(&mut stream);
    assert_eq!(class, Err(HelloError::Truncated));
    assert_eq!(bytes, vec![22, 3, 1]);
}

#[test]
fn renewal_swaps_the_whole_bundle() {
    let r1 = record(1, 0, 1000);
    let r2 = record(2, 500, 2000);
    let mut tls = TlsConfigState::new();
    tls.install_default(&r1);
    {
        let b = tls.select(ConnectionClass::Ordinary).unwrap();
        assert_eq!(b.expires_at, 1000);
        assert_eq!(b.cert_chain, r1.cert_chain);
        assert_eq!(b.private_key, r1.private_key);
    }
    // Renewal completed before the first expiry: every connection
    // accepted afterwards observes the newer certificate, chain and key
    // together from the one record.
    tls.install_default(&r2);
    let b = tls.select(ConnectionClass::Ordinary).unwrap();
    assert_eq!(b.expires_at, 2000);
    assert_eq!(b.cert_chain, r2.cert_chain);
    assert_eq!(b.private_key, r2.private_key);
    assert_eq!(b.alpn, vec![b"h2".to_vec(), b"http/1.1".to_vec()]);
}

#[test]
fn no_default_bundle_before_first_issuance() {
    let tls = TlsConfigState::new();
    assert!(tls.select(ConnectionClass::Ordinary).is_none());
    assert!(tls.select(ConnectionClass::Probe).is_none());
}

#[test]
fn lifecycle_happy_path_and_dormancy() {
    let mut m = LifecycleManager::new(vec!["example.test".to_string()], 100);
    assert_eq!(m.state, OrderState::Idle);
    m.start_order();
    m.challenge_ready();
    m.validation_started();
    m.certificate_issued(2000);
    assert_eq!(m.state, OrderState::Issued);
    assert_eq!(m.cert_expiry, Some(2000));
    // Renewal invoked twice in immediate succession without an
    // intervening expiry: the manager stays dormant both times.
    m.tick(500);
    assert_eq!(m.state, OrderState::Issued);
    m.tick(500);
    assert_eq!(m.state, OrderState::Issued);
    // Once the threshold is reached, renewal becomes due and a new order
    // can start.
    m.tick(1950);
    assert_eq!(m.state, OrderState::RenewalDue);
    m.start_order();
    assert_eq!(m.state, OrderState::OrderRequested);
    assert_eq!(m.cert_expiry, Some(2000));
}

#[test]
fn lifecycle_failure_retries_and_keeps_the_certificate() {
    let mut m = LifecycleManager::new(vec!["example.test".to_string()], 100);
    m.start_order();
    m.challenge_ready();
    m.validation_started();
    m.certificate_issued(2000);
    m.tick(2000);
    m.start_order();
    m.order_failed();
    assert_eq!(m.state, OrderState::Failed);
    // The certificate already held keeps being served.
    assert_eq!(m.cert_expiry, Some(2000));
    m.backoff_elapsed();
    assert_eq!(m.state, OrderState::Idle);
}

#[test]
fn renewal_due_thresholds() {
    let mut m = LifecycleManager::new(vec!["example.test".to_string()], 100);
    assert!(!m.renewal_due(5000));
    m.start_order();
    m.challenge_ready();
    m.validation_started();
    m.certificate_issued(2000);
    assert!(!m.renewal_due(1899));
    assert!(m.renewal_due(1900));
    assert!(m.renewal_due(2000));
    assert!(m.renewal_due(3000));
}

#[test]
fn inconsistent_lengths_are_malformed() {
    // A handshake record whose ClientHello body is too short to hold the
    // fixed fields.
    let bytes = [22u8, 3, 1, 0, 6, 1, 0, 0, 2, 3, 3];
    let plan = plan_connection(ServingMode::Encrypted, &bytes);
    assert_eq!(
        plan,
        ConnectionPlan::Reject {
            error: HelloError::Malformed
        }
    );
}

#[test]
fn completing_an_order_publishes_the_new_bundle() {
    let mut m = LifecycleManager::new(vec!["example.test".to_string()], 100);
    let mut tls = TlsConfigState::new();
    m.start_order();
    m.challenge_ready();
    m.validation_started();
    m.complete_order(&mut tls, &record(7, 100, 3000));
    assert_eq!(m.state, OrderState::Issued);
    assert_eq!(m.cert_expiry, Some(3000));
    let b = tls.select(ConnectionClass::Ordinary).unwrap();
    assert_eq!(b.expires_at, 3000);
    assert_eq!(b.cert_chain, vec![7, 1, 2, 3]);
    assert_eq!(b.private_key, vec![7, 9, 8, 7]);
}
