use netmeter::model::{QualityLabel, TurnInfo};
use netmeter::turn_udp::{
    build_stun_binding_request, is_stun_binding_response, out_of_order_ppm, parse_host_port,
    pick_stun_target, quality_label, UdpProbeState, UrlError, DEFAULT_STUN_PORT,
};

fn sample_txid() -> Vec<u8> {
    (1u8..=12).collect()
}

fn valid_response(txid: &[u8]) -> Vec<u8> {
    let mut resp = build_stun_binding_request(txid);
    // binding success response: type 0x0101 instead of request type 0x0001
    resp[0] = 0x01;
    resp[1] = 0x01;
    resp
}

#[test]
fn request_frame_layout() {
    let txid = sample_txid();
    let pkt = build_stun_binding_request(&txid);
    assert_eq!(pkt.len(), 20);
    assert_eq!(&pkt[0..2], &[0x00, 0x01]);
    assert_eq!(&pkt[2..4], &[0x00, 0x00]);
    assert_eq!(&pkt[4..8], &[0x21, 0x12, 0xA4, 0x42]);
    assert_eq!(&pkt[8..20], txid.as_slice());
}

#[test]
fn matching_response_is_accepted() {
    let txid = sample_txid();
    let resp = valid_response(&txid);
    assert!(is_stun_binding_response(&resp, &txid));
    // extra trailing bytes (attributes) do not matter
    let mut longer = resp.clone();
    longer.extend_from_slice(&[0xAB; 30]);
    assert!(is_stun_binding_response(&longer, &txid));
}

#[test]
fn corrupted_responses_are_rejected() {
    let txid = sample_txid();
    let good = valid_response(&txid);
    // flipping any checked byte — type, cookie, or transaction id — rejects
    for i in [0usize, 1, 4, 5, 6, 7, 8, 9, 10, 11, 12, 13, 14, 15, 16, 17, 18, 19] {
        let mut bad = good.clone();
        bad[i] ^= 0x01;
        assert!(!is_stun_binding_response(&bad, &txid), "byte {i} flip accepted");
    }
}

#[test]
fn short_responses_are_rejected() {
    let txid = sample_txid();
    let good = valid_response(&txid);
    for len in 0..20 {
        assert!(!is_stun_binding_response(&good[..len], &txid), "length {len} accepted");
    }
}

#[test]
fn request_type_is_not_a_response() {
    let txid = sample_txid();
    let pkt = build_stun_binding_request(&txid);
    assert!(!is_stun_binding_response(&pkt, &txid));
}

#[test]
fn stun_urls_are_preferred() {
    let turn = TurnInfo {
        urls: vec![
            "turn:relay.example.org:3478?transport=udp".to_string(),
            "stun:stun.example.org:3478".to_string(),
            "stun:other.example.org".to_string(),
        ],
        username: None,
        credential: None,
    };
    assert_eq!(pick_stun_target(&turn), Some("stun:stun.example.org:3478".to_string()));
}

#[test]
fn turn_urls_are_the_fallback() {
    let turn = TurnInfo {
        urls: vec![
            "https://example.org".to_string(),
            "turn:relay.example.org:3478?transport=udp".to_string(),
        ],
        username: Some("user".to_string()),
        credential: Some("secret".to_string()),
    };
    assert_eq!(
        pick_stun_target(&turn),
        Some("turn:relay.example.org:3478?transport=udp".to_string())
    );
    let empty = TurnInfo { urls: vec![], username: None, credential: None };
    assert_eq!(pick_stun_target(&empty), None);
    let no_match = TurnInfo {
        urls: vec!["https://example.org".to_string()],
        username: None,
        credential: None,
    };
    assert_eq!(pick_stun_target(&no_match), None);
}

#[test]
fn host_and_port_are_split() {
    let (host, port) = parse_host_port("stun:stun.example.org:1234").unwrap();
    assert_eq!(host, "stun.example.org");
    assert_eq!(port, 1234);
}

#[test]
fn missing_port_defaults() {
    let (host, port) = parse_host_port("stun:stun.example.org").unwrap();
    assert_eq!(host, "stun.example.org");
    assert_eq!(port, DEFAULT_STUN_PORT);
    assert_eq!(port, 3478);
}

#[test]
fn query_string_is_ignored() {
    let (host, port) = parse_host_port("turn:relay.example.org:5349?transport=udp").unwrap();
    assert_eq!(host, "relay.example.org");
    assert_eq!(port, 5349);
    let (host, port) = parse_host_port("turn:relay.example.org?transport=udp").unwrap();
    assert_eq!(host, "relay.example.org");
    assert_eq!(port, 3478);
}

#[test]
fn bad_urls_are_rejected() {
    assert_eq!(parse_host_port("no-scheme-here"), Err(UrlError::MissingScheme));
    assert_eq!(parse_host_port(""), Err(UrlError::MissingScheme));
    assert_eq!(parse_host_port("stun:"), Err(UrlError::EmptyHost));
    assert_eq!(parse_host_port("stun::3478"), Err(UrlError::EmptyHost));
    // an empty port string falls back to the default, as split_once does
    assert_eq!(parse_host_port("stun:host:"), Ok(("host".to_string(), 3478)));
    assert_eq!(parse_host_port("stun:host:abc"), Err(UrlError::InvalidPort));
    assert_eq!(parse_host_port("stun:host:70000"), Err(UrlError::InvalidPort));
    assert_eq!(parse_host_port("stun:host:12x"), Err(UrlError::InvalidPort));
}

#[test]
fn port_accepts_leading_plus_like_std() {
    // mirrors str::parse::<u16>, which accepts one leading '+'
    assert_eq!(parse_host_port("stun:host:+80"), Ok(("host".to_string(), 80)));
    assert_eq!(parse_host_port("stun:host:+"), Err(UrlError::InvalidPort));
    assert_eq!("+80".parse::<u16>(), Ok(80));
}

#[test]
fn quality_labels_follow_loss_thresholds() {
    assert_eq!(quality_label(0), QualityLabel::Excellent);
    assert_eq!(quality_label(1), QualityLabel::Good);
    assert_eq!(quality_label(9_999), QualityLabel::Good);
    assert_eq!(quality_label(10_000), QualityLabel::Acceptable);
    assert_eq!(quality_label(24_999), QualityLabel::Acceptable);
    assert_eq!(quality_label(25_000), QualityLabel::Poor);
    assert_eq!(quality_label(49_999), QualityLabel::Poor);
    assert_eq!(quality_label(50_000), QualityLabel::Bad);
    assert_eq!(quality_label(1_000_000), QualityLabel::Bad);
    assert_eq!(quality_label(0).text(), "Excellent");
    assert_eq!(quality_label(50_000).text(), "Bad");
}

#[test]
fn probe_attempts_draw_fresh_transaction_ids() {
    let mut probe = UdpProbeState::new();
    let (txid1, pkt1) = probe.begin_attempt();
    let (txid2, pkt2) = probe.begin_attempt();
    assert_eq!(txid1.len(), 12);
    assert_eq!(pkt1.len(), 20);
    assert_eq!(&pkt1[8..20], txid1.as_slice());
    assert_eq!(&pkt2[8..20], txid2.as_slice());
    assert_eq!(&pkt1[0..8], &[0x00, 0x01, 0x00, 0x00, 0x21, 0x12, 0xA4, 0x42]);
    assert_eq!(probe.sent_count(), 2);
    assert_eq!(probe.received_count(), 0);
}

#[test]
fn in_order_responses_are_not_reordered() {
    let mut probe = UdpProbeState::new();
    for i in 0..5u64 {
        let (txid, _pkt) = probe.begin_attempt();
        probe.record_valid_response(&txid, 10_000 + i);
    }
    assert_eq!(probe.sent_count(), 5);
    assert_eq!(probe.received_count(), 5);
    assert_eq!(probe.out_of_order_count(), 0);
}

#[test]
fn late_responses_count_as_out_of_order() {
    let mut probe = UdpProbeState::new();
    let (txid1, _) = probe.begin_attempt(); // seq 1
    let (txid2, _) = probe.begin_attempt(); // seq 2
    let (txid3, _) = probe.begin_attempt(); // seq 3
    // seq 2 answers first: next_expected becomes 3
    probe.record_valid_response(&txid2, 20_000);
    assert_eq!(probe.out_of_order_count(), 0);
    // seq 1 answers after seq 2: out of order
    probe.record_valid_response(&txid1, 30_000);
    assert_eq!(probe.out_of_order_count(), 1);
    // seq 3 in order again
    probe.record_valid_response(&txid3, 25_000);
    assert_eq!(probe.out_of_order_count(), 1);
    assert_eq!(probe.received_count(), 3);
}

#[test]
fn out_of_order_share_is_per_received() {
    assert_eq!(out_of_order_ppm(0, 0), 0);
    assert_eq!(out_of_order_ppm(0, 10), 0);
    assert_eq!(out_of_order_ppm(1, 4), 250_000);
    assert_eq!(out_of_order_ppm(5, 5), 1_000_000);
}

#[test]
fn summary_combines_counts_loss_and_quality() {
    let mut probe = UdpProbeState::new();
    let mut answered: Vec<Vec<u8>> = Vec::new();
    for _ in 0..4 {
        let (txid, _) = probe.begin_attempt();
        answered.push(txid);
    }
    // answer three of four: 25% loss
    probe.record_valid_response(&answered[0], 10_000);
    probe.record_valid_response(&answered[1], 20_000);
    probe.record_valid_response(&answered[2], 30_000);
    let summary = probe.summarize(Some("stun:host".to_string()), Some(5_000), None);
    assert_eq!(summary.target, Some("stun:host".to_string()));
    assert_eq!(summary.latency.sent, 4);
    assert_eq!(summary.latency.received, 3);
    assert_eq!(summary.latency.loss_ppm, 250_000);
    assert_eq!(summary.latency.min_us, Some(10_000));
    assert_eq!(summary.latency.max_us, Some(30_000));
    assert_eq!(summary.latency.jitter_us, Some(5_000));
    assert_eq!(summary.out_of_order, 0);
    assert_eq!(summary.out_of_order_ppm, 0);
    assert_eq!(summary.mos_micro, None);
    // 25% loss is past every threshold: Bad
    assert_eq!(summary.quality, QualityLabel::Bad);
}
