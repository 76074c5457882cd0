//! Tests of the digest engine, the proof-of-work engine, the server's
//! session state machine and the client's nonce search.

use pow::client::solve;
use pow::hash::digest;
use pow::message::{Request, Solution};
use pow::pow::{PoW, PoWConfig};
use pow::server::{resolve_index, ServerState};

#[test]
fn digest_is_deterministic() {
    let data = b"determinism check".to_vec();
    let first = digest(&data);
    let second = digest(&data);
    assert_eq!(first, second);
}

#[test]
fn digest_known_answers() {
    assert_eq!(digest(&[]), 0x7e42f8ec980980e904b2008fd98c1dd4u128);
    assert_eq!(digest(b"abc"), 0x727fe1287d3f96d6b04fd23c98500190u128);
    assert_eq!(digest(b"hello world"), 0xc3cd5a8fbb22cb93d0ee1ee0bb3bb65eu128);
    let bytes: Vec<u8> = (0u8..100).collect();
    assert_eq!(digest(&bytes), 0x5e94423200167a6ecbcfa4841addce7au128);
}

#[test]
fn digest_padding_boundaries() {
    // 55 bytes: the padding fits in the same chunk; 56 and 64 force a second.
    assert_eq!(digest(&[b'a'; 55]), 0x65dfd04a9552853522a1f9dfb67217efu128);
    assert_eq!(digest(&[b'a'; 56]), 0x1872d10670196c4cb028f803c78a0c3bu128);
    assert_eq!(digest(&[b'a'; 64]), 0x67733f7963034a5a4971b580d4424801u128);
}

#[test]
fn target_of_difficulty() {
    let p0 = PoW::new(&PoWConfig { length: 4, zeroes: 0 });
    assert_eq!(p0.target(), u128::MAX);
    let p1 = PoW::new(&PoWConfig { length: 4, zeroes: 1 });
    assert_eq!(p1.target(), u128::MAX >> 1);
    let p8 = PoW::new(&PoWConfig { length: 4, zeroes: 8 });
    assert_eq!(p8.target(), u128::MAX >> 8);
    let p128 = PoW::new(&PoWConfig { length: 4, zeroes: 128 });
    assert_eq!(p128.target(), 0);
    let p200 = PoW::new(&PoWConfig { length: 4, zeroes: 200 });
    assert_eq!(p200.target(), 0);
    // monotone: each is no larger than the previous
    assert!(p0.target() >= p1.target());
    assert!(p1.target() >= p8.target());
    assert!(p8.target() >= p128.target());
}

#[test]
fn challenge_has_requested_length() {
    let p = PoW::new(&PoWConfig { length: 19, zeroes: 3 });
    assert_eq!(p.challenge().len(), 19);
    // the copy is stable across calls
    assert_eq!(p.challenge(), p.challenge());
    let _ = p.elapsed();
}

#[test]
fn verify_matches_digest_check() {
    let p = PoW::new(&PoWConfig { length: 8, zeroes: 4 });
    for nonce in [0u128, 1, 42, u128::MAX] {
        let mut buf = p.challenge();
        buf.extend_from_slice(&nonce.to_le_bytes());
        let expected = digest(&buf) <= p.target();
        assert_eq!(p.verify(nonce), expected);
        // repeatable: the stored challenge was not disturbed
        assert_eq!(p.verify(nonce), expected);
    }
}

#[test]
fn zero_difficulty_first_nonce_wins() {
    let p = PoW::new(&PoWConfig { length: 8, zeroes: 0 });
    assert!(p.verify(0));
}

#[test]
fn session_ids_are_sequential() {
    let mut st = ServerState::new();
    let conf = PoWConfig { length: 8, zeroes: 0 };
    for expected in 0u32..5 {
        let ch = st.handle_request(&Request { number: None }, &conf);
        assert_eq!(ch.session, expected);
        assert_eq!(ch.string.len(), 8);
        assert_eq!(ch.target, u128::MAX);
    }
}

#[test]
fn zero_difficulty_round() {
    let mut st = ServerState::new();
    let conf = PoWConfig { length: 8, zeroes: 0 };
    let ch = st.handle_request(&Request { number: None }, &conf);
    assert_eq!(ch.session, 0);
    assert_eq!(ch.target, u128::MAX);
    let quotes = vec![String::from("the only quote")];
    let (resp, keep) = st.handle_solution(&Solution { session: 0, nonce: 0 }, &quotes);
    assert!(keep);
    assert_eq!(resp.session, 0);
    assert_eq!(resp.result, Ok(String::from("the only quote")));
}

#[test]
fn unknown_session_is_fatal() {
    let st = ServerState::new();
    let quotes = vec![String::from("unused")];
    let (resp, keep) = st.handle_solution(&Solution { session: 42, nonce: 0 }, &quotes);
    assert!(!keep);
    assert_eq!(resp.session, 42);
    assert_eq!(resp.result, Err(String::from("session not found")));
}

#[test]
fn invalid_solution_keeps_connection() {
    let mut st = ServerState::new();
    let conf = PoWConfig { length: 8, zeroes: 128 };
    let ch = st.handle_request(&Request { number: Some(0) }, &conf);
    assert_eq!(ch.target, 0);
    let quotes = vec![String::from("unreachable")];
    // with target 0 practically no nonce passes the digest check
    let (resp, keep) = st.handle_solution(&Solution { session: 0, nonce: 7 }, &quotes);
    assert!(keep);
    assert_eq!(resp.session, 0);
    assert_eq!(resp.result, Err(String::from("provided solution is invalid")));
}

#[test]
fn requested_index_wraps_modulo() {
    let mut st = ServerState::new();
    let conf = PoWConfig { length: 8, zeroes: 0 };
    st.handle_request(&Request { number: Some(7) }, &conf);
    let quotes = vec![
        String::from("first"),
        String::from("second"),
        String::from("third"),
    ];
    // 7 % 3 == 1
    let (resp, keep) = st.handle_solution(&Solution { session: 0, nonce: 99 }, &quotes);
    assert!(keep);
    assert_eq!(resp.result, Ok(String::from("second")));
}

#[test]
fn resolve_index_prefers_request() {
    assert_eq!(resolve_index(Some(10), 3, 4), 2);
    assert_eq!(resolve_index(None, 3, 4), 3);
    assert_eq!(resolve_index(None, 9, 4), 1);
}

#[test]
fn brute_force_finds_nonce_at_difficulty_eight() {
    let mut st = ServerState::new();
    let conf = PoWConfig { length: 8, zeroes: 8 };
    let ch = st.handle_request(&Request { number: Some(0) }, &conf);
    let found = solve(&ch.string, ch.target, 0, 1, 1_000_000);
    let nonce = found.expect("a difficulty-8 puzzle must fall within a million attempts");
    let quotes = vec![String::from("hard-won quote")];
    let (resp, keep) = st.handle_solution(&Solution { session: 0, nonce }, &quotes);
    assert!(keep);
    assert_eq!(resp.result, Ok(String::from("hard-won quote")));
}

#[test]
fn solve_respects_residue_class() {
    let challenge = vec![1u8, 2, 3, 4];
    if let Some(n) = solve(&challenge, u128::MAX >> 4, 3, 5, 10_000) {
        assert_eq!((n - 3) % 5, 0);
        let mut buf = challenge.clone();
        buf.extend_from_slice(&n.to_le_bytes());
        assert!(digest(&buf) <= u128::MAX >> 4);
    } else {
        panic!("a difficulty-4 puzzle must fall within ten thousand attempts");
    }
}

#[test]
fn solve_reports_failure() {
    // target 0: no nonce in a tiny search window will digest to zero
    let challenge = vec![9u8; 8];
    assert_eq!(solve(&challenge, 0, 0, 1, 50), None);
}
