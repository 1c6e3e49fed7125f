use proc_qq::session::{bytes_to_token, token_from_bytes, token_to_bytes, Token};

fn sample_token() -> Token {
    Token {
        uin: 123456789,
        d2: vec![1, 2, 3],
        d2key: vec![4; 16],
        tgt: vec![],
        srm_token: vec![9, 8],
        t133: vec![7],
        encrypted_a1: vec![6, 6],
        out_packet_session_id: vec![5, 4, 3],
        tgtgt_key: vec![2; 16],
        wt_session_ticket_key: vec![1],
    }
}

#[test]
fn token_round_trip_keeps_every_field() {
    let t = sample_token();
    let bytes = token_to_bytes(&t);
    let back = bytes_to_token(bytes);
    assert_eq!(back.uin, t.uin);
    assert_eq!(back.d2, t.d2);
    assert_eq!(back.d2key, t.d2key);
    assert_eq!(back.tgt, t.tgt);
    assert_eq!(back.srm_token, t.srm_token);
    assert_eq!(back.t133, t.t133);
    assert_eq!(back.encrypted_a1, t.encrypted_a1);
    assert_eq!(back.out_packet_session_id, t.out_packet_session_id);
    assert_eq!(back.tgtgt_key, t.tgtgt_key);
    assert_eq!(back.wt_session_ticket_key, t.wt_session_ticket_key);
}

#[test]
fn token_bytes_layout() {
    let t = Token {
        uin: 1,
        d2: vec![0xaa],
        d2key: vec![],
        tgt: vec![],
        srm_token: vec![],
        t133: vec![],
        encrypted_a1: vec![],
        out_packet_session_id: vec![],
        tgtgt_key: vec![],
        wt_session_ticket_key: vec![0xbb, 0xcc],
    };
    let b = token_to_bytes(&t);
    let mut expected = vec![0, 0, 0, 0, 0, 0, 0, 1, 0, 1, 0xaa];
    // d2key, tgt, srm_token, t133, encrypted_a1: empty
    expected.extend_from_slice(&[0, 0, 0, 0, 0, 0, 0, 0, 0, 0]);
    // wt_session_ticket_key comes before out_packet_session_id and tgtgt_key
    expected.extend_from_slice(&[0, 2, 0xbb, 0xcc, 0, 0, 0, 0]);
    assert_eq!(b, expected);
}

#[test]
fn negative_account_reads_back() {
    let mut t = sample_token();
    t.uin = -5;
    let back = bytes_to_token(token_to_bytes(&t));
    assert_eq!(back.uin, -5);
}

#[test]
fn short_bytes_hold_no_token() {
    assert!(token_from_bytes(&vec![]).is_none());
    assert!(token_from_bytes(&vec![0, 0, 0, 0, 0, 0, 0, 1]).is_none());
    let mut b = token_to_bytes(&sample_token());
    b.pop();
    assert!(token_from_bytes(&b).is_none());
}

#[test]
fn trailing_bytes_are_not_read() {
    let mut b = token_to_bytes(&sample_token());
    b.extend_from_slice(&[1, 2, 3]);
    let t = token_from_bytes(&b).unwrap();
    assert_eq!(t.wt_session_ticket_key, vec![1]);
}

#[test]
fn a_key_over_the_length_limit_does_not_read_back() {
    let mut t = sample_token();
    t.d2 = vec![7; 65536];
    let b = token_to_bytes(&t);
    match token_from_bytes(&b) {
        Some(back) => assert_ne!(back.d2.len(), 65536),
        None => {}
    }
}
