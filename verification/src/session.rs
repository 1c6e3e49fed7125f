use vstd::prelude::*;

verus! {

/// A saved login: the account and the session keys that the server
/// handed out.
pub struct Token {
    pub uin: i64,
    pub d2: Vec<u8>,
    pub d2key: Vec<u8>,
    pub tgt: Vec<u8>,
    pub srm_token: Vec<u8>,
    pub t133: Vec<u8>,
    pub encrypted_a1: Vec<u8>,
    pub out_packet_session_id: Vec<u8>,
    pub tgtgt_key: Vec<u8>,
    pub wt_session_ticket_key: Vec<u8>,
}

impl Token {
    /// The keys, in the order in which they are saved.
    pub open spec fn keys(&self) -> Seq<Seq<u8>> {
        seq![
            self.d2@,
            self.d2key@,
            self.tgt@,
            self.srm_token@,
            self.t133@,
            self.encrypted_a1@,
            self.wt_session_ticket_key@,
            self.out_packet_session_id@,
            self.tgtgt_key@
        ]
    }
}

/// The eight bytes of `u`, most significant first.
pub open spec fn u64_be(u: u64) -> Seq<u8> {
    seq![
        (u >> 56u64) as u8,
        (u >> 48u64) as u8,
        (u >> 40u64) as u8,
        (u >> 32u64) as u8,
        (u >> 24u64) as u8,
        (u >> 16u64) as u8,
        (u >> 8u64) as u8,
        u as u8
    ]
}

/// The number whose eight bytes, most significant first, stand at `pos`.
pub open spec fn be_u64(b: Seq<u8>, pos: int) -> u64 {
    ((b[pos] as u64) << 56u64) | ((b[pos + 1] as u64) << 48u64) | ((b[pos + 2] as u64) << 40u64)
        | ((b[pos + 3] as u64) << 32u64) | ((b[pos + 4] as u64) << 24u64) | ((b[pos + 5] as u64)
        << 16u64) | ((b[pos + 6] as u64) << 8u64) | (b[pos + 7] as u64)
}

/// The two bytes of `n`, most significant first.
pub open spec fn u16_be(n: u16) -> Seq<u8> {
    seq![(n >> 8u16) as u8, n as u8]
}

/// The number whose two bytes, most significant first, stand at `pos`.
pub open spec fn be_u16(b: Seq<u8>, pos: int) -> u16 {
    ((b[pos] as u16) << 8u16) | (b[pos + 1] as u16)
}

/// A key as it is saved: its length in two bytes (only the low sixteen
/// bits of it), then its bytes.
pub open spec fn short_bytes(d: Seq<u8>) -> Seq<u8> {
    u16_be(d.len() as u16) + d
}

/// The keys saved one after the other.
pub open spec fn shorts_bytes(s: Seq<Seq<u8>>) -> Seq<u8>
    decreases s.len(),
{
    if s.len() == 0 {
        Seq::empty()
    } else {
        shorts_bytes(s.drop_last()) + short_bytes(s.last())
    }
}

/// A token as it is saved: the account in eight bytes, then the keys.
pub open spec fn token_bytes(uin: i64, keys: Seq<Seq<u8>>) -> Seq<u8> {
    u64_be(uin as u64) + shorts_bytes(keys)
}

/// The key saved at `pos`, with the position after it; none when the
/// bytes end too soon.
pub open spec fn read_short(b: Seq<u8>, pos: int) -> Option<(Seq<u8>, int)> {
    if pos < 0 || pos + 2 > b.len() {
        None
    } else {
        let n = be_u16(b, pos) as int;
        if pos + 2 + n > b.len() {
            None
        } else {
            Some((b.subrange(pos + 2, pos + 2 + n), pos + 2 + n))
        }
    }
}

/// The `k` keys saved from `pos` on, with the position after them.
pub open spec fn read_shorts(b: Seq<u8>, pos: int, k: nat) -> Option<(Seq<Seq<u8>>, int)>
    decreases k,
{
    if k == 0 {
        Some((Seq::empty(), pos))
    } else {
        match read_shorts(b, pos, (k - 1) as nat) {
            None => None,
            Some((s, p)) => match read_short(b, p) {
                None => None,
                Some((d, q)) => Some((s.push(d), q)),
            },
        }
    }
}

/// The account and the nine keys of a saved token; none when the bytes
/// end too soon. Bytes after the last key are not read.
pub open spec fn read_token(b: Seq<u8>) -> Option<(i64, Seq<Seq<u8>>)> {
    if b.len() < 8 {
        None
    } else {
        match read_shorts(b, 8, 9) {
            None => None,
            Some((keys, _)) => Some((be_u64(b, 0) as i64, keys)),
        }
    }
}

proof fn lemma_u16_round_trip(n: u16)
    ensures
        ((((n >> 8u16) as u8) as u16) << 8u16) | (((n as u8) as u16)) == n,
{
    assert(((((n >> 8u16) as u8) as u16) << 8u16) | (((n as u8) as u16)) == n) by (bit_vector);
}

proof fn lemma_i64_round_trip(x: i64)
    ensures
        be_u64(u64_be(x as u64), 0) as i64 == x,
{
    let u = x as u64;
    assert(u as i64 == x) by (bit_vector)
        requires
            u == x as u64,
    ;
    assert(((((u >> 56u64) as u8) as u64) << 56u64) | ((((u >> 48u64) as u8) as u64) << 48u64) | ((
    ((u >> 40u64) as u8) as u64) << 40u64) | ((((u >> 32u64) as u8) as u64) << 32u64) | ((((u
        >> 24u64) as u8) as u64) << 24u64) | ((((u >> 16u64) as u8) as u64) << 16u64) | ((((u
        >> 8u64) as u8) as u64) << 8u64) | (((u as u8) as u64)) == u) by (bit_vector);
}

proof fn lemma_read_shorts(b: Seq<u8>, pos: int, keys: Seq<Seq<u8>>)
    requires
        0 <= pos,
        pos + shorts_bytes(keys).len() <= b.len(),
        b.subrange(pos, pos + shorts_bytes(keys).len()) == shorts_bytes(keys),
        forall|i: int| 0 <= i < keys.len() ==> #[trigger] keys[i].len() <= 65535,
    ensures
        read_shorts(b, pos, keys.len()) == Some((keys, pos + shorts_bytes(keys).len())),
    decreases keys.len(),
{
    if keys.len() > 0 {
        let init = keys.drop_last();
        let last = keys.last();
        let ib = shorts_bytes(init);
        let lb = short_bytes(last);
        assert(shorts_bytes(keys) == ib + lb);
        assert(b.subrange(pos, pos + ib.len()) =~= shorts_bytes(keys).subrange(0, ib.len() as int));
        assert(shorts_bytes(keys).subrange(0, ib.len() as int) =~= ib);
        assert forall|i: int| 0 <= i < init.len() implies #[trigger] init[i].len() <= 65535 by {
            assert(init[i] == keys[i]);
        }
        lemma_read_shorts(b, pos, init);
        assert(init.push(last) =~= keys);
        let p = pos + ib.len();
        assert(keys[keys.len() - 1].len() <= 65535);
        let n = last.len() as u16;
        assert(n as int == last.len());
        let whole = shorts_bytes(keys);
        assert(lb.len() == 2 + last.len());
        assert(whole[ib.len() as int] == lb[0]);
        assert(whole[ib.len() as int + 1] == lb[1]);
        assert(b.subrange(pos, pos + whole.len())[ib.len() as int] == b[p]);
        assert(b.subrange(pos, pos + whole.len())[ib.len() as int + 1] == b[p + 1]);
        lemma_u16_round_trip(n);
        assert(be_u16(b, p) == n);
        assert(whole.len() == ib.len() + lb.len());
        assert(p + 2 + last.len() <= b.len());
        let m: int = last.len() as int;
        assert forall|j: int| 0 <= j < m implies #[trigger] b.subrange(p + 2, p + 2 + m)[j]
            == last[j] by {
            assert(whole[ib.len() + 2 + j] == lb[2 + j]);
            assert(b.subrange(pos, pos + whole.len())[ib.len() + 2 + j] == b[p + 2 + j]);
        }
        assert(b.subrange(p + 2, p + 2 + m) =~= last);
    }
}

/// What `token_to_bytes` writes, `bytes_to_token` reads back: the same
/// account and the same nine keys, when no key is longer than 65535 bytes.
pub proof fn law_token_round_trip(uin: i64, keys: Seq<Seq<u8>>)
    requires
        keys.len() == 9,
        keys_fit(keys),
    ensures
        read_token(token_bytes(uin, keys)) == Some((uin, keys)),
{
    let b = token_bytes(uin, keys);
    let sb = shorts_bytes(keys);
    assert(b.subrange(8, 8 + sb.len() as int) =~= sb);
    lemma_read_shorts(b, 8, keys);
    assert(b.subrange(0, 8) =~= u64_be(uin as u64));
    lemma_i64_round_trip(uin);
    assert(be_u64(b, 0) == be_u64(u64_be(uin as u64), 0));
}

proof fn lemma_shorts_step(k: Seq<Seq<u8>>, i: int)
    requires
        0 <= i < k.len(),
    ensures
        shorts_bytes(k.take(i + 1)) == shorts_bytes(k.take(i)) + short_bytes(k[i]),
{
    assert(k.take(i + 1).drop_last() =~= k.take(i));
}

fn push_u64_be(out: &mut Vec<u8>, u: u64)
    ensures
        final(out)@ == old(out)@ + u64_be(u),
{
    out.push((u >> 56u64) as u8);
    out.push((u >> 48u64) as u8);
    out.push((u >> 40u64) as u8);
    out.push((u >> 32u64) as u8);
    out.push((u >> 24u64) as u8);
    out.push((u >> 16u64) as u8);
    out.push((u >> 8u64) as u8);
    out.push(u as u8);
    assert(final(out)@ =~= old(out)@ + u64_be(u));
}

fn push_short(out: &mut Vec<u8>, d: &Vec<u8>)
    ensures
        final(out)@ == old(out)@ + short_bytes(d@),
{
    let n = d.len() as u16;
    out.push((n >> 8u16) as u8);
    out.push(n as u8);
    let ghost start = out@;
    let mut i: usize = 0;
    while i < d.len()
        invariant
            i <= d@.len(),
            out@ == start + d@.subrange(0, i as int),
        decreases d@.len() - i,
    {
        out.push(d[i]);
        assert(out@ =~= start + d@.subrange(0, i + 1));
        i = i + 1;
    }
    assert(d@.subrange(0, d@.len() as int) =~= d@);
    assert(start =~= old(out)@ + u16_be(n));
    assert(final(out)@ =~= old(out)@ + short_bytes(d@));
}

/// The bytes in which a token is saved: the account,
/// then each key after its length. A key's length is written in sixteen
/// bits, so only a key of at most 65535 bytes reads back whole.
pub fn token_to_bytes(t: &Token) -> (r: Vec<u8>)
    ensures
        r@ == token_bytes(t.uin, t.keys()),
{
    let ghost k = t.keys();
    let fields: Vec<&Vec<u8>> = vec![
        &t.d2,
        &t.d2key,
        &t.tgt,
        &t.srm_token,
        &t.t133,
        &t.encrypted_a1,
        &t.wt_session_ticket_key,
        &t.out_packet_session_id,
        &t.tgtgt_key,
    ];
    assert(fields@.map_values(|f: &Vec<u8>| f@) =~= k);
    let mut out: Vec<u8> = Vec::new();
    push_u64_be(&mut out, t.uin as u64);
    let ghost head = out@;
    assert(k.take(0) =~= Seq::<Seq<u8>>::empty());
    assert(out@ =~= head + shorts_bytes(k.take(0)));
    let mut i: usize = 0;
    while i < fields.len()
        invariant
            k == fields@.map_values(|f: &Vec<u8>| f@),
            i <= fields@.len(),
            out@ == head + shorts_bytes(k.take(i as int)),
        decreases fields@.len() - i,
    {
        push_short(&mut out, fields[i]);
        proof {
            lemma_shorts_step(k, i as int);
        }
        assert(out@ =~= head + shorts_bytes(k.take(i + 1)));
        i = i + 1;
    }
    assert(k.take(9) =~= k);
    out
}

fn read_short_at(b: &Vec<u8>, pos: usize) -> (r: Option<(Vec<u8>, usize)>)
    requires
        pos <= b.len(),
    ensures
        match read_short(b@, pos as int) {
            None => r is None,
            Some((d, q)) => r matches Some((v, p)) && v@ == d && p == q && p <= b.len(),
        },
{
    if b.len() - pos < 2 {
        return None;
    }
    let n = ((b[pos] as u16) << 8u16) | (b[pos + 1] as u16);
    let n = n as usize;
    if b.len() - pos - 2 < n {
        return None;
    }
    let mut v: Vec<u8> = Vec::new();
    let mut i: usize = pos + 2;
    while i < pos + 2 + n
        invariant
            pos + 2 + n <= b.len(),
            pos + 2 <= i <= pos + 2 + n,
            v@ == b@.subrange(pos + 2, i as int),
        decreases pos + 2 + n - i,
    {
        v.push(b[i]);
        assert(v@ =~= b@.subrange(pos + 2, i + 1));
        i = i + 1;
    }
    Some((v, pos + 2 + n))
}

/// The token saved in `b`, or none when the bytes end before its last key
/// (trailing bytes are not read).
pub fn token_from_bytes(b: &Vec<u8>) -> (r: Option<Token>)
    ensures
        match read_token(b@) {
            None => r is None,
            Some((uin, keys)) => r matches Some(t) && t.uin == uin && t.keys() == keys,
        },
{
    if b.len() < 8 {
        return None;
    }
    let u: u64 = ((b[0] as u64) << 56u64) | ((b[1] as u64) << 48u64) | ((b[2] as u64) << 40u64)
        | ((b[3] as u64) << 32u64) | ((b[4] as u64) << 24u64) | ((b[5] as u64) << 16u64) | ((
    b[6] as u64) << 8u64) | (b[7] as u64);
    let mut keys: Vec<Vec<u8>> = Vec::new();
    let mut pos: usize = 8;
    let mut k: usize = 0;
    while k < 9
        invariant
            k <= 9,
            keys@.len() == k,
            pos <= b.len(),
            read_shorts(b@, 8, k as nat) == Some(
                (keys@.map_values(|v: Vec<u8>| v@), pos as int),
            ),
        decreases 9 - k,
    {
        match read_short_at(b, pos) {
            None => {
                proof {
                    lemma_shorts_none_extends(b@, k as nat + 1, 9);
                }
                return None;
            },
            Some((v, p)) => {
                let ghost old_keys = keys@;
                keys.push(v);
                assert(keys@.map_values(|v: Vec<u8>| v@) =~= old_keys.map_values(
                    |v: Vec<u8>| v@,
                ).push(keys@.last()@));
                pos = p;
            },
        }
        k = k + 1;
    }
    let ghost kv = keys@.map_values(|v: Vec<u8>| v@);
    assert(kv.len() == 9);
    let tgtgt_key = keys.pop().unwrap();
    let out_packet_session_id = keys.pop().unwrap();
    let wt_session_ticket_key = keys.pop().unwrap();
    let encrypted_a1 = keys.pop().unwrap();
    let t133 = keys.pop().unwrap();
    let srm_token = keys.pop().unwrap();
    let tgt = keys.pop().unwrap();
    let d2key = keys.pop().unwrap();
    let d2 = keys.pop().unwrap();
    let t = Token {
        uin: u as i64,
        d2,
        d2key,
        tgt,
        srm_token,
        t133,
        encrypted_a1,
        out_packet_session_id,
        tgtgt_key,
        wt_session_ticket_key,
    };
    assert(t.keys() =~= kv);
    Some(t)
}

proof fn lemma_shorts_none_extends(b: Seq<u8>, k: nat, n: nat)
    requires
        k <= n,
        read_shorts(b, 8, k) is None,
    ensures
        read_shorts(b, 8, n) is None,
    decreases n - k,
{
    if k < n {
        lemma_shorts_none_extends(b, k + 1, n);
    }
}

/// Reads a saved token; the bytes must hold a whole
/// token, as `token_from_bytes` tells.
pub fn bytes_to_token(token: Vec<u8>) -> (t: Token)
    requires
        read_token(token@) is Some,
    ensures
        read_token(token@) == Some((t.uin, t.keys())),
{
    token_from_bytes(&token).unwrap()
}

/// The saved bytes of a token are its account in eight bytes, most
/// significant first, then its keys, each after its sixteen-bit length, in
/// the fixed order `d2`, `d2key`, `tgt`, `srm_token`, `t133`,
/// `encrypted_a1`, `wt_session_ticket_key`, `out_packet_session_id`,
/// `tgtgt_key`.
pub proof fn law_token_layout(t: Token)
    ensures
        token_bytes(t.uin, t.keys()) == u64_be(t.uin as u64) + short_bytes(t.d2@) + short_bytes(
            t.d2key@,
        ) + short_bytes(t.tgt@) + short_bytes(t.srm_token@) + short_bytes(t.t133@) + short_bytes(
            t.encrypted_a1@,
        ) + short_bytes(t.wt_session_ticket_key@) + short_bytes(t.out_packet_session_id@)
            + short_bytes(t.tgtgt_key@),
{
    let k = t.keys();
    let s0 = Seq::<Seq<u8>>::empty();
    let s1 = s0.push(t.d2@);
    let s2 = s1.push(t.d2key@);
    let s3 = s2.push(t.tgt@);
    let s4 = s3.push(t.srm_token@);
    let s5 = s4.push(t.t133@);
    let s6 = s5.push(t.encrypted_a1@);
    let s7 = s6.push(t.wt_session_ticket_key@);
    let s8 = s7.push(t.out_packet_session_id@);
    let s9 = s8.push(t.tgtgt_key@);
    assert(k =~= s9);
    assert(s1.drop_last() =~= s0);
    assert(s2.drop_last() =~= s1);
    assert(s3.drop_last() =~= s2);
    assert(s4.drop_last() =~= s3);
    assert(s5.drop_last() =~= s4);
    assert(s6.drop_last() =~= s5);
    assert(s7.drop_last() =~= s6);
    assert(s8.drop_last() =~= s7);
    assert(s9.drop_last() =~= s8);
    assert(shorts_bytes(s0) == Seq::<u8>::empty());
    assert(shorts_bytes(s1) == shorts_bytes(s0) + short_bytes(t.d2@));
    assert(shorts_bytes(s1) =~= short_bytes(t.d2@));
    assert(shorts_bytes(s2) == shorts_bytes(s1) + short_bytes(t.d2key@));
    assert(shorts_bytes(s3) == shorts_bytes(s2) + short_bytes(t.tgt@));
    assert(shorts_bytes(s4) == shorts_bytes(s3) + short_bytes(t.srm_token@));
    assert(shorts_bytes(s5) == shorts_bytes(s4) + short_bytes(t.t133@));
    assert(shorts_bytes(s6) == shorts_bytes(s5) + short_bytes(t.encrypted_a1@));
    assert(shorts_bytes(s7) == shorts_bytes(s6) + short_bytes(t.wt_session_ticket_key@));
    assert(shorts_bytes(s8) == shorts_bytes(s7) + short_bytes(t.out_packet_session_id@));
    assert(shorts_bytes(s9) == shorts_bytes(s8) + short_bytes(t.tgtgt_key@));
    assert(token_bytes(t.uin, k) =~= u64_be(t.uin as u64) + short_bytes(t.d2@) + short_bytes(
        t.d2key@,
    ) + short_bytes(t.tgt@) + short_bytes(t.srm_token@) + short_bytes(t.t133@) + short_bytes(
        t.encrypted_a1@,
    ) + short_bytes(t.wt_session_ticket_key@) + short_bytes(t.out_packet_session_id@)
        + short_bytes(t.tgtgt_key@));
}

/// A token read back from bytes has each key in its own field: the bytes
/// `u64_be(uin)` followed by nine keys, each after its length, read to the
/// token whose `d2` is the first key, ..., `out_packet_session_id` the
/// eighth and `tgtgt_key` the ninth.
pub proof fn law_token_fields_read_back(t: Token, uin: i64, a: Seq<Seq<u8>>)
    requires
        a.len() == 9,
        keys_fit(a),
        read_token(token_bytes(uin, a)) == Some((t.uin, t.keys())),
    ensures
        t.uin == uin,
        t.d2@ == a[0],
        t.d2key@ == a[1],
        t.tgt@ == a[2],
        t.srm_token@ == a[3],
        t.t133@ == a[4],
        t.encrypted_a1@ == a[5],
        t.wt_session_ticket_key@ == a[6],
        t.out_packet_session_id@ == a[7],
        t.tgtgt_key@ == a[8],
{
    lemma_fields_of_keys(t, uin, a, read_token(token_bytes(uin, a)));
    lemma_key_fields(t, a);
}

proof fn lemma_fields_of_keys(t: Token, uin: i64, a: Seq<Seq<u8>>, r: Option<(i64, Seq<Seq<u8>>)>)
    requires
        a.len() == 9,
        keys_fit(a),
        r == read_token(token_bytes(uin, a)),
        r == Some((t.uin, t.keys())),
    ensures
        t.uin == uin,
        t.keys() == a,
{
    law_token_round_trip(uin, a);
}

proof fn lemma_key_fields(t: Token, a: Seq<Seq<u8>>)
    requires
        t.keys() == a,
    ensures
        t.d2@ == a[0],
        t.d2key@ == a[1],
        t.tgt@ == a[2],
        t.srm_token@ == a[3],
        t.t133@ == a[4],
        t.encrypted_a1@ == a[5],
        t.wt_session_ticket_key@ == a[6],
        t.out_packet_session_id@ == a[7],
        t.tgtgt_key@ == a[8],
{
}

/// Whether every key fits the sixteen-bit length it is saved with.
pub open spec fn keys_fit(keys: Seq<Seq<u8>>) -> bool {
    forall|i: int| 0 <= i < keys.len() ==> #[trigger] keys[i].len() <= 65535
}

} // verus!
