//! How the parts of a swap record are laid out in bytes: numbers in
//! little-endian order, a byte string as its length in eight bytes followed
//! by its bytes, the parameters of a swap as their fields one after another.
//!
//! For every part there is the layout, the reading of a part off the front of
//! a byte string, and the fact that reading what was laid out gives the part
//! back and leaves what followed it.

use crate::protocol::{State3, State3View};
use vstd::bytes::{
    lemma_auto_spec_u128_to_from_le_bytes, lemma_auto_spec_u32_to_from_le_bytes,
    lemma_auto_spec_u64_to_from_le_bytes, spec_u128_from_le_bytes, spec_u128_to_le_bytes,
    spec_u32_from_le_bytes, spec_u32_to_le_bytes, spec_u64_from_le_bytes, spec_u64_to_le_bytes,
    u128_from_le_bytes, u128_to_le_bytes, u32_from_le_bytes, u32_to_le_bytes, u64_from_le_bytes,
    u64_to_le_bytes,
};
use vstd::prelude::*;
use vstd::slice::slice_subrange;

verus! {

/// The version of the layout of a record in bytes.
pub const VERSION: u8 = 1;

/// Why bytes could not be read as a record.
#[derive(Clone, Copy, Debug, PartialEq, Eq, Structural)]
pub enum DecodeError {
    /// The bytes are laid out in a version that is not known here.
    UnknownVersion,
    /// The bytes name a state, or an end state, that is not known here.
    UnknownVariant,
    /// The bytes end too early, or go on after the record.
    Malformed,
}

/// A byte string with its length in front.
pub open spec fn blob(bytes: Seq<u8>) -> Seq<u8> {
    spec_u64_to_le_bytes(bytes.len() as u64) + bytes
}

/// The number at the front of `s` and what follows it.
pub open spec fn parse_u32(s: Seq<u8>) -> Option<(u32, Seq<u8>)> {
    if s.len() < 4 {
        None
    } else {
        Some((spec_u32_from_le_bytes(s.take(4)), s.skip(4)))
    }
}

/// The number at the front of `s` and what follows it.
pub open spec fn parse_u64(s: Seq<u8>) -> Option<(u64, Seq<u8>)> {
    if s.len() < 8 {
        None
    } else {
        Some((spec_u64_from_le_bytes(s.take(8)), s.skip(8)))
    }
}

/// The number at the front of `s` and what follows it.
pub open spec fn parse_u128(s: Seq<u8>) -> Option<(u128, Seq<u8>)> {
    if s.len() < 16 {
        None
    } else {
        Some((spec_u128_from_le_bytes(s.take(16)), s.skip(16)))
    }
}

/// The byte string at the front of `s` and what follows it.
pub open spec fn parse_blob(s: Seq<u8>) -> Option<(Seq<u8>, Seq<u8>)> {
    match parse_u64(s) {
        None => None,
        Some((n, rest)) => if rest.len() < n {
            None
        } else {
            Some((rest.take(n as int), rest.skip(n as int)))
        },
    }
}

pub proof fn lemma_parse_u32(v: u32, rest: Seq<u8>)
    ensures
        parse_u32(spec_u32_to_le_bytes(v) + rest) == Some((v, rest)),
{
    lemma_auto_spec_u32_to_from_le_bytes();
    let s = spec_u32_to_le_bytes(v) + rest;
    assert(s.take(4) =~= spec_u32_to_le_bytes(v));
    assert(s.skip(4) =~= rest);
}

pub proof fn lemma_parse_u64(v: u64, rest: Seq<u8>)
    ensures
        parse_u64(spec_u64_to_le_bytes(v) + rest) == Some((v, rest)),
{
    lemma_auto_spec_u64_to_from_le_bytes();
    let s = spec_u64_to_le_bytes(v) + rest;
    assert(s.take(8) =~= spec_u64_to_le_bytes(v));
    assert(s.skip(8) =~= rest);
}

pub proof fn lemma_parse_u128(v: u128, rest: Seq<u8>)
    ensures
        parse_u128(spec_u128_to_le_bytes(v) + rest) == Some((v, rest)),
{
    lemma_auto_spec_u128_to_from_le_bytes();
    let s = spec_u128_to_le_bytes(v) + rest;
    assert(s.take(16) =~= spec_u128_to_le_bytes(v));
    assert(s.skip(16) =~= rest);
}

pub proof fn lemma_parse_blob(bytes: Seq<u8>, rest: Seq<u8>)
    requires
        bytes.len() <= u64::MAX,
    ensures
        parse_blob(blob(bytes) + rest) == Some((bytes, rest)),
{
    let n = bytes.len() as u64;
    lemma_parse_u64(n, bytes + rest);
    assert(blob(bytes) + rest =~= spec_u64_to_le_bytes(n) + (bytes + rest));
    assert((bytes + rest).take(n as int) =~= bytes);
    assert((bytes + rest).skip(n as int) =~= rest);
}

/// Lays a number out at the end of `out`.
pub fn put_u32(out: &mut Vec<u8>, v: u32)
    ensures
        final(out)@ == old(out)@ + spec_u32_to_le_bytes(v),
{
    let mut bytes = u32_to_le_bytes(v);
    out.append(&mut bytes);
}

/// Lays a number out at the end of `out`.
pub fn put_u64(out: &mut Vec<u8>, v: u64)
    ensures
        final(out)@ == old(out)@ + spec_u64_to_le_bytes(v),
{
    let mut bytes = u64_to_le_bytes(v);
    out.append(&mut bytes);
}

/// Lays a number out at the end of `out`.
pub fn put_u128(out: &mut Vec<u8>, v: u128)
    ensures
        final(out)@ == old(out)@ + spec_u128_to_le_bytes(v),
{
    let mut bytes = u128_to_le_bytes(v);
    out.append(&mut bytes);
}

/// Lays a byte string out at the end of `out`, its length in front.
pub fn put_blob(out: &mut Vec<u8>, bytes: &Vec<u8>)
    ensures
        final(out)@ == old(out)@ + blob(bytes@),
{
    put_u64(out, bytes.len() as u64);
    let ghost before = out@;
    let mut i: usize = 0;
    while i < bytes.len()
        invariant
            i <= bytes.len(),
            out@ == before + bytes@.take(i as int),
        decreases bytes.len() - i,
    {
        out.push(bytes[i]);
        assert(out@ =~= before + bytes@.take(i + 1));
        i = i + 1;
    }
    assert(bytes@.take(bytes.len() as int) =~= bytes@);
    assert(out@ =~= old(out)@ + blob(bytes@));
}

/// Reads the number that starts at place `pos` of `bytes`, and tells where
/// it ends; `None` where `bytes` has no such place or ends before the number
/// does.
pub fn get_u32(bytes: &[u8], pos: usize) -> (r: Option<(u32, usize)>)
    ensures
        pos > bytes@.len() ==> r.is_none(),
        pos <= bytes@.len() ==> match parse_u32(bytes@.skip(pos as int)) {
            None => r.is_none(),
            Some((v, rest)) => r matches Some((value, end)) && value == v && end <= bytes@.len()
                && rest == bytes@.skip(end as int),
        },
{
    if pos > bytes.len() || bytes.len() - pos < 4 {
        return None;
    }
    let v = u32_from_le_bytes(slice_subrange(bytes, pos, pos + 4));
    proof {
        assert(bytes@.skip(pos as int).take(4) =~= bytes@.subrange(pos as int, pos + 4));
        assert(bytes@.skip(pos as int).skip(4) =~= bytes@.skip(pos + 4));
    }
    Some((v, pos + 4))
}

/// Reads the number that starts at place `pos` of `bytes`, and tells where
/// it ends; `None` where `bytes` has no such place or ends before the number
/// does.
pub fn get_u64(bytes: &[u8], pos: usize) -> (r: Option<(u64, usize)>)
    ensures
        pos > bytes@.len() ==> r.is_none(),
        pos <= bytes@.len() ==> match parse_u64(bytes@.skip(pos as int)) {
            None => r.is_none(),
            Some((v, rest)) => r matches Some((value, end)) && value == v && end <= bytes@.len()
                && rest == bytes@.skip(end as int),
        },
{
    if pos > bytes.len() || bytes.len() - pos < 8 {
        return None;
    }
    let v = u64_from_le_bytes(slice_subrange(bytes, pos, pos + 8));
    proof {
        assert(bytes@.skip(pos as int).take(8) =~= bytes@.subrange(pos as int, pos + 8));
        assert(bytes@.skip(pos as int).skip(8) =~= bytes@.skip(pos + 8));
    }
    Some((v, pos + 8))
}

/// Reads the number that starts at place `pos` of `bytes`, and tells where
/// it ends; `None` where `bytes` has no such place or ends before the number
/// does.
pub fn get_u128(bytes: &[u8], pos: usize) -> (r: Option<(u128, usize)>)
    ensures
        pos > bytes@.len() ==> r.is_none(),
        pos <= bytes@.len() ==> match parse_u128(bytes@.skip(pos as int)) {
            None => r.is_none(),
            Some((v, rest)) => r matches Some((value, end)) && value == v && end <= bytes@.len()
                && rest == bytes@.skip(end as int),
        },
{
    if pos > bytes.len() || bytes.len() - pos < 16 {
        return None;
    }
    let v = u128_from_le_bytes(slice_subrange(bytes, pos, pos + 16));
    proof {
        assert(bytes@.skip(pos as int).take(16) =~= bytes@.subrange(pos as int, pos + 16));
        assert(bytes@.skip(pos as int).skip(16) =~= bytes@.skip(pos + 16));
    }
    Some((v, pos + 16))
}

/// Reads the byte string that starts at place `pos` of `bytes`, and tells
/// where it ends; `None` where `bytes` has no such place or ends before the
/// byte string does.
pub fn get_blob(bytes: &[u8], pos: usize) -> (r: Option<(Vec<u8>, usize)>)
    ensures
        pos > bytes@.len() ==> r.is_none(),
        pos <= bytes@.len() ==> match parse_blob(bytes@.skip(pos as int)) {
            None => r.is_none(),
            Some((v, rest)) => r matches Some((value, end)) && value@ == v && end <= bytes@.len()
                && rest == bytes@.skip(end as int),
        },
{
    let (n, start) = match get_u64(bytes, pos) {
        None => {
            return None;
        },
        Some(read) => read,
    };
    if n > (bytes.len() - start) as u64 {
        return None;
    }
    let n = n as usize;
    let mut blob: Vec<u8> = Vec::new();
    let mut i: usize = 0;
    while i < n
        invariant
            i <= n,
            start + n <= bytes.len(),
            blob@ == bytes@.subrange(start as int, start + i),
        decreases n - i,
    {
        blob.push(bytes[start + i]);
        assert(blob@ =~= bytes@.subrange(start as int, start + i + 1));
        i = i + 1;
    }
    proof {
        assert(bytes@.skip(start as int).take(n as int) =~= bytes@.subrange(
            start as int,
            start + n,
        ));
        assert(bytes@.skip(start as int).skip(n as int) =~= bytes@.skip(start + n));
    }
    Some((blob, start + n))
}

/// What was read, where something was read.
pub open spec fn value_of<T>(read: Option<(T, Seq<u8>)>) -> T {
    match read {
        Some((value, _)) => value,
        None => arbitrary(),
    }
}

/// What follows what was read; nothing where nothing was read, so that no
/// further part can be read after it.
pub open spec fn rest_of<T>(read: Option<(T, Seq<u8>)>) -> Seq<u8> {
    match read {
        Some((_, rest)) => rest,
        None => Seq::empty(),
    }
}

impl State3View {
    /// Whether every byte string among the parameters has a length that
    /// eight bytes can hold.
    pub open spec fn fits(self) -> bool {
        &&& self.peer.len() <= u64::MAX
        &&& self.alice_bitcoin_key.len() <= u64::MAX
        &&& self.bob_bitcoin_key.len() <= u64::MAX
        &&& self.alice_monero_key.len() <= u64::MAX
        &&& self.bob_monero_key.len() <= u64::MAX
        &&& self.tx_cancel.len() <= u64::MAX
        &&& self.tx_refund.len() <= u64::MAX
        &&& self.tx_punish.len() <= u64::MAX
        &&& self.xmr_lock.len() <= u64::MAX
    }

    /// The parameters of a swap laid out in bytes: the fields in the order
    /// in which they are declared.
    pub open spec fn layout(self) -> Seq<u8> {
        spec_u128_to_le_bytes(self.swap_id) + blob(self.peer) + blob(self.alice_bitcoin_key)
            + blob(self.bob_bitcoin_key) + blob(self.alice_monero_key) + blob(self.bob_monero_key)
            + spec_u64_to_le_bytes(self.btc) + spec_u64_to_le_bytes(self.xmr)
            + spec_u32_to_le_bytes(self.cancel_timelock) + spec_u32_to_le_bytes(
            self.punish_timelock,
        ) + blob(self.tx_cancel) + blob(self.tx_refund) + blob(self.tx_punish) + blob(
            self.xmr_lock,
        )
    }
}

/// The parameters of a swap at the front of `s` and what follows them.
#[verifier::opaque]
pub open spec fn parse_state3(s: Seq<u8>) -> Option<(State3View, Seq<u8>)> {
    let swap_id = parse_u128(s);
    let peer = parse_blob(rest_of(swap_id));
    let alice_bitcoin_key = parse_blob(rest_of(peer));
    let bob_bitcoin_key = parse_blob(rest_of(alice_bitcoin_key));
    let alice_monero_key = parse_blob(rest_of(bob_bitcoin_key));
    let bob_monero_key = parse_blob(rest_of(alice_monero_key));
    let btc = parse_u64(rest_of(bob_monero_key));
    let xmr = parse_u64(rest_of(btc));
    let cancel_timelock = parse_u32(rest_of(xmr));
    let punish_timelock = parse_u32(rest_of(cancel_timelock));
    let tx_cancel = parse_blob(rest_of(punish_timelock));
    let tx_refund = parse_blob(rest_of(tx_cancel));
    let tx_punish = parse_blob(rest_of(tx_refund));
    let xmr_lock = parse_blob(rest_of(tx_punish));
    if xmr_lock.is_none() {
        None
    } else {
        Some(
            (
                State3View {
                    swap_id: value_of(swap_id),
                    peer: value_of(peer),
                    alice_bitcoin_key: value_of(alice_bitcoin_key),
                    bob_bitcoin_key: value_of(bob_bitcoin_key),
                    alice_monero_key: value_of(alice_monero_key),
                    bob_monero_key: value_of(bob_monero_key),
                    btc: value_of(btc),
                    xmr: value_of(xmr),
                    cancel_timelock: value_of(cancel_timelock),
                    punish_timelock: value_of(punish_timelock),
                    tx_cancel: value_of(tx_cancel),
                    tx_refund: value_of(tx_refund),
                    tx_punish: value_of(tx_punish),
                    xmr_lock: value_of(xmr_lock),
                },
                rest_of(xmr_lock),
            ),
        )
    }
}

/// Nothing holds no parameters.
pub proof fn lemma_parse_state3_of_nothing()
    ensures
        parse_state3(Seq::<u8>::empty()).is_none(),
{
    reveal(parse_state3);
}

/// Joining byte strings gives the same whichever two are joined first.
pub proof fn lemma_regroup(a: Seq<u8>, b: Seq<u8>, c: Seq<u8>)
    ensures
        (a + b) + c == a + (b + c),
{
    assert((a + b) + c =~= a + (b + c));
}

/// Reading the parameters of a swap off their layout gives them back and
/// leaves what followed.
pub proof fn lemma_parse_state3(v: State3View, rest: Seq<u8>)
    requires
        v.fits(),
    ensures
        parse_state3(v.layout() + rest) == Some((v, rest)),
{
    reveal(parse_state3);
    let f0 = spec_u128_to_le_bytes(v.swap_id);
    let f1 = blob(v.peer);
    let f2 = blob(v.alice_bitcoin_key);
    let f3 = blob(v.bob_bitcoin_key);
    let f4 = blob(v.alice_monero_key);
    let f5 = blob(v.bob_monero_key);
    let f6 = spec_u64_to_le_bytes(v.btc);
    let f7 = spec_u64_to_le_bytes(v.xmr);
    let f8 = spec_u32_to_le_bytes(v.cancel_timelock);
    let f9 = spec_u32_to_le_bytes(v.punish_timelock);
    let f10 = blob(v.tx_cancel);
    let f11 = blob(v.tx_refund);
    let f12 = blob(v.tx_punish);
    let f13 = blob(v.xmr_lock);
    let t13 = f13 + rest;
    let t12 = f12 + t13;
    let t11 = f11 + t12;
    let t10 = f10 + t11;
    let t9 = f9 + t10;
    let t8 = f8 + t9;
    let t7 = f7 + t8;
    let t6 = f6 + t7;
    let t5 = f5 + t6;
    let t4 = f4 + t5;
    let t3 = f3 + t4;
    let t2 = f2 + t3;
    let t1 = f1 + t2;
    let t0 = f0 + t1;
    let p1 = f0 + f1;
    let p2 = p1 + f2;
    let p3 = p2 + f3;
    let p4 = p3 + f4;
    let p5 = p4 + f5;
    let p6 = p5 + f6;
    let p7 = p6 + f7;
    let p8 = p7 + f8;
    let p9 = p8 + f9;
    let p10 = p9 + f10;
    let p11 = p10 + f11;
    let p12 = p11 + f12;
    assert(v.layout() == p12 + f13);
    lemma_regroup(p12, f13, rest);
    lemma_regroup(p11, f12, t13);
    lemma_regroup(p10, f11, t12);
    lemma_regroup(p9, f10, t11);
    lemma_regroup(p8, f9, t10);
    lemma_regroup(p7, f8, t9);
    lemma_regroup(p6, f7, t8);
    lemma_regroup(p5, f6, t7);
    lemma_regroup(p4, f5, t6);
    lemma_regroup(p3, f4, t5);
    lemma_regroup(p2, f3, t4);
    lemma_regroup(p1, f2, t3);
    lemma_regroup(f0, f1, t2);
    assert(v.layout() + rest == t0);
    lemma_parse_u128(v.swap_id, t1);
    lemma_parse_blob(v.peer, t2);
    lemma_parse_blob(v.alice_bitcoin_key, t3);
    lemma_parse_blob(v.bob_bitcoin_key, t4);
    lemma_parse_blob(v.alice_monero_key, t5);
    lemma_parse_blob(v.bob_monero_key, t6);
    lemma_parse_u64(v.btc, t7);
    lemma_parse_u64(v.xmr, t8);
    lemma_parse_u32(v.cancel_timelock, t9);
    lemma_parse_u32(v.punish_timelock, t10);
    lemma_parse_blob(v.tx_cancel, t11);
    lemma_parse_blob(v.tx_refund, t12);
    lemma_parse_blob(v.tx_punish, t13);
    lemma_parse_blob(v.xmr_lock, rest);
}

/// Lays the parameters of a swap out at the end of `out`.
pub fn put_state3(out: &mut Vec<u8>, state3: &State3)
    ensures
        final(out)@ == old(out)@ + state3@.layout(),
{
    put_u128(out, state3.swap_id);
    put_blob(out, &state3.peer);
    put_blob(out, &state3.alice_bitcoin_key);
    put_blob(out, &state3.bob_bitcoin_key);
    put_blob(out, &state3.alice_monero_key);
    put_blob(out, &state3.bob_monero_key);
    put_u64(out, state3.btc);
    put_u64(out, state3.xmr);
    put_u32(out, state3.cancel_timelock);
    put_u32(out, state3.punish_timelock);
    put_blob(out, &state3.tx_cancel);
    put_blob(out, &state3.tx_refund);
    put_blob(out, &state3.tx_punish);
    put_blob(out, &state3.xmr_lock);
    proof {
        let v = state3@;
        let f0 = spec_u128_to_le_bytes(v.swap_id);
        let p1 = f0 + blob(v.peer);
        let p2 = p1 + blob(v.alice_bitcoin_key);
        let p3 = p2 + blob(v.bob_bitcoin_key);
        let p4 = p3 + blob(v.alice_monero_key);
        let p5 = p4 + blob(v.bob_monero_key);
        let p6 = p5 + spec_u64_to_le_bytes(v.btc);
        let p7 = p6 + spec_u64_to_le_bytes(v.xmr);
        let p8 = p7 + spec_u32_to_le_bytes(v.cancel_timelock);
        let p9 = p8 + spec_u32_to_le_bytes(v.punish_timelock);
        let p10 = p9 + blob(v.tx_cancel);
        let p11 = p10 + blob(v.tx_refund);
        let p12 = p11 + blob(v.tx_punish);
        let o = old(out)@;
        lemma_regroup(o, f0, blob(v.peer));
        lemma_regroup(o, p1, blob(v.alice_bitcoin_key));
        lemma_regroup(o, p2, blob(v.bob_bitcoin_key));
        lemma_regroup(o, p3, blob(v.alice_monero_key));
        lemma_regroup(o, p4, blob(v.bob_monero_key));
        lemma_regroup(o, p5, spec_u64_to_le_bytes(v.btc));
        lemma_regroup(o, p6, spec_u64_to_le_bytes(v.xmr));
        lemma_regroup(o, p7, spec_u32_to_le_bytes(v.cancel_timelock));
        lemma_regroup(o, p8, spec_u32_to_le_bytes(v.punish_timelock));
        lemma_regroup(o, p9, blob(v.tx_cancel));
        lemma_regroup(o, p10, blob(v.tx_refund));
        lemma_regroup(o, p11, blob(v.tx_punish));
        lemma_regroup(o, p12, blob(v.xmr_lock));
    }
}

/// Reads the parameters of a swap that start at place `pos` of `bytes`, and
/// tells where they end; `None` where `bytes` has no such place or ends
/// before the parameters do.
pub fn get_state3(bytes: &[u8], pos: usize) -> (r: Option<(State3, usize)>)
    ensures
        pos > bytes@.len() ==> r.is_none(),
        pos <= bytes@.len() ==> match parse_state3(bytes@.skip(pos as int)) {
            None => r.is_none(),
            Some((v, rest)) => r matches Some((value, end)) && value@ == v && end <= bytes@.len()
                && rest == bytes@.skip(end as int),
        },
{
    reveal(parse_state3);
    if pos > bytes.len() {
        return None;
    }
    let (swap_id, pos) = match get_u128(bytes, pos) {
        Some(read) => read,
        None => {
            return None;
        },
    };
    let (peer, pos) = match get_blob(bytes, pos) {
        Some(read) => read,
        None => {
            return None;
        },
    };
    let (alice_bitcoin_key, pos) = match get_blob(bytes, pos) {
        Some(read) => read,
        None => {
            return None;
        },
    };
    let (bob_bitcoin_key, pos) = match get_blob(bytes, pos) {
        Some(read) => read,
        None => {
            return None;
        },
    };
    let (alice_monero_key, pos) = match get_blob(bytes, pos) {
        Some(read) => read,
        None => {
            return None;
        },
    };
    let (bob_monero_key, pos) = match get_blob(bytes, pos) {
        Some(read) => read,
        None => {
            return None;
        },
    };
    let (btc, pos) = match get_u64(bytes, pos) {
        Some(read) => read,
        None => {
            return None;
        },
    };
    let (xmr, pos) = match get_u64(bytes, pos) {
        Some(read) => read,
        None => {
            return None;
        },
    };
    let (cancel_timelock, pos) = match get_u32(bytes, pos) {
        Some(read) => read,
        None => {
            return None;
        },
    };
    let (punish_timelock, pos) = match get_u32(bytes, pos) {
        Some(read) => read,
        None => {
            return None;
        },
    };
    let (tx_cancel, pos) = match get_blob(bytes, pos) {
        Some(read) => read,
        None => {
            return None;
        },
    };
    let (tx_refund, pos) = match get_blob(bytes, pos) {
        Some(read) => read,
        None => {
            return None;
        },
    };
    let (tx_punish, pos) = match get_blob(bytes, pos) {
        Some(read) => read,
        None => {
            return None;
        },
    };
    let (xmr_lock, pos) = match get_blob(bytes, pos) {
        Some(read) => read,
        None => {
            return None;
        },
    };
    Some(
        (
            State3 {
                swap_id,
                peer,
                alice_bitcoin_key,
                bob_bitcoin_key,
                alice_monero_key,
                bob_monero_key,
                btc,
                xmr,
                cancel_timelock,
                punish_timelock,
                tx_cancel,
                tx_refund,
                tx_punish,
                xmr_lock,
            },
            pos,
        ),
    )
}

/// The parameters of a swap always fit the layout: no byte string in memory
/// is longer than eight bytes can say.
pub proof fn lemma_state3_fits(state3: State3)
    ensures
        state3@.fits(),
{
    assert(state3.peer.len() <= usize::MAX);
    assert(state3.alice_bitcoin_key.len() <= usize::MAX);
    assert(state3.bob_bitcoin_key.len() <= usize::MAX);
    assert(state3.alice_monero_key.len() <= usize::MAX);
    assert(state3.bob_monero_key.len() <= usize::MAX);
    assert(state3.tx_cancel.len() <= usize::MAX);
    assert(state3.tx_refund.len() <= usize::MAX);
    assert(state3.tx_punish.len() <= usize::MAX);
    assert(state3.xmr_lock.len() <= usize::MAX);
}

} // verus!
