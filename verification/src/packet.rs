//! Turns a serialized command message into the fixed 90-byte packet the
//! control transport consumes: zero padding, and the XOR checksum written
//! at its fixed offset.

use vstd::prelude::*;

use crate::message::Message;
use crate::Error;

verus! {

/// The fixed packet size in bytes.
pub const MAX_LEN: usize = 90;

/// XOR of all bytes of a sequence, folded with accumulator 0.
pub open spec fn xor_fold(s: Seq<u8>) -> u8
    decreases s.len(),
{
    if s.len() == 0 {
        0u8
    } else {
        xor_fold(s.drop_last()) ^ s.last()
    }
}

/// A sequence of `n` zero bytes.
pub open spec fn zero_bytes(n: nat) -> Seq<u8> {
    Seq::new(n, |i: int| 0u8)
}

/// The checksum byte owed to serialized bytes `s`: the XOR fold of
/// everything from offset 2 on; the status and transaction-id bytes are
/// left out.
pub open spec fn checksum_spec(s: Seq<u8>) -> u8 {
    if s.len() <= 2 {
        0u8
    } else {
        xor_fold(s.subrange(2, s.len() as int))
    }
}

/// `s` padded with zero bytes, or cut, to the fixed packet size.
pub open spec fn pad_to_packet(s: Seq<u8>) -> Seq<u8> {
    if s.len() >= MAX_LEN {
        s.take(MAX_LEN as int)
    } else {
        s + zero_bytes((MAX_LEN - s.len()) as nat)
    }
}

/// The packet owed to serialized bytes `s`: `s` padded to the fixed size,
/// with the checksum over `s` written at offset `MAX_LEN - 2`.
pub open spec fn packet_bytes(s: Seq<u8>) -> Seq<u8> {
    pad_to_packet(s).update(MAX_LEN - 2, checksum_spec(s))
}

/// XOR-folds `bytes` from offset 2 on; the first two bytes are left out.
fn checksum(bytes: &[u8]) -> (r: u8)
    ensures
        r == checksum_spec(bytes@),
{
    if bytes.len() <= 2 {
        return 0;
    }
    let mut acc: u8 = 0;
    let mut i: usize = 2;
    while i < bytes.len()
        invariant
            2 <= i <= bytes@.len(),
            acc == xor_fold(bytes@.subrange(2, i as int)),
        decreases bytes@.len() - i,
    {
        proof {
            assert(bytes@.subrange(2, i + 1).drop_last() =~= bytes@.subrange(2, i as int));
        }
        acc = acc ^ bytes[i];
        i = i + 1;
    }
    proof {
        assert(bytes@.subrange(2, i as int) =~= bytes@.subrange(2, bytes@.len() as int));
    }
    acc
}

/// Appending one zero byte leaves the XOR fold unchanged.
proof fn lemma_xor_fold_push_zero(s: Seq<u8>)
    ensures
        xor_fold(s.push(0u8)) == xor_fold(s),
{
    let x = xor_fold(s);
    assert(s.push(0u8).drop_last() =~= s);
    assert(x ^ 0u8 == x) by (bit_vector);
}

/// Zero padding appended after `s` leaves the XOR fold unchanged.
proof fn lemma_xor_fold_zero_pad(s: Seq<u8>, n: nat)
    ensures
        xor_fold(s + zero_bytes(n)) == xor_fold(s),
    decreases n,
{
    if n == 0 {
        assert(s + zero_bytes(0) =~= s);
    } else {
        assert(s + zero_bytes(n) =~= (s + zero_bytes((n - 1) as nat)).push(0u8));
        lemma_xor_fold_zero_pad(s, (n - 1) as nat);
        lemma_xor_fold_push_zero(s + zero_bytes((n - 1) as nat));
    }
}

/// Law: in every packet built from at most 88 serialized bytes — every
/// command of this crate serializes to 17 or fewer — the byte at offset 88
/// is the XOR fold of the packet bytes at offsets 2 through 87.
pub proof fn lemma_packet_checksum(s: Seq<u8>)
    requires
        s.len() <= MAX_LEN - 2,
    ensures
        packet_bytes(s)[MAX_LEN - 2] == xor_fold(packet_bytes(s).subrange(2, MAX_LEN - 2)),
{
    let p = packet_bytes(s);
    if s.len() <= 2 {
        assert(p.subrange(2, MAX_LEN - 2) =~= Seq::<u8>::empty() + zero_bytes((MAX_LEN - 4) as nat));
        lemma_xor_fold_zero_pad(Seq::<u8>::empty(), (MAX_LEN - 4) as nat);
    } else {
        let t = s.subrange(2, s.len() as int);
        assert(p.subrange(2, MAX_LEN - 2) =~= t + zero_bytes((MAX_LEN - 2 - s.len()) as nat));
        lemma_xor_fold_zero_pad(t, (MAX_LEN - 2 - s.len()) as nat);
    }
}

/// Law: encoding is deterministic. The packet is `packet_bytes` of the
/// message's wire bytes and of nothing else, so equal messages always
/// yield the same packet.
pub proof fn lemma_pack_deterministic<T: Message>(m1: T, m2: T)
    requires
        m1 == m2,
    ensures
        packet_bytes(m1.wire_bytes()) == packet_bytes(m2.wire_bytes()),
{
}

/// Serializes `msg` field by field, pads the bytes with zeroes (or cuts
/// them) to the fixed 90-byte packet size, and writes the checksum over the
/// serialized bytes at offset 88. Succeeds on every message; the offset-89
/// byte stays zero for every command of this crate, whose serialized form
/// never passes 17 bytes.
pub fn pack<T: Message>(msg: T) -> (r: Result<Vec<u8>, Error>)
    ensures
        r is Ok,
        r->Ok_0@ == packet_bytes(msg.wire_bytes()),
        r->Ok_0@.len() == MAX_LEN,
        msg.wire_bytes().len() <= MAX_LEN - 2 ==> r->Ok_0@[MAX_LEN - 2] == xor_fold(
            r->Ok_0@.subrange(2, MAX_LEN - 2),
        ),
        msg.wire_bytes().len() < MAX_LEN ==> r->Ok_0@[MAX_LEN - 1] == 0,
{
    let mut bytes = msg.serialize();
    let check = checksum(bytes.as_slice());
    let ghost s = msg.wire_bytes();
    bytes.resize(MAX_LEN, 0u8);
    proof {
        assert(bytes@ =~= pad_to_packet(s));
    }
    bytes[MAX_LEN - 2] = check;
    proof {
        assert(bytes@ =~= packet_bytes(s));
        if s.len() <= MAX_LEN - 2 {
            lemma_packet_checksum(s);
        }
    }
    Ok(bytes)
}

} // verus!
