//! The repeating-key shift on byte buffers, and the laws that make it reversible.

use vstd::prelude::*;

verus! {

/// The key byte that falls on position `n` of a buffer: the key repeats over the
/// buffer from its start, whatever the buffer holds.
pub open spec fn key_byte(key: Seq<u8>, n: int) -> u8
    recommends
        key.len() > 0,
        0 <= n,
{
    key[n % (key.len() as int)]
}

/// `byte` moved up by `by`, modulo 256.
pub open spec fn byte_up(byte: u8, by: u8) -> u8 {
    ((byte + by) % 256) as u8
}

/// `byte` moved down by `by`, modulo 256.
pub open spec fn byte_down(byte: u8, by: u8) -> u8 {
    ((byte - by) % 256) as u8
}

/// The buffer in which every byte of `bytes` is moved up by its key byte.
pub open spec fn shifted_forward(bytes: Seq<u8>, key: Seq<u8>) -> Seq<u8>
    recommends
        key.len() > 0,
{
    Seq::new(bytes.len(), |n: int| byte_up(bytes[n], key_byte(key, n)))
}

/// The buffer in which every byte of `bytes` is moved down by its key byte.
pub open spec fn shifted_backward(bytes: Seq<u8>, key: Seq<u8>) -> Seq<u8>
    recommends
        key.len() > 0,
{
    Seq::new(bytes.len(), |n: int| byte_down(bytes[n], key_byte(key, n)))
}

/// Moves every byte of `bytes` up by the key byte on its position, in place.
pub fn shift_forward(bytes: &mut Vec<u8>, key: &[u8])
    requires
        key@.len() > 0,
    ensures
        final(bytes)@ == shifted_forward(old(bytes)@, key@),
        final(bytes)@.len() == old(bytes)@.len(),
{
    let key_len = key.len();
    let mut n: usize = 0;
    while n < bytes.len()
        invariant
            key_len == key@.len(),
            key_len > 0,
            n <= bytes@.len(),
            bytes@.len() == old(bytes)@.len(),
            forall|i: int| 0 <= i < n ==> bytes@[i] == byte_up(old(bytes)@[i], key_byte(key@, i)),
            forall|i: int| n <= i < bytes@.len() ==> bytes@[i] == old(bytes)@[i],
        decreases bytes@.len() - n,
    {
        let moved = bytes[n].wrapping_add(key[n % key_len]);
        bytes.set(n, moved);
        n += 1;
    }
}

/// Moves every byte of `bytes` down by the key byte on its position, in place.
pub fn shift_backward(bytes: &mut Vec<u8>, key: &[u8])
    requires
        key@.len() > 0,
    ensures
        final(bytes)@ == shifted_backward(old(bytes)@, key@),
        final(bytes)@.len() == old(bytes)@.len(),
{
    let key_len = key.len();
    let mut n: usize = 0;
    while n < bytes.len()
        invariant
            key_len == key@.len(),
            key_len > 0,
            n <= bytes@.len(),
            bytes@.len() == old(bytes)@.len(),
            forall|i: int| 0 <= i < n ==> bytes@[i] == byte_down(old(bytes)@[i], key_byte(key@, i)),
            forall|i: int| n <= i < bytes@.len() ==> bytes@[i] == old(bytes)@[i],
        decreases bytes@.len() - n,
    {
        let moved = bytes[n].wrapping_sub(key[n % key_len]);
        bytes.set(n, moved);
        n += 1;
    }
}

/// Moving a byte up and then down by the same amount gives the byte back, and so
/// does moving it down and then up: the wrap at 256 loses nothing.
pub proof fn lemma_byte_moves_cancel(byte: u8, by: u8)
    ensures
        byte_down(byte_up(byte, by), by) == byte,
        byte_up(byte_down(byte, by), by) == byte,
{
    let up = byte + by;
    let down = byte - by;
    if up < 256 {
        assert(up % 256 == up);
    } else {
        assert(up % 256 == up - 256);
        assert((byte - 256) % 256 == byte);
    }
    if down >= 0 {
        assert(down % 256 == down);
    } else {
        assert(down % 256 == down + 256);
        assert((byte + 256) % 256 == byte);
    }
    assert((byte as int) % 256 == byte);
}

/// A shift changes bytes, never their number: the shifted buffer is as long as the
/// buffer it was made from, in either direction and under any key.
pub proof fn lemma_shift_keeps_length(bytes: Seq<u8>, key: Seq<u8>)
    ensures
        shifted_forward(bytes, key).len() == bytes.len(),
        shifted_backward(bytes, key).len() == bytes.len(),
{
}

/// The two directions undo each other on byte buffers: under a key that is not
/// empty, shifting forward and then backward restores every byte, and so does
/// shifting backward and then forward. No character set enters into it.
pub proof fn lemma_shifts_are_inverse(bytes: Seq<u8>, key: Seq<u8>)
    requires
        key.len() > 0,
    ensures
        shifted_backward(shifted_forward(bytes, key), key) == bytes,
        shifted_forward(shifted_backward(bytes, key), key) == bytes,
{
    assert forall|n: int| 0 <= n < bytes.len() implies shifted_backward(
        shifted_forward(bytes, key),
        key,
    )[n] == bytes[n] by {
        lemma_byte_moves_cancel(bytes[n], key_byte(key, n));
    }
    assert forall|n: int| 0 <= n < bytes.len() implies shifted_forward(
        shifted_backward(bytes, key),
        key,
    )[n] == bytes[n] by {
        lemma_byte_moves_cancel(bytes[n], key_byte(key, n));
    }
    assert(shifted_backward(shifted_forward(bytes, key), key) =~= bytes);
    assert(shifted_forward(shifted_backward(bytes, key), key) =~= bytes);
}

} // verus!
