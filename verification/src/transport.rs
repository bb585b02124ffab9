//! The transport cipher of an established session.
//!
//! Every frame is encrypted and authenticated under a nonce that counts the
//! frames of its direction. The two directions are independent. A frame that
//! fails authentication poisons the state: nothing is read after it.

use crate::error::Error;
use crate::noise::{
    snow_receiving_nonce, snow_sending_nonce, snow_transport_read, snow_transport_write,
    HEADER_SIZE, MAX_MESSAGE_SIZE, SNOW_TAGLEN,
};
use crate::wire::{lemma_le16_round_trip, push_le16, read_le16, spec_le16, spec_le16_bytes};
use snow::Error as SnowError;
use snow::TransportState;
use vstd::prelude::*;

verus! {

/// The transport state of `snow`, with the count of the frames of each
/// direction and the mark of a failed authentication.
#[derive(Debug)]
pub struct TransportMode {
    inner: TransportState,
    send_nonce: u64,
    recv_nonce: u64,
    poisoned: bool,
}

/// Why a frame cannot be encrypted, if it cannot: in this order, `TooLarge`
/// for a plaintext that does not fit in a frame with its tag, `ShortBuffer`
/// for an output that is not exactly as long as the plaintext and the tag,
/// `CipherExhausted` where the nonce is used up.
pub open spec fn spec_write_refusal(plain_len: nat, out_len: nat, send_nonce: u64) -> Option<
    Error,
> {
    if plain_len + SNOW_TAGLEN > MAX_MESSAGE_SIZE {
        Some(Error::TooLarge)
    } else if out_len != plain_len + SNOW_TAGLEN {
        Some(Error::ShortBuffer)
    } else if send_nonce == u64::MAX {
        Some(Error::CipherExhausted)
    } else {
        None
    }
}

/// Why a frame is not handed to the cipher, if it is not: in this order,
/// `AuthFailure` once the state is poisoned, `ShortBuffer` for a frame that
/// is shorter than a tag or longer than a frame can be, or for an output
/// that is too short for the plaintext, `AuthFailure` where the nonce is
/// used up.
pub open spec fn spec_read_refusal(
    encrypted_len: nat,
    out_len: nat,
    recv_nonce: u64,
    poisoned: bool,
) -> Option<Error> {
    if poisoned {
        Some(Error::AuthFailure)
    } else if encrypted_len < SNOW_TAGLEN || encrypted_len > MAX_MESSAGE_SIZE || out_len
        < encrypted_len - SNOW_TAGLEN {
        Some(Error::ShortBuffer)
    } else if recv_nonce == u64::MAX {
        Some(Error::AuthFailure)
    } else {
        None
    }
}

impl TransportMode {
    /// How many frames were sent: the nonce of the next one.
    pub closed spec fn spec_send_nonce(self) -> u64 {
        self.send_nonce
    }

    /// How many frames were received: the nonce of the next one.
    pub closed spec fn spec_recv_nonce(self) -> u64 {
        self.recv_nonce
    }

    /// Whether a frame failed authentication.
    pub closed spec fn spec_poisoned(self) -> bool {
        self.poisoned
    }

    /// The transport state of `snow` that does the work of the cipher.
    pub closed spec fn spec_inner(self) -> TransportState {
        self.inner
    }

    /// Takes over the transport state of a finished handshake: the mode
    /// holds the state that it was given, and no frame has failed yet. The
    /// counts of the frames start where the state has them.
    pub fn new(inner: TransportState) -> (mode: TransportMode)
        ensures
            mode.spec_inner() == inner,
            !mode.spec_poisoned(),
    {
        let send_nonce = snow_sending_nonce(&inner);
        let recv_nonce = snow_receiving_nonce(&inner);
        TransportMode { inner, send_nonce, recv_nonce, poisoned: false }
    }

    /// The nonce of the next frame that is sent.
    pub fn send_nonce(&self) -> (nonce: u64)
        ensures
            nonce == self.spec_send_nonce(),
    {
        self.send_nonce
    }

    /// The nonce of the next frame that is received.
    pub fn recv_nonce(&self) -> (nonce: u64)
        ensures
            nonce == self.spec_recv_nonce(),
    {
        self.recv_nonce
    }

    /// Whether a frame failed authentication, so that nothing is read any
    /// more.
    pub fn is_poisoned(&self) -> (poisoned: bool)
        ensures
            poisoned == self.spec_poisoned(),
    {
        self.poisoned
    }

    /// What is returned for what the cipher answered to an encryption: a
    /// refusal of the cipher is reported as `CipherExhausted`.
    pub fn write_outcome(answer: Result<usize, SnowError>) -> (res: Result<(), Error>)
        ensures
            res == (if answer is Ok {
                Ok::<(), Error>(())
            } else {
                Err::<(), Error>(Error::CipherExhausted)
            }),
    {
        match answer {
            Ok(_) => Ok(()),
            Err(_) => Err(Error::CipherExhausted),
        }
    }

    /// What is returned for what the cipher answered to a decryption: a
    /// refusal of the cipher is an authentication failure.
    pub fn read_outcome(answer: Result<usize, SnowError>) -> (res: Result<(), Error>)
        ensures
            res == (if answer is Ok {
                Ok::<(), Error>(())
            } else {
                Err::<(), Error>(Error::AuthFailure)
            }),
    {
        match answer {
            Ok(_) => Ok(()),
            Err(_) => Err(Error::AuthFailure),
        }
    }

    /// Decrypts and verifies `encrypted_msg` into `decrypted_msg`.
    ///
    /// A frame that is refused as `ShortBuffer` changes nothing. A frame
    /// that fails with `AuthFailure`, before the cipher or in it, leaves the
    /// state poisoned. On success the count of received frames goes up by
    /// one; `snow` has then written the plaintext to the start of
    /// `decrypted_msg`, of whose bytes nothing is stated here. The sending
    /// direction is never touched.
    #[inline(always)]
    pub fn read(&mut self, encrypted_msg: &[u8], decrypted_msg: &mut [u8]) -> (res: Result<
        (),
        Error,
    >)
        ensures
            final(decrypted_msg)@.len() == old(decrypted_msg)@.len(),
            final(self).spec_send_nonce() == old(self).spec_send_nonce(),
            spec_read_refusal(
                encrypted_msg@.len(),
                old(decrypted_msg)@.len(),
                old(self).spec_recv_nonce(),
                old(self).spec_poisoned(),
            ) matches Some(e) ==> {
                &&& res == Err::<(), Error>(e)
                &&& final(decrypted_msg)@ == old(decrypted_msg)@
                &&& final(self).spec_recv_nonce() == old(self).spec_recv_nonce()
                &&& final(self).spec_poisoned() == (e == Error::AuthFailure)
            },
            spec_read_refusal(
                encrypted_msg@.len(),
                old(decrypted_msg)@.len(),
                old(self).spec_recv_nonce(),
                old(self).spec_poisoned(),
            ) is None ==> {
                ||| {
                    &&& res is Ok
                    &&& final(self).spec_recv_nonce() == old(self).spec_recv_nonce() + 1
                    &&& !final(self).spec_poisoned()
                }
                ||| {
                    &&& res == Err::<(), Error>(Error::AuthFailure)
                    &&& final(self).spec_recv_nonce() == old(self).spec_recv_nonce()
                    &&& final(self).spec_poisoned()
                }
            },
    {
        if self.poisoned {
            return Err(Error::AuthFailure);
        }
        if encrypted_msg.len() < SNOW_TAGLEN || encrypted_msg.len() > MAX_MESSAGE_SIZE
            || decrypted_msg.len() < encrypted_msg.len() - SNOW_TAGLEN {
            return Err(Error::ShortBuffer);
        }
        if self.recv_nonce == u64::MAX {
            self.poisoned = true;
            return Err(Error::AuthFailure);
        }
        let answer = snow_transport_read(&mut self.inner, encrypted_msg, decrypted_msg);
        let res = Self::read_outcome(answer);
        match res {
            Ok(()) => {
                self.recv_nonce = self.recv_nonce + 1;
            },
            Err(_) => {
                self.poisoned = true;
            },
        }
        res
    }

    /// The length that the output of `read` needs for an encrypted message of
    /// `encrypted_msg_len` bytes: `None` for what is shorter than a tag.
    #[inline(always)]
    pub fn size_hint_decrypt(encrypted_msg_len: usize) -> (hint: Option<usize>)
        ensures
            hint == (if encrypted_msg_len >= SNOW_TAGLEN {
                Some((encrypted_msg_len - SNOW_TAGLEN) as usize)
            } else {
                None
            }),
    {
        encrypted_msg_len.checked_sub(SNOW_TAGLEN)
    }

    /// The length that the output of `write` needs for a payload of
    /// `payload_len` bytes.
    #[inline(always)]
    pub fn size_hint_encrypt(payload_len: usize) -> (hint: usize)
        requires
            payload_len + SNOW_TAGLEN <= usize::MAX,
        ensures
            hint == payload_len + SNOW_TAGLEN,
    {
        payload_len + SNOW_TAGLEN
    }

    /// Encrypts `plain_msg` into `encrypted_msg`, which must be exactly as
    /// long as the plaintext and its tag.
    ///
    /// A message that is refused before the cipher sees it changes nothing.
    /// On success the count of sent frames goes up by one; where the cipher
    /// refuses, the call fails with `CipherExhausted` and the output is as it
    /// was. The receiving direction is never touched.
    #[inline(always)]
    pub fn write(&mut self, plain_msg: &[u8], encrypted_msg: &mut [u8]) -> (res: Result<
        (),
        Error,
    >)
        ensures
            final(encrypted_msg)@.len() == old(encrypted_msg)@.len(),
            final(self).spec_recv_nonce() == old(self).spec_recv_nonce(),
            final(self).spec_poisoned() == old(self).spec_poisoned(),
            spec_write_refusal(
                plain_msg@.len(),
                old(encrypted_msg)@.len(),
                old(self).spec_send_nonce(),
            ) matches Some(e) ==> res == Err::<(), Error>(e),
            spec_write_refusal(
                plain_msg@.len(),
                old(encrypted_msg)@.len(),
                old(self).spec_send_nonce(),
            ) is None ==> res is Ok || res == Err::<(), Error>(Error::CipherExhausted),
            res is Ok ==> final(self).spec_send_nonce() == old(self).spec_send_nonce() + 1,
            res is Err ==> final(self).spec_send_nonce() == old(self).spec_send_nonce()
                && final(encrypted_msg)@ == old(encrypted_msg)@,
    {
        if plain_msg.len() > MAX_MESSAGE_SIZE - SNOW_TAGLEN {
            return Err(Error::TooLarge);
        }
        if encrypted_msg.len() != plain_msg.len() + SNOW_TAGLEN {
            return Err(Error::ShortBuffer);
        }
        if self.send_nonce == u64::MAX {
            return Err(Error::CipherExhausted);
        }
        let answer = snow_transport_write(&mut self.inner, plain_msg, encrypted_msg);
        let res = Self::write_outcome(answer);
        if res.is_ok() {
            self.send_nonce = self.send_nonce + 1;
        }
        res
    }
}

/// The two bytes that precede a frame on the wire: the length of what
/// follows, little-endian. Fails with `TooLarge` exactly when the header and
/// what follows are more than a frame can be.
pub fn encode_frame_header(payload_len: usize) -> (res: Result<Vec<u8>, Error>)
    ensures
        match res {
            Ok(header) => payload_len + HEADER_SIZE <= MAX_MESSAGE_SIZE && header@
                == spec_le16_bytes(payload_len as u16),
            Err(e) => e == Error::TooLarge && payload_len + HEADER_SIZE > MAX_MESSAGE_SIZE,
        },
{
    if payload_len > MAX_MESSAGE_SIZE - HEADER_SIZE {
        return Err(Error::TooLarge);
    }
    let mut header: Vec<u8> = Vec::new();
    push_le16(&mut header, payload_len as u16);
    assert(header@ =~= spec_le16_bytes(payload_len as u16));
    Ok(header)
}

/// The length of what follows the header of a frame. Fails with
/// `ShortBuffer` exactly when there are not two bytes of header, and with
/// `TooLarge` exactly when the header and what it announces are more than a
/// frame can be.
pub fn decode_frame_header(frame: &[u8]) -> (res: Result<usize, Error>)
    ensures
        match res {
            Ok(payload_len) => frame@.len() >= HEADER_SIZE && payload_len == spec_le16(frame@, 0)
                && payload_len + HEADER_SIZE <= MAX_MESSAGE_SIZE,
            Err(e) => if frame@.len() < HEADER_SIZE {
                e == Error::ShortBuffer
            } else {
                e == Error::TooLarge && spec_le16(frame@, 0) + HEADER_SIZE > MAX_MESSAGE_SIZE
            },
        },
{
    if frame.len() < HEADER_SIZE {
        return Err(Error::ShortBuffer);
    }
    let payload_len = read_le16(frame, 0) as usize;
    if payload_len > MAX_MESSAGE_SIZE - HEADER_SIZE {
        return Err(Error::TooLarge);
    }
    Ok(payload_len)
}

/// The header of a frame that fits announces the length that it was made
/// for, whatever follows it.
pub proof fn lemma_frame_header_round_trip(payload_len: usize, rest: Seq<u8>)
    requires
        payload_len + HEADER_SIZE <= MAX_MESSAGE_SIZE,
    ensures
        spec_le16(spec_le16_bytes(payload_len as u16) + rest, 0) == payload_len,
{
    let empty = Seq::<u8>::empty();
    assert(spec_le16_bytes(payload_len as u16) + rest =~= empty + spec_le16_bytes(
        payload_len as u16,
    ) + rest);
    lemma_le16_round_trip(empty, payload_len as u16, rest);
}

/// The output that `size_hint_encrypt` asks for is the input that
/// `size_hint_decrypt` gives the length of the payload back for: the two
/// hints are inverse to each other.
pub proof fn lemma_size_hints_inverse(payload_len: usize)
    requires
        payload_len + SNOW_TAGLEN <= usize::MAX,
    ensures
        (payload_len + SNOW_TAGLEN) as usize >= SNOW_TAGLEN,
        ((payload_len + SNOW_TAGLEN) as usize - SNOW_TAGLEN) as usize == payload_len,
{
}

/// A state that has failed an authentication reads nothing any more: every
/// frame is refused with `AuthFailure` before the cipher sees it, whatever
/// the frame, the buffer and the count of frames.
pub proof fn lemma_poisoned_refuses_all(encrypted_len: nat, out_len: nat, recv_nonce: u64)
    ensures
        spec_read_refusal(encrypted_len, out_len, recv_nonce, true) == Some(Error::AuthFailure),
{
}

} // verus!
