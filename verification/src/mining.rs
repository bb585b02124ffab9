//! The messages of the mining protocol, as far as the router looks into them.
//!
//! The router reads the type tag of every message and the fields of a share
//! submission. The body of every other message is handed on as the bytes that
//! came in: whoever handles the message decodes it.

use crate::error::Error;
use crate::wire::{
    lemma_le32_round_trip, push_le32, read_le32, spec_le32, spec_le32_bytes,
};
use vstd::prelude::*;
use vstd::slice::{slice_subrange, slice_to_vec};

verus! {

pub const MESSAGE_TYPE_OPEN_STANDARD_MINING_CHANNEL: u8 = 0x10;

pub const MESSAGE_TYPE_OPEN_STANDARD_MINING_CHANNEL_SUCCESS: u8 = 0x11;

pub const MESSAGE_TYPE_OPEN_MINING_CHANNEL_ERROR: u8 = 0x12;

pub const MESSAGE_TYPE_OPEN_EXTENDED_MINING_CHANNEL: u8 = 0x13;

pub const MESSAGE_TYPE_OPEN_EXTENDED_MINING_CHANNEL_SUCCESS: u8 = 0x14;

pub const MESSAGE_TYPE_NEW_MINING_JOB: u8 = 0x15;

pub const MESSAGE_TYPE_UPDATE_CHANNEL: u8 = 0x16;

pub const MESSAGE_TYPE_UPDATE_CHANNEL_ERROR: u8 = 0x17;

pub const MESSAGE_TYPE_CLOSE_CHANNEL: u8 = 0x18;

pub const MESSAGE_TYPE_SET_EXTRANONCE_PREFIX: u8 = 0x19;

pub const MESSAGE_TYPE_SUBMIT_SHARES_STANDARD: u8 = 0x1a;

pub const MESSAGE_TYPE_SUBMIT_SHARES_EXTENDED: u8 = 0x1b;

pub const MESSAGE_TYPE_SUBMIT_SHARES_SUCCESS: u8 = 0x1c;

pub const MESSAGE_TYPE_SUBMIT_SHARES_ERROR: u8 = 0x1d;

pub const MESSAGE_TYPE_NEW_EXTENDED_MINING_JOB: u8 = 0x1f;

pub const MESSAGE_TYPE_SET_NEW_PREV_HASH: u8 = 0x20;

pub const MESSAGE_TYPE_SET_TARGET: u8 = 0x21;

pub const MESSAGE_TYPE_SET_CUSTOM_MINING_JOB: u8 = 0x22;

pub const MESSAGE_TYPE_SET_CUSTOM_MINING_JOB_SUCCESS: u8 = 0x23;

pub const MESSAGE_TYPE_SET_CUSTOM_MINING_JOB_ERROR: u8 = 0x24;

pub const MESSAGE_TYPE_RECONNECT: u8 = 0x25;

pub const MESSAGE_TYPE_SET_GROUP_CHANNEL: u8 = 0x26;

/// Bytes of an encoded `SubmitSharesStandard`: six 32-bit fields.
pub const SUBMIT_SHARES_STANDARD_LEN: usize = 24;

/// Longest error code that the one-byte length prefix can announce.
pub const MAX_ERROR_CODE_LEN: usize = 255;

/// The kinds of mining message, one per type tag.
#[derive(Debug, Clone, Copy, PartialEq, Eq, Structural)]
pub enum MiningType {
    CloseChannel,
    NewExtendedMiningJob,
    NewMiningJob,
    OpenExtendedMiningChannel,
    OpenExtendedMiningChannelSuccess,
    OpenMiningChannelError,
    OpenStandardMiningChannel,
    OpenStandardMiningChannelSuccess,
    Reconnect,
    SetCustomMiningJob,
    SetCustomMiningJobError,
    SetCustomMiningJobSuccess,
    SetExtranoncePrefix,
    SetGroupChannel,
    SetNewPrevHash,
    SetTarget,
    SubmitSharesError,
    SubmitSharesExtended,
    SubmitSharesStandard,
    SubmitSharesSuccess,
    UpdateChannel,
    UpdateChannelError,
}

impl MiningType {
    /// The type tag that stands for this kind on the wire.
    pub open spec fn spec_code(self) -> u8 {
        match self {
            MiningType::CloseChannel => MESSAGE_TYPE_CLOSE_CHANNEL,
            MiningType::NewExtendedMiningJob => MESSAGE_TYPE_NEW_EXTENDED_MINING_JOB,
            MiningType::NewMiningJob => MESSAGE_TYPE_NEW_MINING_JOB,
            MiningType::OpenExtendedMiningChannel => MESSAGE_TYPE_OPEN_EXTENDED_MINING_CHANNEL,
            MiningType::OpenExtendedMiningChannelSuccess => MESSAGE_TYPE_OPEN_EXTENDED_MINING_CHANNEL_SUCCESS,
            MiningType::OpenMiningChannelError => MESSAGE_TYPE_OPEN_MINING_CHANNEL_ERROR,
            MiningType::OpenStandardMiningChannel => MESSAGE_TYPE_OPEN_STANDARD_MINING_CHANNEL,
            MiningType::OpenStandardMiningChannelSuccess => MESSAGE_TYPE_OPEN_STANDARD_MINING_CHANNEL_SUCCESS,
            MiningType::Reconnect => MESSAGE_TYPE_RECONNECT,
            MiningType::SetCustomMiningJob => MESSAGE_TYPE_SET_CUSTOM_MINING_JOB,
            MiningType::SetCustomMiningJobError => MESSAGE_TYPE_SET_CUSTOM_MINING_JOB_ERROR,
            MiningType::SetCustomMiningJobSuccess => MESSAGE_TYPE_SET_CUSTOM_MINING_JOB_SUCCESS,
            MiningType::SetExtranoncePrefix => MESSAGE_TYPE_SET_EXTRANONCE_PREFIX,
            MiningType::SetGroupChannel => MESSAGE_TYPE_SET_GROUP_CHANNEL,
            MiningType::SetNewPrevHash => MESSAGE_TYPE_SET_NEW_PREV_HASH,
            MiningType::SetTarget => MESSAGE_TYPE_SET_TARGET,
            MiningType::SubmitSharesError => MESSAGE_TYPE_SUBMIT_SHARES_ERROR,
            MiningType::SubmitSharesExtended => MESSAGE_TYPE_SUBMIT_SHARES_EXTENDED,
            MiningType::SubmitSharesStandard => MESSAGE_TYPE_SUBMIT_SHARES_STANDARD,
            MiningType::SubmitSharesSuccess => MESSAGE_TYPE_SUBMIT_SHARES_SUCCESS,
            MiningType::UpdateChannel => MESSAGE_TYPE_UPDATE_CHANNEL,
            MiningType::UpdateChannelError => MESSAGE_TYPE_UPDATE_CHANNEL_ERROR,
        }
    }

    /// The kind that a type tag stands for, if it stands for one.
    pub open spec fn spec_from_code(code: u8) -> Option<MiningType> {
        if code == MESSAGE_TYPE_CLOSE_CHANNEL {
            Some(MiningType::CloseChannel)
        } else if code == MESSAGE_TYPE_NEW_EXTENDED_MINING_JOB {
            Some(MiningType::NewExtendedMiningJob)
        } else if code == MESSAGE_TYPE_NEW_MINING_JOB {
            Some(MiningType::NewMiningJob)
        } else if code == MESSAGE_TYPE_OPEN_EXTENDED_MINING_CHANNEL {
            Some(MiningType::OpenExtendedMiningChannel)
        } else if code == MESSAGE_TYPE_OPEN_EXTENDED_MINING_CHANNEL_SUCCESS {
            Some(MiningType::OpenExtendedMiningChannelSuccess)
        } else if code == MESSAGE_TYPE_OPEN_MINING_CHANNEL_ERROR {
            Some(MiningType::OpenMiningChannelError)
        } else if code == MESSAGE_TYPE_OPEN_STANDARD_MINING_CHANNEL {
            Some(MiningType::OpenStandardMiningChannel)
        } else if code == MESSAGE_TYPE_OPEN_STANDARD_MINING_CHANNEL_SUCCESS {
            Some(MiningType::OpenStandardMiningChannelSuccess)
        } else if code == MESSAGE_TYPE_RECONNECT {
            Some(MiningType::Reconnect)
        } else if code == MESSAGE_TYPE_SET_CUSTOM_MINING_JOB {
            Some(MiningType::SetCustomMiningJob)
        } else if code == MESSAGE_TYPE_SET_CUSTOM_MINING_JOB_ERROR {
            Some(MiningType::SetCustomMiningJobError)
        } else if code == MESSAGE_TYPE_SET_CUSTOM_MINING_JOB_SUCCESS {
            Some(MiningType::SetCustomMiningJobSuccess)
        } else if code == MESSAGE_TYPE_SET_EXTRANONCE_PREFIX {
            Some(MiningType::SetExtranoncePrefix)
        } else if code == MESSAGE_TYPE_SET_GROUP_CHANNEL {
            Some(MiningType::SetGroupChannel)
        } else if code == MESSAGE_TYPE_SET_NEW_PREV_HASH {
            Some(MiningType::SetNewPrevHash)
        } else if code == MESSAGE_TYPE_SET_TARGET {
            Some(MiningType::SetTarget)
        } else if code == MESSAGE_TYPE_SUBMIT_SHARES_ERROR {
            Some(MiningType::SubmitSharesError)
        } else if code == MESSAGE_TYPE_SUBMIT_SHARES_EXTENDED {
            Some(MiningType::SubmitSharesExtended)
        } else if code == MESSAGE_TYPE_SUBMIT_SHARES_STANDARD {
            Some(MiningType::SubmitSharesStandard)
        } else if code == MESSAGE_TYPE_SUBMIT_SHARES_SUCCESS {
            Some(MiningType::SubmitSharesSuccess)
        } else if code == MESSAGE_TYPE_UPDATE_CHANNEL {
            Some(MiningType::UpdateChannel)
        } else if code == MESSAGE_TYPE_UPDATE_CHANNEL_ERROR {
            Some(MiningType::UpdateChannelError)
        } else {
            None
        }
    }

    #[verifier::when_used_as_spec(spec_code)]
    pub fn code(self) -> (c: u8)
        ensures
            c == self.spec_code(),
    {
        match self {
            MiningType::CloseChannel => MESSAGE_TYPE_CLOSE_CHANNEL,
            MiningType::NewExtendedMiningJob => MESSAGE_TYPE_NEW_EXTENDED_MINING_JOB,
            MiningType::NewMiningJob => MESSAGE_TYPE_NEW_MINING_JOB,
            MiningType::OpenExtendedMiningChannel => MESSAGE_TYPE_OPEN_EXTENDED_MINING_CHANNEL,
            MiningType::OpenExtendedMiningChannelSuccess => MESSAGE_TYPE_OPEN_EXTENDED_MINING_CHANNEL_SUCCESS,
            MiningType::OpenMiningChannelError => MESSAGE_TYPE_OPEN_MINING_CHANNEL_ERROR,
            MiningType::OpenStandardMiningChannel => MESSAGE_TYPE_OPEN_STANDARD_MINING_CHANNEL,
            MiningType::OpenStandardMiningChannelSuccess => MESSAGE_TYPE_OPEN_STANDARD_MINING_CHANNEL_SUCCESS,
            MiningType::Reconnect => MESSAGE_TYPE_RECONNECT,
            MiningType::SetCustomMiningJob => MESSAGE_TYPE_SET_CUSTOM_MINING_JOB,
            MiningType::SetCustomMiningJobError => MESSAGE_TYPE_SET_CUSTOM_MINING_JOB_ERROR,
            MiningType::SetCustomMiningJobSuccess => MESSAGE_TYPE_SET_CUSTOM_MINING_JOB_SUCCESS,
            MiningType::SetExtranoncePrefix => MESSAGE_TYPE_SET_EXTRANONCE_PREFIX,
            MiningType::SetGroupChannel => MESSAGE_TYPE_SET_GROUP_CHANNEL,
            MiningType::SetNewPrevHash => MESSAGE_TYPE_SET_NEW_PREV_HASH,
            MiningType::SetTarget => MESSAGE_TYPE_SET_TARGET,
            MiningType::SubmitSharesError => MESSAGE_TYPE_SUBMIT_SHARES_ERROR,
            MiningType::SubmitSharesExtended => MESSAGE_TYPE_SUBMIT_SHARES_EXTENDED,
            MiningType::SubmitSharesStandard => MESSAGE_TYPE_SUBMIT_SHARES_STANDARD,
            MiningType::SubmitSharesSuccess => MESSAGE_TYPE_SUBMIT_SHARES_SUCCESS,
            MiningType::UpdateChannel => MESSAGE_TYPE_UPDATE_CHANNEL,
            MiningType::UpdateChannelError => MESSAGE_TYPE_UPDATE_CHANNEL_ERROR,
        }
    }

    /// Reads a type tag. `None` for a tag that no mining message carries.
    pub fn from_code(code: u8) -> (k: Option<MiningType>)
        ensures
            k == Self::spec_from_code(code),
    {
        match code {
            MESSAGE_TYPE_CLOSE_CHANNEL => Some(MiningType::CloseChannel),
            MESSAGE_TYPE_NEW_EXTENDED_MINING_JOB => Some(MiningType::NewExtendedMiningJob),
            MESSAGE_TYPE_NEW_MINING_JOB => Some(MiningType::NewMiningJob),
            MESSAGE_TYPE_OPEN_EXTENDED_MINING_CHANNEL => Some(MiningType::OpenExtendedMiningChannel),
            MESSAGE_TYPE_OPEN_EXTENDED_MINING_CHANNEL_SUCCESS => Some(
                MiningType::OpenExtendedMiningChannelSuccess,
            ),
            MESSAGE_TYPE_OPEN_MINING_CHANNEL_ERROR => Some(MiningType::OpenMiningChannelError),
            MESSAGE_TYPE_OPEN_STANDARD_MINING_CHANNEL => Some(MiningType::OpenStandardMiningChannel),
            MESSAGE_TYPE_OPEN_STANDARD_MINING_CHANNEL_SUCCESS => Some(
                MiningType::OpenStandardMiningChannelSuccess,
            ),
            MESSAGE_TYPE_RECONNECT => Some(MiningType::Reconnect),
            MESSAGE_TYPE_SET_CUSTOM_MINING_JOB => Some(MiningType::SetCustomMiningJob),
            MESSAGE_TYPE_SET_CUSTOM_MINING_JOB_ERROR => Some(MiningType::SetCustomMiningJobError),
            MESSAGE_TYPE_SET_CUSTOM_MINING_JOB_SUCCESS => Some(
                MiningType::SetCustomMiningJobSuccess,
            ),
            MESSAGE_TYPE_SET_EXTRANONCE_PREFIX => Some(MiningType::SetExtranoncePrefix),
            MESSAGE_TYPE_SET_GROUP_CHANNEL => Some(MiningType::SetGroupChannel),
            MESSAGE_TYPE_SET_NEW_PREV_HASH => Some(MiningType::SetNewPrevHash),
            MESSAGE_TYPE_SET_TARGET => Some(MiningType::SetTarget),
            MESSAGE_TYPE_SUBMIT_SHARES_ERROR => Some(MiningType::SubmitSharesError),
            MESSAGE_TYPE_SUBMIT_SHARES_EXTENDED => Some(MiningType::SubmitSharesExtended),
            MESSAGE_TYPE_SUBMIT_SHARES_STANDARD => Some(MiningType::SubmitSharesStandard),
            MESSAGE_TYPE_SUBMIT_SHARES_SUCCESS => Some(MiningType::SubmitSharesSuccess),
            MESSAGE_TYPE_UPDATE_CHANNEL => Some(MiningType::UpdateChannel),
            MESSAGE_TYPE_UPDATE_CHANNEL_ERROR => Some(MiningType::UpdateChannelError),
            _ => None,
        }
    }
}

/// Every kind is found again from its tag, and a tag names at most one kind.
pub proof fn lemma_type_tag_round_trip(kind: MiningType, code: u8)
    ensures
        MiningType::spec_from_code(kind.spec_code()) == Some(kind),
        MiningType::spec_from_code(code) == Some(kind) ==> kind.spec_code() == code,
{
}

/// The body of a message that the router does not look into.
#[derive(Debug, Clone, PartialEq, Eq)]
pub struct Payload {
    pub bytes: Vec<u8>,
}

/// A share found on a standard channel.
#[derive(Debug, Clone, Copy, PartialEq, Eq, Structural)]
pub struct SubmitSharesStandard {
    pub channel_id: u32,
    pub sequence_number: u32,
    pub job_id: u32,
    pub nonce: u32,
    pub ntime: u32,
    pub version: u32,
}

impl SubmitSharesStandard {
    /// The share that the first 24 bytes of a body spell. A body may be
    /// longer: what follows the six fields is not read.
    pub open spec fn spec_from_bytes(s: Seq<u8>) -> Option<SubmitSharesStandard> {
        if s.len() < SUBMIT_SHARES_STANDARD_LEN {
            None
        } else {
            Some(
                SubmitSharesStandard {
                    channel_id: spec_le32(s, 0) as u32,
                    sequence_number: spec_le32(s, 4) as u32,
                    job_id: spec_le32(s, 8) as u32,
                    nonce: spec_le32(s, 12) as u32,
                    ntime: spec_le32(s, 16) as u32,
                    version: spec_le32(s, 20) as u32,
                },
            )
        }
    }

    /// The 24 bytes of the share: its six fields in order, each little-endian.
    pub open spec fn spec_to_bytes(self) -> Seq<u8> {
        spec_le32_bytes(self.channel_id) + spec_le32_bytes(self.sequence_number) + spec_le32_bytes(
            self.job_id,
        ) + spec_le32_bytes(self.nonce) + spec_le32_bytes(self.ntime) + spec_le32_bytes(
            self.version,
        )
    }

    /// Decodes a share. Fails with `BadMessage` exactly on a body shorter
    /// than 24 bytes.
    pub fn from_bytes(payload: &[u8]) -> (res: Result<SubmitSharesStandard, Error>)
        ensures
            match res {
                Ok(m) => Self::spec_from_bytes(payload@) == Some(m),
                Err(e) => e == Error::BadMessage && Self::spec_from_bytes(payload@) is None,
            },
    {
        if payload.len() < SUBMIT_SHARES_STANDARD_LEN {
            return Err(Error::BadMessage);
        }
        Ok(
            SubmitSharesStandard {
                channel_id: read_le32(payload, 0),
                sequence_number: read_le32(payload, 4),
                job_id: read_le32(payload, 8),
                nonce: read_le32(payload, 12),
                ntime: read_le32(payload, 16),
                version: read_le32(payload, 20),
            },
        )
    }

    /// Encodes the share.
    pub fn to_bytes(&self) -> (out: Vec<u8>)
        ensures
            out@ == self.spec_to_bytes(),
            out@.len() == SUBMIT_SHARES_STANDARD_LEN,
    {
        let mut out: Vec<u8> = Vec::new();
        push_le32(&mut out, self.channel_id);
        push_le32(&mut out, self.sequence_number);
        push_le32(&mut out, self.job_id);
        push_le32(&mut out, self.nonce);
        push_le32(&mut out, self.ntime);
        push_le32(&mut out, self.version);
        assert(out@ =~= self.spec_to_bytes());
        out
    }
}

/// A share that is encoded and decoded again is the same share, whatever
/// follows it in the body.
pub proof fn lemma_share_round_trip(m: SubmitSharesStandard, tail: Seq<u8>)
    ensures
        SubmitSharesStandard::spec_from_bytes(m.spec_to_bytes() + tail) == Some(m),
{
    let a = spec_le32_bytes(m.channel_id);
    let b = spec_le32_bytes(m.sequence_number);
    let c = spec_le32_bytes(m.job_id);
    let d = spec_le32_bytes(m.nonce);
    let e = spec_le32_bytes(m.ntime);
    let f = spec_le32_bytes(m.version);
    let s = m.spec_to_bytes() + tail;
    let empty = Seq::<u8>::empty();
    assert(s =~= empty + a + (b + c + d + e + f + tail));
    lemma_le32_round_trip(empty, m.channel_id, b + c + d + e + f + tail);
    assert(s =~= a + b + (c + d + e + f + tail));
    lemma_le32_round_trip(a, m.sequence_number, c + d + e + f + tail);
    assert(s =~= (a + b) + c + (d + e + f + tail));
    lemma_le32_round_trip(a + b, m.job_id, d + e + f + tail);
    assert(s =~= (a + b + c) + d + (e + f + tail));
    lemma_le32_round_trip(a + b + c, m.nonce, e + f + tail);
    assert(s =~= (a + b + c + d) + e + (f + tail));
    lemma_le32_round_trip(a + b + c + d, m.ntime, f + tail);
    assert(s =~= (a + b + c + d + e) + f + tail);
    lemma_le32_round_trip(a + b + c + d + e, m.version, tail);
}

/// The refusal of a share: the channel and the sequence number of the share,
/// and an error code of at most 255 bytes.
#[derive(Debug, Clone, PartialEq, Eq)]
pub struct SubmitSharesError {
    pub channel_id: u32,
    pub sequence_number: u32,
    pub error_code: Vec<u8>,
}

/// What a `SubmitSharesError` holds.
pub struct SubmitSharesErrorView {
    pub channel_id: u32,
    pub sequence_number: u32,
    pub error_code: Seq<u8>,
}

impl View for SubmitSharesError {
    type V = SubmitSharesErrorView;

    open spec fn view(&self) -> SubmitSharesErrorView {
        SubmitSharesErrorView {
            channel_id: self.channel_id,
            sequence_number: self.sequence_number,
            error_code: self.error_code@,
        }
    }
}

impl SubmitSharesErrorView {
    /// The error code fits behind a one-byte length.
    pub open spec fn encodable(self) -> bool {
        self.error_code.len() <= MAX_ERROR_CODE_LEN
    }

    /// The two numbers, the length of the error code in one byte, the code.
    pub open spec fn to_bytes(self) -> Seq<u8> {
        spec_le32_bytes(self.channel_id) + spec_le32_bytes(self.sequence_number)
            + seq![self.error_code.len() as u8] + self.error_code
    }

    /// The refusal that a body spells: the two numbers, then as many bytes
    /// of error code as the ninth byte says. What follows is not read.
    pub open spec fn from_bytes(s: Seq<u8>) -> Option<SubmitSharesErrorView> {
        if s.len() < 9 || s.len() < 9 + s[8] {
            None
        } else {
            Some(
                SubmitSharesErrorView {
                    channel_id: spec_le32(s, 0) as u32,
                    sequence_number: spec_le32(s, 4) as u32,
                    error_code: s.subrange(9, 9 + s[8]),
                },
            )
        }
    }
}

impl SubmitSharesError {
    /// Decodes a refusal. Fails with `BadMessage` exactly on a body that
    /// ends before the error code does.
    pub fn from_bytes(payload: &[u8]) -> (res: Result<SubmitSharesError, Error>)
        ensures
            match res {
                Ok(m) => SubmitSharesErrorView::from_bytes(payload@) == Some(m@),
                Err(e) => e == Error::BadMessage && SubmitSharesErrorView::from_bytes(payload@)
                    is None,
            },
    {
        if payload.len() < 9 {
            return Err(Error::BadMessage);
        }
        let code_len: usize = payload[8] as usize;
        if payload.len() < 9 + code_len {
            return Err(Error::BadMessage);
        }
        let error_code = slice_to_vec(slice_subrange(payload, 9, 9 + code_len));
        Ok(
            SubmitSharesError {
                channel_id: read_le32(payload, 0),
                sequence_number: read_le32(payload, 4),
                error_code,
            },
        )
    }

    /// Encodes the refusal. Fails with `BadMessage` exactly when the error
    /// code is longer than 255 bytes.
    pub fn to_bytes(&self) -> (res: Result<Vec<u8>, Error>)
        ensures
            match res {
                Ok(out) => self@.encodable() && out@ == self@.to_bytes(),
                Err(e) => e == Error::BadMessage && !self@.encodable(),
            },
    {
        if self.error_code.len() > MAX_ERROR_CODE_LEN {
            return Err(Error::BadMessage);
        }
        let mut out: Vec<u8> = Vec::new();
        push_le32(&mut out, self.channel_id);
        push_le32(&mut out, self.sequence_number);
        out.push(self.error_code.len() as u8);
        let n = self.error_code.len();
        let mut i: usize = 0;
        while i < n
            invariant
                n == self.error_code@.len(),
                i <= n,
                out@ == spec_le32_bytes(self.channel_id) + spec_le32_bytes(self.sequence_number)
                    + seq![n as u8] + self.error_code@.subrange(0, i as int),
            decreases n - i,
        {
            out.push(self.error_code[i]);
            i = i + 1;
        }
        assert(self.error_code@.subrange(0, n as int) =~= self.error_code@);
        Ok(out)
    }
}

/// A refusal that is encoded and decoded again is the same refusal, whatever
/// follows it in the body.
pub proof fn lemma_share_error_round_trip(m: SubmitSharesErrorView, tail: Seq<u8>)
    requires
        m.encodable(),
    ensures
        SubmitSharesErrorView::from_bytes(m.to_bytes() + tail) == Some(m),
{
    let a = spec_le32_bytes(m.channel_id);
    let b = spec_le32_bytes(m.sequence_number);
    let l = seq![m.error_code.len() as u8];
    let s = m.to_bytes() + tail;
    let empty = Seq::<u8>::empty();
    assert(s =~= empty + a + (b + l + m.error_code + tail));
    lemma_le32_round_trip(empty, m.channel_id, b + l + m.error_code + tail);
    assert(s =~= a + b + (l + m.error_code + tail));
    lemma_le32_round_trip(a, m.sequence_number, l + m.error_code + tail);
    assert(s[8] == m.error_code.len() as u8);
    assert(s.subrange(9, 9 + s[8]) =~= m.error_code);
}

/// A mining message. A share submission and its refusal are decoded; of the
/// others the message keeps the body as it came.
#[derive(Debug, Clone, PartialEq, Eq)]
pub enum Mining {
    CloseChannel(Payload),
    NewExtendedMiningJob(Payload),
    NewMiningJob(Payload),
    OpenExtendedMiningChannel(Payload),
    OpenExtendedMiningChannelSuccess(Payload),
    OpenMiningChannelError(Payload),
    OpenStandardMiningChannel(Payload),
    OpenStandardMiningChannelSuccess(Payload),
    Reconnect(Payload),
    SetCustomMiningJob(Payload),
    SetCustomMiningJobError(Payload),
    SetCustomMiningJobSuccess(Payload),
    SetExtranoncePrefix(Payload),
    SetGroupChannel(Payload),
    SetNewPrevHash(Payload),
    SetTarget(Payload),
    SubmitSharesError(SubmitSharesError),
    SubmitSharesExtended(Payload),
    SubmitSharesStandard(SubmitSharesStandard),
    SubmitSharesSuccess(Payload),
    UpdateChannel(Payload),
    UpdateChannelError(Payload),
}

impl Mining {
    /// The kind of the message.
    pub open spec fn spec_message_type(self) -> MiningType {
        match self {
            Mining::CloseChannel(_) => MiningType::CloseChannel,
            Mining::NewExtendedMiningJob(_) => MiningType::NewExtendedMiningJob,
            Mining::NewMiningJob(_) => MiningType::NewMiningJob,
            Mining::OpenExtendedMiningChannel(_) => MiningType::OpenExtendedMiningChannel,
            Mining::OpenExtendedMiningChannelSuccess(_) => MiningType::OpenExtendedMiningChannelSuccess,
            Mining::OpenMiningChannelError(_) => MiningType::OpenMiningChannelError,
            Mining::OpenStandardMiningChannel(_) => MiningType::OpenStandardMiningChannel,
            Mining::OpenStandardMiningChannelSuccess(_) => MiningType::OpenStandardMiningChannelSuccess,
            Mining::Reconnect(_) => MiningType::Reconnect,
            Mining::SetCustomMiningJob(_) => MiningType::SetCustomMiningJob,
            Mining::SetCustomMiningJobError(_) => MiningType::SetCustomMiningJobError,
            Mining::SetCustomMiningJobSuccess(_) => MiningType::SetCustomMiningJobSuccess,
            Mining::SetExtranoncePrefix(_) => MiningType::SetExtranoncePrefix,
            Mining::SetGroupChannel(_) => MiningType::SetGroupChannel,
            Mining::SetNewPrevHash(_) => MiningType::SetNewPrevHash,
            Mining::SetTarget(_) => MiningType::SetTarget,
            Mining::SubmitSharesError(_) => MiningType::SubmitSharesError,
            Mining::SubmitSharesExtended(_) => MiningType::SubmitSharesExtended,
            Mining::SubmitSharesStandard(_) => MiningType::SubmitSharesStandard,
            Mining::SubmitSharesSuccess(_) => MiningType::SubmitSharesSuccess,
            Mining::UpdateChannel(_) => MiningType::UpdateChannel,
            Mining::UpdateChannelError(_) => MiningType::UpdateChannelError,
        }
    }

    /// The body as it came, for a message that the router does not decode.
    pub open spec fn spec_raw(self) -> Option<Seq<u8>> {
        match self {
            Mining::SubmitSharesError(_) => None,
            Mining::SubmitSharesStandard(_) => None,
            Mining::CloseChannel(p) => Some(p.bytes@),
            Mining::NewExtendedMiningJob(p) => Some(p.bytes@),
            Mining::NewMiningJob(p) => Some(p.bytes@),
            Mining::OpenExtendedMiningChannel(p) => Some(p.bytes@),
            Mining::OpenExtendedMiningChannelSuccess(p) => Some(p.bytes@),
            Mining::OpenMiningChannelError(p) => Some(p.bytes@),
            Mining::OpenStandardMiningChannel(p) => Some(p.bytes@),
            Mining::OpenStandardMiningChannelSuccess(p) => Some(p.bytes@),
            Mining::Reconnect(p) => Some(p.bytes@),
            Mining::SetCustomMiningJob(p) => Some(p.bytes@),
            Mining::SetCustomMiningJobError(p) => Some(p.bytes@),
            Mining::SetCustomMiningJobSuccess(p) => Some(p.bytes@),
            Mining::SetExtranoncePrefix(p) => Some(p.bytes@),
            Mining::SetGroupChannel(p) => Some(p.bytes@),
            Mining::SetNewPrevHash(p) => Some(p.bytes@),
            Mining::SetTarget(p) => Some(p.bytes@),
            Mining::SubmitSharesExtended(p) => Some(p.bytes@),
            Mining::SubmitSharesSuccess(p) => Some(p.bytes@),
            Mining::UpdateChannel(p) => Some(p.bytes@),
            Mining::UpdateChannelError(p) => Some(p.bytes@),
        }
    }

    /// Whether the message can be put on the wire: a refusal with too long
    /// an error code cannot.
    pub open spec fn spec_encodable(self) -> bool {
        self matches Mining::SubmitSharesError(e) ==> e@.encodable()
    }

    /// The body of the message on the wire.
    pub open spec fn spec_body(self) -> Seq<u8> {
        match self {
            Mining::SubmitSharesError(e) => e@.to_bytes(),
            Mining::SubmitSharesStandard(m) => m.spec_to_bytes(),
            _ => self.spec_raw().unwrap(),
        }
    }

    /// Whether a tag and a body make a mining message: the tag is one of the
    /// 22, and a share or a refusal is complete.
    pub open spec fn spec_decodable(message_type: u8, payload: Seq<u8>) -> bool {
        match MiningType::spec_from_code(message_type) {
            None => false,
            Some(MiningType::SubmitSharesStandard) => SubmitSharesStandard::spec_from_bytes(
                payload,
            ) is Some,
            Some(MiningType::SubmitSharesError) => SubmitSharesErrorView::from_bytes(payload)
                is Some,
            Some(_) => true,
        }
    }

    /// Whether `m` is the message that a tag and a body spell.
    pub open spec fn spec_decodes_to(message_type: u8, payload: Seq<u8>, m: Mining) -> bool {
        &&& m.spec_message_type().spec_code() == message_type
        &&& match m {
            Mining::SubmitSharesStandard(s) => SubmitSharesStandard::spec_from_bytes(payload)
                == Some(s),
            Mining::SubmitSharesError(e) => SubmitSharesErrorView::from_bytes(payload) == Some(
                e@,
            ),
            _ => m.spec_raw() == Some(payload),
        }
    }

    pub fn message_type(&self) -> (k: MiningType)
        ensures
            k == self.spec_message_type(),
    {
        match self {
            Mining::CloseChannel(_) => MiningType::CloseChannel,
            Mining::NewExtendedMiningJob(_) => MiningType::NewExtendedMiningJob,
            Mining::NewMiningJob(_) => MiningType::NewMiningJob,
            Mining::OpenExtendedMiningChannel(_) => MiningType::OpenExtendedMiningChannel,
            Mining::OpenExtendedMiningChannelSuccess(_) => MiningType::OpenExtendedMiningChannelSuccess,
            Mining::OpenMiningChannelError(_) => MiningType::OpenMiningChannelError,
            Mining::OpenStandardMiningChannel(_) => MiningType::OpenStandardMiningChannel,
            Mining::OpenStandardMiningChannelSuccess(_) => MiningType::OpenStandardMiningChannelSuccess,
            Mining::Reconnect(_) => MiningType::Reconnect,
            Mining::SetCustomMiningJob(_) => MiningType::SetCustomMiningJob,
            Mining::SetCustomMiningJobError(_) => MiningType::SetCustomMiningJobError,
            Mining::SetCustomMiningJobSuccess(_) => MiningType::SetCustomMiningJobSuccess,
            Mining::SetExtranoncePrefix(_) => MiningType::SetExtranoncePrefix,
            Mining::SetGroupChannel(_) => MiningType::SetGroupChannel,
            Mining::SetNewPrevHash(_) => MiningType::SetNewPrevHash,
            Mining::SetTarget(_) => MiningType::SetTarget,
            Mining::SubmitSharesError(_) => MiningType::SubmitSharesError,
            Mining::SubmitSharesExtended(_) => MiningType::SubmitSharesExtended,
            Mining::SubmitSharesStandard(_) => MiningType::SubmitSharesStandard,
            Mining::SubmitSharesSuccess(_) => MiningType::SubmitSharesSuccess,
            Mining::UpdateChannel(_) => MiningType::UpdateChannel,
            Mining::UpdateChannelError(_) => MiningType::UpdateChannelError,
        }
    }

    /// Encodes the body of the message. Fails with `BadMessage` exactly for
    /// a refusal whose error code is longer than 255 bytes.
    pub fn to_bytes(&self) -> (res: Result<Vec<u8>, Error>)
        ensures
            match res {
                Ok(out) => self.spec_encodable() && out@ == self.spec_body(),
                Err(e) => e == Error::BadMessage && !self.spec_encodable(),
            },
    {
        match self {
            Mining::SubmitSharesStandard(m) => Ok(m.to_bytes()),
            Mining::SubmitSharesError(m) => m.to_bytes(),
            Mining::CloseChannel(p) => Ok(slice_to_vec(p.bytes.as_slice())),
            Mining::NewExtendedMiningJob(p) => Ok(slice_to_vec(p.bytes.as_slice())),
            Mining::NewMiningJob(p) => Ok(slice_to_vec(p.bytes.as_slice())),
            Mining::OpenExtendedMiningChannel(p) => Ok(slice_to_vec(p.bytes.as_slice())),
            Mining::OpenExtendedMiningChannelSuccess(p) => Ok(slice_to_vec(p.bytes.as_slice())),
            Mining::OpenMiningChannelError(p) => Ok(slice_to_vec(p.bytes.as_slice())),
            Mining::OpenStandardMiningChannel(p) => Ok(slice_to_vec(p.bytes.as_slice())),
            Mining::OpenStandardMiningChannelSuccess(p) => Ok(slice_to_vec(p.bytes.as_slice())),
            Mining::Reconnect(p) => Ok(slice_to_vec(p.bytes.as_slice())),
            Mining::SetCustomMiningJob(p) => Ok(slice_to_vec(p.bytes.as_slice())),
            Mining::SetCustomMiningJobError(p) => Ok(slice_to_vec(p.bytes.as_slice())),
            Mining::SetCustomMiningJobSuccess(p) => Ok(slice_to_vec(p.bytes.as_slice())),
            Mining::SetExtranoncePrefix(p) => Ok(slice_to_vec(p.bytes.as_slice())),
            Mining::SetGroupChannel(p) => Ok(slice_to_vec(p.bytes.as_slice())),
            Mining::SetNewPrevHash(p) => Ok(slice_to_vec(p.bytes.as_slice())),
            Mining::SetTarget(p) => Ok(slice_to_vec(p.bytes.as_slice())),
            Mining::SubmitSharesExtended(p) => Ok(slice_to_vec(p.bytes.as_slice())),
            Mining::SubmitSharesSuccess(p) => Ok(slice_to_vec(p.bytes.as_slice())),
            Mining::UpdateChannel(p) => Ok(slice_to_vec(p.bytes.as_slice())),
            Mining::UpdateChannelError(p) => Ok(slice_to_vec(p.bytes.as_slice())),
        }
    }

    /// Decodes a message from its type tag and its body.
    ///
    /// Fails with `BadMessage` exactly when the tag is unknown or a share or
    /// refusal is cut short.
    pub fn decode(message_type: u8, payload: &[u8]) -> (res: Result<Mining, Error>)
        ensures
            match res {
                Ok(m) => Self::spec_decodable(message_type, payload@) && Self::spec_decodes_to(
                    message_type,
                    payload@,
                    m,
                ),
                Err(e) => e == Error::BadMessage && !Self::spec_decodable(message_type, payload@),
            },
    {
        let kind = match MiningType::from_code(message_type) {
            Some(kind) => kind,
            None => {
                return Err(Error::BadMessage);
            },
        };
        match kind {
            MiningType::SubmitSharesStandard => {
                match SubmitSharesStandard::from_bytes(payload) {
                    Ok(m) => Ok(Mining::SubmitSharesStandard(m)),
                    Err(e) => Err(e),
                }
            },
            MiningType::SubmitSharesError => {
                match SubmitSharesError::from_bytes(payload) {
                    Ok(m) => Ok(Mining::SubmitSharesError(m)),
                    Err(e) => Err(e),
                }
            },
            MiningType::CloseChannel => Ok(Mining::CloseChannel(Payload { bytes: slice_to_vec(payload) })),
            MiningType::NewExtendedMiningJob => Ok(
                Mining::NewExtendedMiningJob(Payload { bytes: slice_to_vec(payload) }),
            ),
            MiningType::NewMiningJob => Ok(Mining::NewMiningJob(Payload { bytes: slice_to_vec(payload) })),
            MiningType::OpenExtendedMiningChannel => Ok(
                Mining::OpenExtendedMiningChannel(Payload { bytes: slice_to_vec(payload) }),
            ),
            MiningType::OpenExtendedMiningChannelSuccess => Ok(
                Mining::OpenExtendedMiningChannelSuccess(Payload { bytes: slice_to_vec(payload) }),
            ),
            MiningType::OpenMiningChannelError => Ok(
                Mining::OpenMiningChannelError(Payload { bytes: slice_to_vec(payload) }),
            ),
            MiningType::OpenStandardMiningChannel => Ok(
                Mining::OpenStandardMiningChannel(Payload { bytes: slice_to_vec(payload) }),
            ),
            MiningType::OpenStandardMiningChannelSuccess => Ok(
                Mining::OpenStandardMiningChannelSuccess(Payload { bytes: slice_to_vec(payload) }),
            ),
            MiningType::Reconnect => Ok(Mining::Reconnect(Payload { bytes: slice_to_vec(payload) })),
            MiningType::SetCustomMiningJob => Ok(
                Mining::SetCustomMiningJob(Payload { bytes: slice_to_vec(payload) }),
            ),
            MiningType::SetCustomMiningJobError => Ok(
                Mining::SetCustomMiningJobError(Payload { bytes: slice_to_vec(payload) }),
            ),
            MiningType::SetCustomMiningJobSuccess => Ok(
                Mining::SetCustomMiningJobSuccess(Payload { bytes: slice_to_vec(payload) }),
            ),
            MiningType::SetExtranoncePrefix => Ok(
                Mining::SetExtranoncePrefix(Payload { bytes: slice_to_vec(payload) }),
            ),
            MiningType::SetGroupChannel => Ok(
                Mining::SetGroupChannel(Payload { bytes: slice_to_vec(payload) }),
            ),
            MiningType::SetNewPrevHash => Ok(
                Mining::SetNewPrevHash(Payload { bytes: slice_to_vec(payload) }),
            ),
            MiningType::SetTarget => Ok(Mining::SetTarget(Payload { bytes: slice_to_vec(payload) })),
            MiningType::SubmitSharesExtended => Ok(
                Mining::SubmitSharesExtended(Payload { bytes: slice_to_vec(payload) }),
            ),
            MiningType::SubmitSharesSuccess => Ok(
                Mining::SubmitSharesSuccess(Payload { bytes: slice_to_vec(payload) }),
            ),
            MiningType::UpdateChannel => Ok(Mining::UpdateChannel(Payload { bytes: slice_to_vec(payload) })),
            MiningType::UpdateChannelError => Ok(
                Mining::UpdateChannelError(Payload { bytes: slice_to_vec(payload) }),
            ),
        }
    }
}

/// A message that is put on the wire and decoded again is the same message:
/// the tag of its kind and its body spell it.
pub proof fn lemma_message_round_trip(m: Mining)
    requires
        m.spec_encodable(),
    ensures
        Mining::spec_decodable(m.spec_message_type().spec_code(), m.spec_body()),
        Mining::spec_decodes_to(m.spec_message_type().spec_code(), m.spec_body(), m),
{
    let kind = m.spec_message_type();
    assert(MiningType::spec_from_code(kind.spec_code()) == Some(kind)) by {
        lemma_type_tag_round_trip(kind, 0);
    }
    if let Mining::SubmitSharesStandard(s) = m {
        assert(SubmitSharesStandard::spec_from_bytes(s.spec_to_bytes()) == Some(s)) by {
            lemma_share_round_trip(s, Seq::<u8>::empty());
            assert(s.spec_to_bytes() + Seq::<u8>::empty() =~= s.spec_to_bytes());
        }
    } else if let Mining::SubmitSharesError(e) = m {
        assert(SubmitSharesErrorView::from_bytes(e@.to_bytes()) == Some(e@)) by {
            lemma_share_error_round_trip(e@, Seq::<u8>::empty());
            assert(e@.to_bytes() + Seq::<u8>::empty() =~= e@.to_bytes());
        }
    }
}

} // verus!
