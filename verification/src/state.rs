//! The payloads of the four instructions and the two records that escrow
//! accounts hold, with their byte layout.
//!
//! Every value is laid out in field order with no framing: integers as eight
//! little-endian bytes, addresses as their 32 raw bytes.

use crate::codec::{get_i64, get_u64, i64_le, le_i64, le_u64, put_i64, put_u64, u64_le};
use crate::codec::{lemma_i64_bytes_round_trip, lemma_i64_round_trip, lemma_le_u64_bounds};
use crate::codec::{lemma_u64_bytes_round_trip, lemma_u64_round_trip};
use crate::error::CodecError;
use crate::pubkey::Pubkey;
use vstd::prelude::*;

verus! {

/// What a buffer of `len` bytes lacks to hold exactly one value of `size` bytes.
pub open spec fn frame(len: nat, size: nat) -> Result<(), CodecError> {
    if len < size {
        Err(CodecError::UnexpectedLength)
    } else if len > size {
        Err(CodecError::NotAllBytesRead)
    } else {
        Ok(())
    }
}

/// `dst` after `src` was written over its front: all of `src` where it fits,
/// else as much of it as `dst` has room for.
pub open spec fn overwritten(dst: Seq<u8>, src: Seq<u8>) -> Seq<u8> {
    if src.len() <= dst.len() {
        src + dst.skip(src.len() as int)
    } else {
        src.take(dst.len() as int)
    }
}

/// Writes `src` over the front of `dst`, as far as `dst` has room, and fails
/// where `dst` is too short to take all of it. Bytes of `dst` behind the
/// written ones stay as they were.
pub fn write_front(dst: &mut [u8], src: &[u8]) -> (done: Result<(), CodecError>)
    ensures
        final(dst)@ == overwritten(old(dst)@, src@),
        done == (if src@.len() <= old(dst)@.len() {
            Ok::<(), CodecError>(())
        } else {
            Err::<(), CodecError>(CodecError::WriteZero)
        }),
{
    let room: usize = dst.len();
    let want: usize = src.len();
    let count: usize = if want <= room { want } else { room };
    let mut i: usize = 0;
    while i < count
        invariant
            i <= count,
            count <= room,
            count <= want,
            room == old(dst)@.len(),
            want == src@.len(),
            dst@.len() == room,
            forall|j: int| 0 <= j < i ==> dst@[j] == src@[j],
            forall|j: int| i <= j < room ==> dst@[j] == old(dst)@[j],
        decreases count - i,
    {
        dst[i] = src[i];
        i += 1;
    }
    proof {
        assert(dst@ =~= overwritten(old(dst)@, src@));
    }
    if want <= room {
        Ok(())
    } else {
        Err(CodecError::WriteZero)
    }
}

/// The payload of a native deposit.
#[derive(Clone, Copy, Debug, PartialEq, Eq)]
pub struct TransferInput {
    /// When the escrow starts, in seconds since the Unix epoch.
    pub start_time: i64,
    /// Who may withdraw.
    pub receiver: Pubkey,
    /// Lamports put in escrow.
    pub amount_to_send: u64,
}

/// Number of bytes that a [`TransferInput`] takes.
pub const TRANSFER_INPUT_LEN: usize = 48;

impl TransferInput {
    /// The bytes of the value: its fields in order.
    pub open spec fn encode(self) -> Seq<u8> {
        i64_le(self.start_time) + self.receiver@ + u64_le(self.amount_to_send)
    }

    /// The value that `bytes` hold, where they are exactly 48 bytes.
    pub open spec fn decode(bytes: Seq<u8>) -> Result<TransferInput, CodecError> {
        match frame(bytes.len(), 48) {
            Err(e) => Err(e),
            Ok(_) => Ok(
                TransferInput {
                    start_time: le_i64(bytes.subrange(0, 8)) as i64,
                    receiver: Pubkey::from_seq(bytes.subrange(8, 40)),
                    amount_to_send: le_u64(bytes.subrange(40, 48)) as u64,
                },
            ),
        }
    }

    /// The 48 bytes of the value.
    pub fn to_vec(&self) -> (out: Vec<u8>)
        ensures
            out@ == self.encode(),
            out@.len() == 48,
    {
        let mut out: Vec<u8> = Vec::new();
        put_i64(&mut out, self.start_time);
        self.receiver.put(&mut out);
        put_u64(&mut out, self.amount_to_send);
        proof {
            assert(out@ =~= self.encode());
        }
        out
    }

    /// Writes the value over the front of `dst`. Fails, having written the
    /// bytes that fit, where `dst` is shorter than 48 bytes; bytes of `dst`
    /// behind the value stay as they were.
    pub fn serialize(&self, dst: &mut [u8]) -> (done: Result<(), CodecError>)
        ensures
            final(dst)@ == overwritten(old(dst)@, self.encode()),
            done == (if old(dst)@.len() >= 48 {
                Ok::<(), CodecError>(())
            } else {
                Err::<(), CodecError>(CodecError::WriteZero)
            }),
    {
        let bytes = self.to_vec();
        write_front(dst, bytes.as_slice())
    }

    /// Reads a value from `data`, which must be exactly its 48 bytes.
    pub fn try_from_slice(data: &[u8]) -> (read: Result<TransferInput, CodecError>)
        ensures
            read == TransferInput::decode(data@),
            read is Ok <==> data@.len() == 48,
    {
        if data.len() < TRANSFER_INPUT_LEN {
            return Err(CodecError::UnexpectedLength);
        }
        if data.len() > TRANSFER_INPUT_LEN {
            return Err(CodecError::NotAllBytesRead);
        }
        Ok(
            TransferInput {
                start_time: get_i64(data, 0),
                receiver: Pubkey::get(data, 8),
                amount_to_send: get_u64(data, 40),
            },
        )
    }

    /// Reading back what was written gives the value that was written.
    pub proof fn lemma_round_trip(value: TransferInput)
        ensures
            value.encode().len() == 48,
            TransferInput::decode(value.encode()) == Ok::<TransferInput, CodecError>(value),
    {
        let bytes = value.encode();
        lemma_i64_round_trip(value.start_time);
        assert(bytes.subrange(0, 8) =~= i64_le(value.start_time));
        Pubkey::lemma_from_seq_of_view(value.receiver);
        assert(bytes.subrange(8, 40) =~= value.receiver@);
        lemma_u64_round_trip(value.amount_to_send);
        assert(bytes.subrange(40, 48) =~= u64_le(value.amount_to_send));
    }

    /// Writing what was read gives the bytes that were read: no two buffers
    /// hold the same value.
    pub proof fn lemma_bytes_round_trip(bytes: Seq<u8>)
        requires
            bytes.len() == 48,
        ensures
            TransferInput::decode(bytes) is Ok,
            TransferInput::decode(bytes)->Ok_0.encode() == bytes,
    {
        let value = TransferInput::decode(bytes)->Ok_0;
        lemma_i64_bytes_round_trip(bytes.subrange(0, 8));
        Pubkey::lemma_from_seq(bytes.subrange(8, 40));
        lemma_le_u64_bounds(bytes.subrange(40, 48));
        lemma_u64_bytes_round_trip(bytes.subrange(40, 48));
        assert(value.encode() =~= bytes);
    }
}

/// The payload of a native withdrawal.
#[derive(Clone, Copy, Debug, PartialEq, Eq)]
pub struct WithdrawInput {
    /// Lamports to release.
    pub amount: u64,
}

/// Number of bytes that a [`WithdrawInput`] takes.
pub const WITHDRAW_INPUT_LEN: usize = 8;

impl WithdrawInput {
    /// The bytes of the value: its fields in order.
    pub open spec fn encode(self) -> Seq<u8> {
        u64_le(self.amount)
    }

    /// The value that `bytes` hold, where they are exactly 8 bytes.
    pub open spec fn decode(bytes: Seq<u8>) -> Result<WithdrawInput, CodecError> {
        match frame(bytes.len(), 8) {
            Err(e) => Err(e),
            Ok(_) => Ok(
                WithdrawInput {
                    amount: le_u64(bytes.subrange(0, 8)) as u64,
                },
            ),
        }
    }

    /// The 8 bytes of the value.
    pub fn to_vec(&self) -> (out: Vec<u8>)
        ensures
            out@ == self.encode(),
            out@.len() == 8,
    {
        let mut out: Vec<u8> = Vec::new();
        put_u64(&mut out, self.amount);
        proof {
            assert(out@ =~= self.encode());
        }
        out
    }

    /// Writes the value over the front of `dst`. Fails, having written the
    /// bytes that fit, where `dst` is shorter than 8 bytes; bytes of `dst`
    /// behind the value stay as they were.
    pub fn serialize(&self, dst: &mut [u8]) -> (done: Result<(), CodecError>)
        ensures
            final(dst)@ == overwritten(old(dst)@, self.encode()),
            done == (if old(dst)@.len() >= 8 {
                Ok::<(), CodecError>(())
            } else {
                Err::<(), CodecError>(CodecError::WriteZero)
            }),
    {
        let bytes = self.to_vec();
        write_front(dst, bytes.as_slice())
    }

    /// Reads a value from `data`, which must be exactly its 8 bytes.
    pub fn try_from_slice(data: &[u8]) -> (read: Result<WithdrawInput, CodecError>)
        ensures
            read == WithdrawInput::decode(data@),
            read is Ok <==> data@.len() == 8,
    {
        if data.len() < WITHDRAW_INPUT_LEN {
            return Err(CodecError::UnexpectedLength);
        }
        if data.len() > WITHDRAW_INPUT_LEN {
            return Err(CodecError::NotAllBytesRead);
        }
        Ok(
            WithdrawInput {
                amount: get_u64(data, 0),
            },
        )
    }

    /// Reading back what was written gives the value that was written.
    pub proof fn lemma_round_trip(value: WithdrawInput)
        ensures
            value.encode().len() == 8,
            WithdrawInput::decode(value.encode()) == Ok::<WithdrawInput, CodecError>(value),
    {
        let bytes = value.encode();
        lemma_u64_round_trip(value.amount);
        assert(bytes.subrange(0, 8) =~= u64_le(value.amount));
    }

    /// Writing what was read gives the bytes that were read: no two buffers
    /// hold the same value.
    pub proof fn lemma_bytes_round_trip(bytes: Seq<u8>)
        requires
            bytes.len() == 8,
        ensures
            WithdrawInput::decode(bytes) is Ok,
            WithdrawInput::decode(bytes)->Ok_0.encode() == bytes,
    {
        let value = WithdrawInput::decode(bytes)->Ok_0;
        lemma_le_u64_bounds(bytes.subrange(0, 8));
        lemma_u64_bytes_round_trip(bytes.subrange(0, 8));
        assert(value.encode() =~= bytes);
    }
}

/// The payload of a token deposit.
#[derive(Clone, Copy, Debug, PartialEq, Eq)]
pub struct InitTokenInput {
    /// When the escrow starts, in seconds since the Unix epoch.
    pub start_time: i64,
    /// Token units put in escrow.
    pub amount: u64,
    /// The mint of the escrowed token.
    pub token_mint: Pubkey,
}

/// Number of bytes that a [`InitTokenInput`] takes.
pub const INIT_TOKEN_INPUT_LEN: usize = 48;

impl InitTokenInput {
    /// The bytes of the value: its fields in order.
    pub open spec fn encode(self) -> Seq<u8> {
        i64_le(self.start_time) + u64_le(self.amount) + self.token_mint@
    }

    /// The value that `bytes` hold, where they are exactly 48 bytes.
    pub open spec fn decode(bytes: Seq<u8>) -> Result<InitTokenInput, CodecError> {
        match frame(bytes.len(), 48) {
            Err(e) => Err(e),
            Ok(_) => Ok(
                InitTokenInput {
                    start_time: le_i64(bytes.subrange(0, 8)) as i64,
                    amount: le_u64(bytes.subrange(8, 16)) as u64,
                    token_mint: Pubkey::from_seq(bytes.subrange(16, 48)),
                },
            ),
        }
    }

    /// The 48 bytes of the value.
    pub fn to_vec(&self) -> (out: Vec<u8>)
        ensures
            out@ == self.encode(),
            out@.len() == 48,
    {
        let mut out: Vec<u8> = Vec::new();
        put_i64(&mut out, self.start_time);
        put_u64(&mut out, self.amount);
        self.token_mint.put(&mut out);
        proof {
            assert(out@ =~= self.encode());
        }
        out
    }

    /// Writes the value over the front of `dst`. Fails, having written the
    /// bytes that fit, where `dst` is shorter than 48 bytes; bytes of `dst`
    /// behind the value stay as they were.
    pub fn serialize(&self, dst: &mut [u8]) -> (done: Result<(), CodecError>)
        ensures
            final(dst)@ == overwritten(old(dst)@, self.encode()),
            done == (if old(dst)@.len() >= 48 {
                Ok::<(), CodecError>(())
            } else {
                Err::<(), CodecError>(CodecError::WriteZero)
            }),
    {
        let bytes = self.to_vec();
        write_front(dst, bytes.as_slice())
    }

    /// Reads a value from `data`, which must be exactly its 48 bytes.
    pub fn try_from_slice(data: &[u8]) -> (read: Result<InitTokenInput, CodecError>)
        ensures
            read == InitTokenInput::decode(data@),
            read is Ok <==> data@.len() == 48,
    {
        if data.len() < INIT_TOKEN_INPUT_LEN {
            return Err(CodecError::UnexpectedLength);
        }
        if data.len() > INIT_TOKEN_INPUT_LEN {
            return Err(CodecError::NotAllBytesRead);
        }
        Ok(
            InitTokenInput {
                start_time: get_i64(data, 0),
                amount: get_u64(data, 8),
                token_mint: Pubkey::get(data, 16),
            },
        )
    }

    /// Reading back what was written gives the value that was written.
    pub proof fn lemma_round_trip(value: InitTokenInput)
        ensures
            value.encode().len() == 48,
            InitTokenInput::decode(value.encode()) == Ok::<InitTokenInput, CodecError>(value),
    {
        let bytes = value.encode();
        lemma_i64_round_trip(value.start_time);
        assert(bytes.subrange(0, 8) =~= i64_le(value.start_time));
        lemma_u64_round_trip(value.amount);
        assert(bytes.subrange(8, 16) =~= u64_le(value.amount));
        Pubkey::lemma_from_seq_of_view(value.token_mint);
        assert(bytes.subrange(16, 48) =~= value.token_mint@);
    }

    /// Writing what was read gives the bytes that were read: no two buffers
    /// hold the same value.
    pub proof fn lemma_bytes_round_trip(bytes: Seq<u8>)
        requires
            bytes.len() == 48,
        ensures
            InitTokenInput::decode(bytes) is Ok,
            InitTokenInput::decode(bytes)->Ok_0.encode() == bytes,
    {
        let value = InitTokenInput::decode(bytes)->Ok_0;
        lemma_i64_bytes_round_trip(bytes.subrange(0, 8));
        lemma_le_u64_bounds(bytes.subrange(8, 16));
        lemma_u64_bytes_round_trip(bytes.subrange(8, 16));
        Pubkey::lemma_from_seq(bytes.subrange(16, 48));
        assert(value.encode() =~= bytes);
    }
}

/// The payload of a token withdrawal.
#[derive(Clone, Copy, Debug, PartialEq, Eq)]
pub struct WithdrawTokenInput {
    /// Token units to release.
    pub amount: u64,
}

/// Number of bytes that a [`WithdrawTokenInput`] takes.
pub const WITHDRAW_TOKEN_INPUT_LEN: usize = 8;

impl WithdrawTokenInput {
    /// The bytes of the value: its fields in order.
    pub open spec fn encode(self) -> Seq<u8> {
        u64_le(self.amount)
    }

    /// The value that `bytes` hold, where they are exactly 8 bytes.
    pub open spec fn decode(bytes: Seq<u8>) -> Result<WithdrawTokenInput, CodecError> {
        match frame(bytes.len(), 8) {
            Err(e) => Err(e),
            Ok(_) => Ok(
                WithdrawTokenInput {
                    amount: le_u64(bytes.subrange(0, 8)) as u64,
                },
            ),
        }
    }

    /// The 8 bytes of the value.
    pub fn to_vec(&self) -> (out: Vec<u8>)
        ensures
            out@ == self.encode(),
            out@.len() == 8,
    {
        let mut out: Vec<u8> = Vec::new();
        put_u64(&mut out, self.amount);
        proof {
            assert(out@ =~= self.encode());
        }
        out
    }

    /// Writes the value over the front of `dst`. Fails, having written the
    /// bytes that fit, where `dst` is shorter than 8 bytes; bytes of `dst`
    /// behind the value stay as they were.
    pub fn serialize(&self, dst: &mut [u8]) -> (done: Result<(), CodecError>)
        ensures
            final(dst)@ == overwritten(old(dst)@, self.encode()),
            done == (if old(dst)@.len() >= 8 {
                Ok::<(), CodecError>(())
            } else {
                Err::<(), CodecError>(CodecError::WriteZero)
            }),
    {
        let bytes = self.to_vec();
        write_front(dst, bytes.as_slice())
    }

    /// Reads a value from `data`, which must be exactly its 8 bytes.
    pub fn try_from_slice(data: &[u8]) -> (read: Result<WithdrawTokenInput, CodecError>)
        ensures
            read == WithdrawTokenInput::decode(data@),
            read is Ok <==> data@.len() == 8,
    {
        if data.len() < WITHDRAW_TOKEN_INPUT_LEN {
            return Err(CodecError::UnexpectedLength);
        }
        if data.len() > WITHDRAW_TOKEN_INPUT_LEN {
            return Err(CodecError::NotAllBytesRead);
        }
        Ok(
            WithdrawTokenInput {
                amount: get_u64(data, 0),
            },
        )
    }

    /// Reading back what was written gives the value that was written.
    pub proof fn lemma_round_trip(value: WithdrawTokenInput)
        ensures
            value.encode().len() == 8,
            WithdrawTokenInput::decode(value.encode()) == Ok::<WithdrawTokenInput, CodecError>(value),
    {
        let bytes = value.encode();
        lemma_u64_round_trip(value.amount);
        assert(bytes.subrange(0, 8) =~= u64_le(value.amount));
    }

    /// Writing what was read gives the bytes that were read: no two buffers
    /// hold the same value.
    pub proof fn lemma_bytes_round_trip(bytes: Seq<u8>)
        requires
            bytes.len() == 8,
        ensures
            WithdrawTokenInput::decode(bytes) is Ok,
            WithdrawTokenInput::decode(bytes)->Ok_0.encode() == bytes,
    {
        let value = WithdrawTokenInput::decode(bytes)->Ok_0;
        lemma_le_u64_bounds(bytes.subrange(0, 8));
        lemma_u64_bytes_round_trip(bytes.subrange(0, 8));
        assert(value.encode() =~= bytes);
    }
}

/// The record that a native escrow account holds.
#[derive(Clone, Copy, Debug, PartialEq, Eq)]
pub struct TransferData {
    /// When the escrow starts, in seconds since the Unix epoch.
    pub start_time: i64,
    /// Who may withdraw.
    pub receiver: Pubkey,
    /// Lamports put in escrow.
    pub amount_to_send: u64,
    /// Who deposited.
    pub sender: Pubkey,
}

/// Number of bytes that a [`TransferData`] takes.
pub const TRANSFER_DATA_LEN: usize = 80;

impl TransferData {
    /// The bytes of the value: its fields in order.
    pub open spec fn encode(self) -> Seq<u8> {
        i64_le(self.start_time) + self.receiver@ + u64_le(self.amount_to_send) + self.sender@
    }

    /// The value that `bytes` hold, where they are exactly 80 bytes.
    pub open spec fn decode(bytes: Seq<u8>) -> Result<TransferData, CodecError> {
        match frame(bytes.len(), 80) {
            Err(e) => Err(e),
            Ok(_) => Ok(
                TransferData {
                    start_time: le_i64(bytes.subrange(0, 8)) as i64,
                    receiver: Pubkey::from_seq(bytes.subrange(8, 40)),
                    amount_to_send: le_u64(bytes.subrange(40, 48)) as u64,
                    sender: Pubkey::from_seq(bytes.subrange(48, 80)),
                },
            ),
        }
    }

    /// The 80 bytes of the value.
    pub fn to_vec(&self) -> (out: Vec<u8>)
        ensures
            out@ == self.encode(),
            out@.len() == 80,
    {
        let mut out: Vec<u8> = Vec::new();
        put_i64(&mut out, self.start_time);
        self.receiver.put(&mut out);
        put_u64(&mut out, self.amount_to_send);
        self.sender.put(&mut out);
        proof {
            assert(out@ =~= self.encode());
        }
        out
    }

    /// Writes the value over the front of `dst`. Fails, having written the
    /// bytes that fit, where `dst` is shorter than 80 bytes; bytes of `dst`
    /// behind the value stay as they were.
    pub fn serialize(&self, dst: &mut [u8]) -> (done: Result<(), CodecError>)
        ensures
            final(dst)@ == overwritten(old(dst)@, self.encode()),
            done == (if old(dst)@.len() >= 80 {
                Ok::<(), CodecError>(())
            } else {
                Err::<(), CodecError>(CodecError::WriteZero)
            }),
    {
        let bytes = self.to_vec();
        write_front(dst, bytes.as_slice())
    }

    /// Reads a value from `data`, which must be exactly its 80 bytes.
    pub fn try_from_slice(data: &[u8]) -> (read: Result<TransferData, CodecError>)
        ensures
            read == TransferData::decode(data@),
            read is Ok <==> data@.len() == 80,
    {
        if data.len() < TRANSFER_DATA_LEN {
            return Err(CodecError::UnexpectedLength);
        }
        if data.len() > TRANSFER_DATA_LEN {
            return Err(CodecError::NotAllBytesRead);
        }
        Ok(
            TransferData {
                start_time: get_i64(data, 0),
                receiver: Pubkey::get(data, 8),
                amount_to_send: get_u64(data, 40),
                sender: Pubkey::get(data, 48),
            },
        )
    }

    /// Reading back what was written gives the value that was written.
    pub proof fn lemma_round_trip(value: TransferData)
        ensures
            value.encode().len() == 80,
            TransferData::decode(value.encode()) == Ok::<TransferData, CodecError>(value),
    {
        let bytes = value.encode();
        lemma_i64_round_trip(value.start_time);
        assert(bytes.subrange(0, 8) =~= i64_le(value.start_time));
        Pubkey::lemma_from_seq_of_view(value.receiver);
        assert(bytes.subrange(8, 40) =~= value.receiver@);
        lemma_u64_round_trip(value.amount_to_send);
        assert(bytes.subrange(40, 48) =~= u64_le(value.amount_to_send));
        Pubkey::lemma_from_seq_of_view(value.sender);
        assert(bytes.subrange(48, 80) =~= value.sender@);
    }

    /// Writing what was read gives the bytes that were read: no two buffers
    /// hold the same value.
    pub proof fn lemma_bytes_round_trip(bytes: Seq<u8>)
        requires
            bytes.len() == 80,
        ensures
            TransferData::decode(bytes) is Ok,
            TransferData::decode(bytes)->Ok_0.encode() == bytes,
    {
        let value = TransferData::decode(bytes)->Ok_0;
        lemma_i64_bytes_round_trip(bytes.subrange(0, 8));
        Pubkey::lemma_from_seq(bytes.subrange(8, 40));
        lemma_le_u64_bounds(bytes.subrange(40, 48));
        lemma_u64_bytes_round_trip(bytes.subrange(40, 48));
        Pubkey::lemma_from_seq(bytes.subrange(48, 80));
        assert(value.encode() =~= bytes);
    }
}

/// The record that a token escrow account holds.
#[derive(Clone, Copy, Debug, PartialEq, Eq)]
pub struct TransferToken {
    /// When the escrow starts, in seconds since the Unix epoch.
    pub start_time: i64,
    /// Token units put in escrow.
    pub amount: u64,
    /// The mint of the escrowed token.
    pub token_mint: Pubkey,
    /// Who deposited.
    pub sender: Pubkey,
    /// Who may withdraw.
    pub receiver: Pubkey,
}

/// Number of bytes that a [`TransferToken`] takes.
pub const TRANSFER_TOKEN_LEN: usize = 112;

impl TransferToken {
    /// The bytes of the value: its fields in order.
    pub open spec fn encode(self) -> Seq<u8> {
        i64_le(self.start_time) + u64_le(self.amount) + self.token_mint@ + self.sender@ + self.receiver@
    }

    /// The value that `bytes` hold, where they are exactly 112 bytes.
    pub open spec fn decode(bytes: Seq<u8>) -> Result<TransferToken, CodecError> {
        match frame(bytes.len(), 112) {
            Err(e) => Err(e),
            Ok(_) => Ok(
                TransferToken {
                    start_time: le_i64(bytes.subrange(0, 8)) as i64,
                    amount: le_u64(bytes.subrange(8, 16)) as u64,
                    token_mint: Pubkey::from_seq(bytes.subrange(16, 48)),
                    sender: Pubkey::from_seq(bytes.subrange(48, 80)),
                    receiver: Pubkey::from_seq(bytes.subrange(80, 112)),
                },
            ),
        }
    }

    /// The 112 bytes of the value.
    pub fn to_vec(&self) -> (out: Vec<u8>)
        ensures
            out@ == self.encode(),
            out@.len() == 112,
    {
        let mut out: Vec<u8> = Vec::new();
        put_i64(&mut out, self.start_time);
        put_u64(&mut out, self.amount);
        self.token_mint.put(&mut out);
        self.sender.put(&mut out);
        self.receiver.put(&mut out);
        proof {
            assert(out@ =~= self.encode());
        }
        out
    }

    /// Writes the value over the front of `dst`. Fails, having written the
    /// bytes that fit, where `dst` is shorter than 112 bytes; bytes of `dst`
    /// behind the value stay as they were.
    pub fn serialize(&self, dst: &mut [u8]) -> (done: Result<(), CodecError>)
        ensures
            final(dst)@ == overwritten(old(dst)@, self.encode()),
            done == (if old(dst)@.len() >= 112 {
                Ok::<(), CodecError>(())
            } else {
                Err::<(), CodecError>(CodecError::WriteZero)
            }),
    {
        let bytes = self.to_vec();
        write_front(dst, bytes.as_slice())
    }

    /// Reads a value from `data`, which must be exactly its 112 bytes.
    pub fn try_from_slice(data: &[u8]) -> (read: Result<TransferToken, CodecError>)
        ensures
            read == TransferToken::decode(data@),
            read is Ok <==> data@.len() == 112,
    {
        if data.len() < TRANSFER_TOKEN_LEN {
            return Err(CodecError::UnexpectedLength);
        }
        if data.len() > TRANSFER_TOKEN_LEN {
            return Err(CodecError::NotAllBytesRead);
        }
        Ok(
            TransferToken {
                start_time: get_i64(data, 0),
                amount: get_u64(data, 8),
                token_mint: Pubkey::get(data, 16),
                sender: Pubkey::get(data, 48),
                receiver: Pubkey::get(data, 80),
            },
        )
    }

    /// Reading back what was written gives the value that was written.
    pub proof fn lemma_round_trip(value: TransferToken)
        ensures
            value.encode().len() == 112,
            TransferToken::decode(value.encode()) == Ok::<TransferToken, CodecError>(value),
    {
        let bytes = value.encode();
        lemma_i64_round_trip(value.start_time);
        assert(bytes.subrange(0, 8) =~= i64_le(value.start_time));
        lemma_u64_round_trip(value.amount);
        assert(bytes.subrange(8, 16) =~= u64_le(value.amount));
        Pubkey::lemma_from_seq_of_view(value.token_mint);
        assert(bytes.subrange(16, 48) =~= value.token_mint@);
        Pubkey::lemma_from_seq_of_view(value.sender);
        assert(bytes.subrange(48, 80) =~= value.sender@);
        Pubkey::lemma_from_seq_of_view(value.receiver);
        assert(bytes.subrange(80, 112) =~= value.receiver@);
    }

    /// Writing what was read gives the bytes that were read: no two buffers
    /// hold the same value.
    pub proof fn lemma_bytes_round_trip(bytes: Seq<u8>)
        requires
            bytes.len() == 112,
        ensures
            TransferToken::decode(bytes) is Ok,
            TransferToken::decode(bytes)->Ok_0.encode() == bytes,
    {
        let value = TransferToken::decode(bytes)->Ok_0;
        lemma_i64_bytes_round_trip(bytes.subrange(0, 8));
        lemma_le_u64_bounds(bytes.subrange(8, 16));
        lemma_u64_bytes_round_trip(bytes.subrange(8, 16));
        Pubkey::lemma_from_seq(bytes.subrange(16, 48));
        Pubkey::lemma_from_seq(bytes.subrange(48, 80));
        Pubkey::lemma_from_seq(bytes.subrange(80, 112));
        assert(value.encode() =~= bytes);
    }
}

impl TransferData {
    /// The record of a deposit: the payload joined with who sent it.
    pub fn new(data: TransferInput, sender: Pubkey) -> (record: TransferData)
        ensures
            record.start_time == data.start_time,
            record.receiver == data.receiver,
            record.amount_to_send == data.amount_to_send,
            record.sender == sender,
    {
        TransferData {
            start_time: data.start_time,
            receiver: data.receiver,
            amount_to_send: data.amount_to_send,
            sender,
        }
    }
}

} // verus!
