//! The vesting account: a 137-byte header followed by 16-byte schedules.
use vstd::prelude::*;
use vstd::bytes::spec_u64_to_le_bytes;
use crate::bytes::{
    append_bytes, append_u64, flag_byte, lemma_le_bytes_len, lemma_u64_bytes_of_read,
    lemma_u64_roundtrip, read_u64, splice, u64_at, write_bytes,
};
use crate::error::ProgramError;
use crate::pubkey::Pubkey;

verus! {

/// One stored release of a vesting account.
#[derive(Clone, Copy, Debug, PartialEq, Eq, Structural)]
pub struct VestingSchedule {
    pub release_time: u64,
    pub amount: u64,
}

/// The header of a vesting account.
#[derive(Clone, Copy, Debug, PartialEq)]
pub struct VestingScheduleHeader {
    /// Token account the released tokens go to.
    pub destination_address: Pubkey,
    /// Mint of the vested token.
    pub mint_address: Pubkey,
    /// Account that created and funded the vesting.
    pub creator_pubkey: Pubkey,
    /// Owner of the destination token account.
    pub destination_owner: Pubkey,
    /// Whether the header has been written.
    pub is_initialized: bool,
    /// The timestamp the vesting account's address was derived with.
    pub creation_timestamp: u64,
}

impl VestingSchedule {
    /// Bytes of a packed schedule: release time (8), amount (8).
    pub const LEN: usize = 16;

    /// The 16 bytes of this schedule.
    pub open spec fn spec_pack(self) -> Seq<u8> {
        spec_u64_to_le_bytes(self.release_time) + spec_u64_to_le_bytes(self.amount)
    }

    /// The schedule stored in the first 16 bytes of `src`.
    pub open spec fn spec_unpack(src: Seq<u8>) -> Self {
        VestingSchedule { release_time: u64_at(src, 0), amount: u64_at(src, 8) }
    }

    /// The 16 bytes of this schedule.
    pub fn pack(&self) -> (out: Vec<u8>)
        ensures
            out@ == self.spec_pack(),
            out@.len() == Self::LEN,
    {
        let mut out: Vec<u8> = Vec::new();
        append_u64(&mut out, self.release_time);
        append_u64(&mut out, self.amount);
        proof {
            lemma_le_bytes_len(0, self.release_time);
            lemma_le_bytes_len(0, self.amount);
            assert(out@ =~= self.spec_pack());
        }
        out
    }

    /// Writes the schedule into the first 16 bytes of `dst`.
    pub fn pack_into_slice(&self, dst: &mut [u8])
        requires
            old(dst)@.len() >= Self::LEN,
        ensures
            final(dst)@ == splice(old(dst)@, 0, self.spec_pack()),
    {
        let bytes = self.pack();
        write_bytes(dst, 0, bytes.as_slice());
    }

    /// Reads the schedule from the first 16 bytes of `src`.
    pub fn unpack_from_slice(src: &[u8]) -> (r: Result<Self, ProgramError>)
        requires
            src@.len() >= Self::LEN,
        ensures
            r == Ok::<Self, ProgramError>(Self::spec_unpack(src@)),
    {
        Ok(VestingSchedule { release_time: read_u64(src, 0), amount: read_u64(src, 8) })
    }
}

/// Reading a packed schedule gives it back.
pub proof fn lemma_schedule_unpack_pack(s: VestingSchedule)
    ensures
        s.spec_pack().len() == VestingSchedule::LEN,
        VestingSchedule::spec_unpack(s.spec_pack()) == s,
{
    let b0 = spec_u64_to_le_bytes(s.release_time);
    let b1 = spec_u64_to_le_bytes(s.amount);
    lemma_le_bytes_len(0, s.release_time);
    lemma_le_bytes_len(0, s.amount);
    assert(s.spec_pack() =~= Seq::<u8>::empty() + b0 + b1);
    lemma_u64_roundtrip(Seq::<u8>::empty(), s.release_time, b1);
    assert(s.spec_pack() =~= b0 + b1 + Seq::<u8>::empty());
    lemma_u64_roundtrip(b0, s.amount, Seq::<u8>::empty());
}

/// Packing what was read gives back the 16 bytes that were read.
pub proof fn lemma_schedule_pack_unpack(src: Seq<u8>)
    requires
        src.len() >= VestingSchedule::LEN,
    ensures
        VestingSchedule::spec_unpack(src).spec_pack() == src.take(16),
{
    lemma_u64_bytes_of_read(src, 0);
    lemma_u64_bytes_of_read(src, 8);
    assert(VestingSchedule::spec_unpack(src).spec_pack() =~= src.take(16));
}

/// The bytes of a header with the given fields: the four addresses, the
/// initialized flag, the creation timestamp (little-endian).
pub open spec fn spec_header_bytes(
    destination_address: Seq<u8>,
    mint_address: Seq<u8>,
    creator_pubkey: Seq<u8>,
    destination_owner: Seq<u8>,
    is_initialized: bool,
    creation_timestamp: u64,
) -> Seq<u8> {
    destination_address + mint_address + creator_pubkey + destination_owner + seq![
        flag_byte(is_initialized),
    ] + spec_u64_to_le_bytes(creation_timestamp)
}

impl VestingScheduleHeader {
    /// Bytes of a packed header: four addresses (32 each), the initialized
    /// flag (1), the creation timestamp (8).
    pub const LEN: usize = 137;

    /// The 137 bytes of this header.
    pub open spec fn spec_pack(self) -> Seq<u8> {
        spec_header_bytes(
            self.destination_address@,
            self.mint_address@,
            self.creator_pubkey@,
            self.destination_owner@,
            self.is_initialized,
            self.creation_timestamp,
        )
    }

    /// The fields of the header stored in the first 137 bytes of `src`:
    /// addresses, flag, timestamp.
    pub open spec fn spec_unpack_fields(src: Seq<u8>) -> (
        Seq<u8>,
        Seq<u8>,
        Seq<u8>,
        Seq<u8>,
        bool,
        u64,
    ) {
        (
            src.subrange(0, 32),
            src.subrange(32, 64),
            src.subrange(64, 96),
            src.subrange(96, 128),
            src[128] != 0,
            u64_at(src, 129),
        )
    }

    /// Whether `h` is the header stored in the first 137 bytes of `src`.
    pub open spec fn is_unpacked_from(h: Self, src: Seq<u8>) -> bool {
        (
            h.destination_address@,
            h.mint_address@,
            h.creator_pubkey@,
            h.destination_owner@,
            h.is_initialized,
            h.creation_timestamp,
        ) == Self::spec_unpack_fields(src)
    }

    /// The 137 bytes of this header.
    pub fn pack(&self) -> (out: Vec<u8>)
        ensures
            out@ == self.spec_pack(),
            out@.len() == Self::LEN,
    {
        let mut out: Vec<u8> = Vec::new();
        append_bytes(&mut out, &self.destination_address.bytes);
        append_bytes(&mut out, &self.mint_address.bytes);
        append_bytes(&mut out, &self.creator_pubkey.bytes);
        append_bytes(&mut out, &self.destination_owner.bytes);
        out.push(if self.is_initialized {
            1u8
        } else {
            0u8
        });
        append_u64(&mut out, self.creation_timestamp);
        proof {
            lemma_le_bytes_len(0, self.creation_timestamp);
            assert(out@ =~= self.spec_pack());
        }
        out
    }

    /// Writes the header into the first 137 bytes of `dst`.
    pub fn pack_into_slice(&self, dst: &mut [u8])
        requires
            old(dst)@.len() >= Self::LEN,
        ensures
            final(dst)@ == splice(old(dst)@, 0, self.spec_pack()),
    {
        let bytes = self.pack();
        write_bytes(dst, 0, bytes.as_slice());
    }

    /// Whether the header has been written.
    pub fn is_initialized(&self) -> (r: bool)
        ensures
            r == self.is_initialized,
    {
        self.is_initialized
    }

    /// Reads the header from the first 137 bytes of `src`.
    pub fn unpack_from_slice(src: &[u8]) -> (r: Result<Self, ProgramError>)
        requires
            src@.len() >= Self::LEN,
        ensures
            r matches Ok(h) && Self::is_unpacked_from(h, src@),
    {
        Ok(
            VestingScheduleHeader {
                destination_address: Pubkey::from_slice_at(src, 0),
                mint_address: Pubkey::from_slice_at(src, 32),
                creator_pubkey: Pubkey::from_slice_at(src, 64),
                destination_owner: Pubkey::from_slice_at(src, 96),
                is_initialized: src[128] != 0,
                creation_timestamp: read_u64(src, 129),
            },
        )
    }

    /// Reads the header from exactly 137 bytes holding an initialized
    /// header.
    pub fn unpack(src: &[u8]) -> (r: Result<Self, ProgramError>)
        ensures
            src@.len() != Self::LEN ==> r == Err::<Self, ProgramError>(
                ProgramError::InvalidAccountData,
            ),
            src@.len() == Self::LEN && src@[128] == 0 ==> r == Err::<Self, ProgramError>(
                ProgramError::UninitializedAccount,
            ),
            src@.len() == Self::LEN && src@[128] != 0 ==> (r matches Ok(h)
                && Self::is_unpacked_from(h, src@)),
    {
        if src.len() != Self::LEN {
            return Err(ProgramError::InvalidAccountData);
        }
        let value = Self::unpack_from_slice(src)?;
        if !value.is_initialized {
            return Err(ProgramError::UninitializedAccount);
        }
        Ok(value)
    }
}

/// Reading a packed header gives it back.
pub proof fn lemma_header_unpack_pack(h: VestingScheduleHeader)
    ensures
        h.spec_pack().len() == VestingScheduleHeader::LEN,
        VestingScheduleHeader::is_unpacked_from(h, h.spec_pack()),
{
    let p = h.spec_pack();
    let pre = h.destination_address@ + h.mint_address@ + h.creator_pubkey@
        + h.destination_owner@ + seq![flag_byte(h.is_initialized)];
    lemma_le_bytes_len(0, h.creation_timestamp);
    assert(p =~= pre + spec_u64_to_le_bytes(h.creation_timestamp) + Seq::<u8>::empty());
    lemma_u64_roundtrip(pre, h.creation_timestamp, Seq::<u8>::empty());
    assert(p.subrange(0, 32) =~= h.destination_address@);
    assert(p.subrange(32, 64) =~= h.mint_address@);
    assert(p.subrange(64, 96) =~= h.creator_pubkey@);
    assert(p.subrange(96, 128) =~= h.destination_owner@);
}

/// Packing the header read from 137 bytes gives those bytes back, where
/// the flag byte is 0 or 1.
pub proof fn lemma_header_pack_unpack(src: Seq<u8>, h: VestingScheduleHeader)
    requires
        src.len() >= VestingScheduleHeader::LEN,
        src[128] == 0 || src[128] == 1,
        VestingScheduleHeader::is_unpacked_from(h, src),
    ensures
        h.spec_pack() == src.take(137),
{
    lemma_u64_bytes_of_read(src, 129);
    assert(h.spec_pack() =~= src.take(137));
}

/// The bytes of `schedules` packed one after the other.
pub open spec fn spec_pack_schedules(schedules: Seq<VestingSchedule>) -> Seq<u8>
    decreases schedules.len(),
{
    if schedules.len() == 0 {
        seq![]
    } else {
        spec_pack_schedules(schedules.drop_last()) + schedules.last().spec_pack()
    }
}

/// The schedules stored one after the other in `src`, one for each whole
/// 16 bytes.
pub open spec fn spec_unpack_schedules(src: Seq<u8>) -> Seq<VestingSchedule> {
    Seq::new(
        src.len() / 16,
        |i: int| VestingSchedule::spec_unpack(src.subrange(16 * i, 16 * i + 16)),
    )
}

/// The packed schedules have 16 bytes each, and the `i`-th 16 bytes are
/// those of the `i`-th schedule.
pub proof fn lemma_pack_schedules_layout(schedules: Seq<VestingSchedule>)
    ensures
        spec_pack_schedules(schedules).len() == 16 * schedules.len(),
        forall|i: int|
            0 <= i < schedules.len() ==> spec_pack_schedules(schedules).subrange(
                16 * i,
                16 * i + 16,
            ) == #[trigger] schedules[i].spec_pack(),
    decreases schedules.len(),
{
    if schedules.len() > 0 {
        let init = schedules.drop_last();
        lemma_pack_schedules_layout(init);
        lemma_schedule_unpack_pack(schedules.last());
        let p = spec_pack_schedules(schedules);
        let q = spec_pack_schedules(init);
        assert forall|i: int| 0 <= i < schedules.len() implies p.subrange(16 * i, 16 * i + 16)
            == #[trigger] schedules[i].spec_pack() by {
            if i < init.len() {
                assert(init[i] == schedules[i]);
                assert(p.subrange(16 * i, 16 * i + 16) =~= q.subrange(16 * i, 16 * i + 16));
            } else {
                assert(p.subrange(16 * i, 16 * i + 16) =~= schedules.last().spec_pack());
            }
        }
    }
}

/// Reading packed schedules gives them back.
pub proof fn lemma_schedules_unpack_pack(schedules: Seq<VestingSchedule>)
    ensures
        spec_unpack_schedules(spec_pack_schedules(schedules)) == schedules,
{
    lemma_pack_schedules_layout(schedules);
    let p = spec_pack_schedules(schedules);
    assert forall|i: int| 0 <= i < schedules.len() implies #[trigger] spec_unpack_schedules(
        p,
    )[i] == schedules[i] by {
        lemma_schedule_unpack_pack(schedules[i]);
    }
    assert(spec_unpack_schedules(p) =~= schedules);
}

/// Packing what was read gives back the bytes that were read, where they
/// are whole 16-byte records.
pub proof fn lemma_schedules_pack_unpack(src: Seq<u8>)
    requires
        src.len() % 16 == 0,
    ensures
        spec_pack_schedules(spec_unpack_schedules(src)) == src,
{
    let s = spec_unpack_schedules(src);
    lemma_pack_schedules_layout(s);
    let p = spec_pack_schedules(s);
    assert forall|j: int| 0 <= j < src.len() implies p[j] == src[j] by {
        let i = j / 16;
        let n = src.len() as int;
        assert(0 <= i && 16 * i <= j < 16 * i + 16 && 16 * i + 16 <= n) by (nonlinear_arith)
            requires
                i == j / 16,
                0 <= j < n,
                n % 16 == 0,
        ;
        assert(s[i] == VestingSchedule::spec_unpack(src.subrange(16 * i, 16 * i + 16)));
        lemma_schedule_pack_unpack(src.subrange(16 * i, 16 * i + 16));
        assert(p.subrange(16 * i, 16 * i + 16)[j - 16 * i] == p[j]);
        assert(src.subrange(16 * i, 16 * i + 16).take(16) =~= src.subrange(16 * i, 16 * i + 16));
    }
    assert(p =~= src);
}

/// Writes `schedules` one after the other from the start of `dst`; fails
/// where `dst` is too short to hold them all.
pub fn pack_schedules_into_slice(schedules: Vec<VestingSchedule>, dst: &mut [u8]) -> (r: Result<
    (),
    ProgramError,
>)
    requires
        schedules@.len() * 16 <= usize::MAX,
    ensures
        old(dst)@.len() < schedules@.len() * 16 ==> r == Err::<(), ProgramError>(
            ProgramError::InvalidAccountData,
        ) && final(dst)@ == old(dst)@,
        old(dst)@.len() >= schedules@.len() * 16 ==> r is Ok && final(dst)@ == splice(
            old(dst)@,
            0,
            spec_pack_schedules(schedules@),
        ),
{
    let n = schedules.len();
    if dst.len() < n * VestingSchedule::LEN {
        return Err(ProgramError::InvalidAccountData);
    }
    let m = dst.len();
    let mut i: usize = 0;
    while i < n
        invariant
            0 <= i <= n,
            n == schedules@.len(),
            m == old(dst)@.len(),
            n * 16 <= old(dst)@.len(),
            dst@ == splice(old(dst)@, 0, spec_pack_schedules(schedules@.take(i as int))),
        decreases n - i,
    {
        proof {
            lemma_pack_schedules_layout(schedules@.take(i as int));
            lemma_schedule_unpack_pack(schedules@[i as int]);
        }
        let bytes = schedules[i].pack();
        assert(i * 16 + 16 <= n * 16) by (nonlinear_arith)
            requires
                i < n,
        ;
        let start = i * 16;
        write_bytes(dst, start, bytes.as_slice());
        i = i + 1;
        proof {
            assert(schedules@.take(i as int).drop_last() =~= schedules@.take(i - 1));
            assert(dst@ =~= splice(old(dst)@, 0, spec_pack_schedules(schedules@.take(i as int))));
        }
    }
    assert(schedules@.take(n as int) =~= schedules@);
    Ok(())
}

/// The schedules stored in `src`, which must hold whole 16-byte records.
pub fn unpack_schedules(src: &[u8]) -> (r: Result<Vec<VestingSchedule>, ProgramError>)
    ensures
        src@.len() % 16 != 0 ==> r == Err::<Vec<VestingSchedule>, ProgramError>(
            ProgramError::InvalidAccountData,
        ),
        src@.len() % 16 == 0 ==> (r matches Ok(v) && v@ == spec_unpack_schedules(src@)),
{
    let len = src.len();
    if len % VestingSchedule::LEN != 0 {
        return Err(ProgramError::InvalidAccountData);
    }
    let count = len / VestingSchedule::LEN;
    let mut schedules: Vec<VestingSchedule> = Vec::new();
    let mut i: usize = 0;
    while i < count
        invariant
            0 <= i <= count,
            len == src@.len(),
            count == len / 16,
            schedules@ == spec_unpack_schedules(src@).take(i as int),
        decreases count - i,
    {
        assert(i * 16 + 16 <= len) by (nonlinear_arith)
            requires
                i < count,
                count == len / 16,
        ;
        let start = i * 16;
        let end = start + 16;
        let chunk = vstd::slice::slice_subrange(src, start, end);
        let s = VestingSchedule::unpack_from_slice(chunk)?;
        schedules.push(s);
        i = i + 1;
        assert(schedules@ =~= spec_unpack_schedules(src@).take(i as int));
    }
    assert(spec_unpack_schedules(src@).take(count as int) =~= spec_unpack_schedules(src@));
    Ok(schedules)
}

} // verus!
