//! The program's instructions: their byte encoding, the instructions a
//! client builds, and the vesting schedules of a request.
use vstd::prelude::*;
use vstd::bytes::{spec_u32_to_le_bytes, spec_u64_to_le_bytes};
use crate::bytes::{
    append_bytes, append_u32, append_u64, lemma_le_bytes_len, lemma_u32_bytes_of_read,
    lemma_u32_roundtrip, lemma_u64_bytes_of_read, lemma_u64_roundtrip, read_u32, read_u64, u32_at,
    u64_at,
};
use crate::error::{ProgramError, VestingError};
use crate::pubkey::Pubkey;
use crate::runtime::{
    associated_token_program_id, clock_sysvar_id, current_unix_timestamp, program_address,
    spec_associated_token_program_id, spec_clock_sysvar_id, spec_system_program_id,
    spec_token_2022_program_id, system_program_id, token_2022_program_id, try_find_program_address,
};
use crate::seeds::{
    annual_supply_seeds, get_associated_token_address_with_program_id, spec_annual_supply_seeds,
    spec_associated_token_address, spec_vesting_seeds, vesting_seeds,
};
use crate::supply_limits::PROJECT_YEARS;
use crate::utils::{calculate_project_year, spec_project_year};

verus! {

/// An account an instruction uses, with how it is used.
#[derive(Clone, Copy, Debug, PartialEq)]
pub struct AccountMeta {
    pub pubkey: Pubkey,
    pub is_signer: bool,
    pub is_writable: bool,
}

impl AccountMeta {
    /// Whether this is the account `key` used with the given signer and
    /// writable flags.
    pub open spec fn describes(self, key: Seq<u8>, is_signer: bool, is_writable: bool) -> bool {
        self.pubkey@ == key && self.is_signer == is_signer && self.is_writable == is_writable
    }

    /// A writable account.
    pub fn new(pubkey: Pubkey, is_signer: bool) -> (m: Self)
        ensures
            m.describes(pubkey@, is_signer, true),
    {
        AccountMeta { pubkey, is_signer, is_writable: true }
    }

    /// A read-only account.
    pub fn new_readonly(pubkey: Pubkey, is_signer: bool) -> (m: Self)
        ensures
            m.describes(pubkey@, is_signer, false),
    {
        AccountMeta { pubkey, is_signer, is_writable: false }
    }
}

/// An instruction for a program: the accounts it uses and its data.
#[derive(Clone, Debug, PartialEq)]
pub struct Instruction {
    pub program_id: Pubkey,
    pub accounts: Vec<AccountMeta>,
    pub data: Vec<u8>,
}

/// Seconds in a month of 30 days.
pub const MONTH_IN_SECONDS: u64 = 30 * 24 * 60 * 60;

/// Seconds in a year of 12 such months.
pub const YEAR_IN_SECONDS: u64 = 12 * MONTH_IN_SECONDS;

/// Seconds in three such years.
pub const THREE_YEARS_IN_SECONDS: u64 = 3 * YEAR_IN_SECONDS;

/// One release: `amount` tokens become available at `release_time`.
#[derive(Clone, Copy, Debug, PartialEq, Eq, Structural)]
pub struct Schedule {
    pub release_time: u64,
    pub amount: u64,
}

/// The stakeholder group of a vesting request; each has its own lockup.
#[derive(Clone, Copy, Debug, PartialEq, Eq, Structural)]
pub enum VestingType {
    /// Locked one month.
    Market,
    /// Half locked six months, the rest one year.
    DataPurchase,
    /// Locked three years.
    Team,
}

/// Whether the release times of a `vesting_type` request starting at
/// `start_time` fit in 64 bits.
pub open spec fn release_times_fit(start_time: u64, vesting_type: VestingType) -> bool {
    match vesting_type {
        VestingType::Market => start_time + MONTH_IN_SECONDS <= u64::MAX,
        VestingType::DataPurchase => start_time + YEAR_IN_SECONDS <= u64::MAX,
        VestingType::Team => start_time + 3 * YEAR_IN_SECONDS <= u64::MAX,
    }
}

/// The releases of a request: none for a zero year or amount; otherwise
/// one release a month after the start (market), half of the amount after
/// six months and the rest after a year (data purchase), or one release
/// three years after the start (team).
pub open spec fn spec_vesting_schedules(
    start_time: u64,
    vesting_type: VestingType,
    year: u32,
    amount: u64,
) -> Seq<Schedule> {
    if year == 0 || amount == 0 {
        seq![]
    } else {
        match vesting_type {
            VestingType::Market => seq![
                Schedule { release_time: (start_time + MONTH_IN_SECONDS) as u64, amount },
            ],
            VestingType::DataPurchase => seq![
                Schedule {
                    release_time: (start_time + 6 * MONTH_IN_SECONDS) as u64,
                    amount: amount / 2,
                },
                Schedule {
                    release_time: (start_time + YEAR_IN_SECONDS) as u64,
                    amount: (amount - amount / 2) as u64,
                },
            ],
            VestingType::Team => seq![
                Schedule { release_time: (start_time + 3 * YEAR_IN_SECONDS) as u64, amount },
            ],
        }
    }
}

/// Sum of the amounts of `schedules`.
pub open spec fn schedules_total(schedules: Seq<Schedule>) -> int
    decreases schedules.len(),
{
    if schedules.len() == 0 {
        0
    } else {
        schedules_total(schedules.drop_last()) + schedules.last().amount
    }
}

/// The releases of a request for `amount` tokens of `vesting_type`
/// starting at `start_time`.
pub fn create_vesting_schedules(
    start_time: u64,
    vesting_type: VestingType,
    year: u32,
    amount: u64,
) -> (schedules: Vec<Schedule>)
    requires
        year != 0 && amount != 0 ==> release_times_fit(start_time, vesting_type),
    ensures
        schedules@ == spec_vesting_schedules(start_time, vesting_type, year, amount),
{
    if year == 0 || amount == 0 {
        return Vec::new();
    }
    let mut schedules = Vec::new();
    match vesting_type {
        VestingType::Market => {
            schedules.push(Schedule { release_time: start_time + MONTH_IN_SECONDS, amount });
        },
        VestingType::DataPurchase => {
            let half_amount = amount / 2;
            let remaining = amount - half_amount;
            schedules.push(
                Schedule { release_time: start_time + 6 * MONTH_IN_SECONDS, amount: half_amount },
            );
            schedules.push(
                Schedule { release_time: start_time + YEAR_IN_SECONDS, amount: remaining },
            );
        },
        VestingType::Team => {
            schedules.push(Schedule { release_time: start_time + 3 * YEAR_IN_SECONDS, amount });
        },
    }
    assert(schedules@ =~= spec_vesting_schedules(start_time, vesting_type, year, amount));
    schedules
}

/// The releases of a request add up to its amount, and none is released
/// before the start time: a request is split, never enlarged or shrunk.
pub proof fn lemma_vesting_schedules_conserve_amount(
    start_time: u64,
    vesting_type: VestingType,
    year: u32,
    amount: u64,
)
    requires
        release_times_fit(start_time, vesting_type),
    ensures
        schedules_total(spec_vesting_schedules(start_time, vesting_type, year, amount)) == (if year
            == 0 {
            0
        } else {
            amount as int
        }),
        forall|i: int|
            0 <= i < spec_vesting_schedules(start_time, vesting_type, year, amount).len()
                ==> #[trigger] spec_vesting_schedules(
                start_time,
                vesting_type,
                year,
                amount,
            )[i].release_time > start_time,
{
    let s = spec_vesting_schedules(start_time, vesting_type, year, amount);
    reveal_with_fuel(schedules_total, 3);
    if year != 0 && amount != 0 {
        match vesting_type {
            VestingType::DataPurchase => {
                assert(s.drop_last().drop_last() =~= Seq::<Schedule>::empty());
            },
            _ => {
                assert(s.drop_last() =~= Seq::<Schedule>::empty());
            },
        }
    }
}


/// The tag byte of a vesting type in instruction data.
pub open spec fn vesting_type_tag(t: VestingType) -> u8 {
    match t {
        VestingType::Market => 0,
        VestingType::DataPurchase => 1,
        VestingType::Team => 2,
    }
}

/// The vesting type of a tag byte, if it is one.
pub open spec fn vesting_type_of_tag(b: u8) -> Option<VestingType> {
    if b == 0 {
        Some(VestingType::Market)
    } else if b == 1 {
        Some(VestingType::DataPurchase)
    } else if b == 2 {
        Some(VestingType::Team)
    } else {
        None
    }
}

/// The instructions of the vesting program.
#[derive(Clone, Debug, PartialEq)]
pub enum VestingInstruction {
    /// Create a vesting account and fund it from the signer's token account.
    Create {
        mint_address: Pubkey,
        destination_owner: Pubkey,
        vesting_type: VestingType,
        year: u32,
        start_time: u64,
        amount: u64,
        /// Timestamp the vesting account's address is derived with.
        client_timestamp: u64,
    },
    /// Release the tokens of a vesting account whose time has come.
    Unlock { vesting_account: Pubkey, destination_token_address: Pubkey },
    /// The transfer hook, which allows every transfer.
    TransferHook,
}

/// An instruction with its addresses as byte sequences.
pub enum VestingInstructionView {
    Create {
        mint_address: Seq<u8>,
        destination_owner: Seq<u8>,
        vesting_type: VestingType,
        year: u32,
        start_time: u64,
        amount: u64,
        client_timestamp: u64,
    },
    Unlock { vesting_account: Seq<u8>, destination_token_address: Seq<u8> },
    TransferHook,
}

impl View for VestingInstruction {
    type V = VestingInstructionView;

    open spec fn view(&self) -> VestingInstructionView {
        match *self {
            VestingInstruction::Create {
                mint_address,
                destination_owner,
                vesting_type,
                year,
                start_time,
                amount,
                client_timestamp,
            } => VestingInstructionView::Create {
                mint_address: mint_address@,
                destination_owner: destination_owner@,
                vesting_type,
                year,
                start_time,
                amount,
                client_timestamp,
            },
            VestingInstruction::Unlock { vesting_account, destination_token_address } =>
                VestingInstructionView::Unlock {
                vesting_account: vesting_account@,
                destination_token_address: destination_token_address@,
            },
            VestingInstruction::TransferHook => VestingInstructionView::TransferHook,
        }
    }
}

/// The instruction data of an instruction: a tag byte (0 create, 1
/// unlock, 2 transfer hook), then for a create the mint and destination
/// owner, the vesting type's tag, the year (4 bytes), start time, amount
/// and client timestamp (8 bytes each); for an unlock the vesting account
/// and destination token account; all integers little-endian.
pub open spec fn spec_pack_instruction(i: VestingInstructionView) -> Seq<u8> {
    match i {
        VestingInstructionView::Create {
            mint_address,
            destination_owner,
            vesting_type,
            year,
            start_time,
            amount,
            client_timestamp,
        } => seq![0u8] + mint_address + destination_owner + seq![vesting_type_tag(vesting_type)]
            + spec_u32_to_le_bytes(year) + spec_u64_to_le_bytes(start_time)
            + spec_u64_to_le_bytes(amount) + spec_u64_to_le_bytes(client_timestamp),
        VestingInstructionView::Unlock { vesting_account, destination_token_address } => seq![
            1u8,
        ] + vesting_account + destination_token_address,
        VestingInstructionView::TransferHook => seq![2u8],
    }
}

/// The instruction that `input` encodes, or the error for it: a create
/// needs 93 bytes after the tag, a known vesting type, a nonzero year and
/// a nonzero amount; an unlock needs 64 bytes after the tag; bytes past
/// those are ignored.
pub open spec fn spec_unpack_instruction(input: Seq<u8>) -> Result<
    VestingInstructionView,
    ProgramError,
> {
    if input.len() == 0 {
        Err(ProgramError::InvalidInstructionData)
    } else if input[0] == 0 {
        if input.len() < 94 {
            Err(ProgramError::InvalidInstructionData)
        } else if vesting_type_of_tag(input[65]) is None {
            Err(ProgramError::InvalidInstructionData)
        } else if u32_at(input, 66) == 0 {
            Err(ProgramError::Vesting(VestingError::InvalidYear))
        } else if u64_at(input, 78) == 0 {
            Err(ProgramError::Vesting(VestingError::InvalidAmount))
        } else {
            Ok(
                VestingInstructionView::Create {
                    mint_address: input.subrange(1, 33),
                    destination_owner: input.subrange(33, 65),
                    vesting_type: vesting_type_of_tag(input[65])->Some_0,
                    year: u32_at(input, 66),
                    start_time: u64_at(input, 70),
                    amount: u64_at(input, 78),
                    client_timestamp: u64_at(input, 86),
                },
            )
        }
    } else if input[0] == 1 {
        if input.len() < 65 {
            Err(ProgramError::InvalidInstructionData)
        } else {
            Ok(
                VestingInstructionView::Unlock {
                    vesting_account: input.subrange(1, 33),
                    destination_token_address: input.subrange(33, 65),
                },
            )
        }
    } else if input[0] == 2 {
        Ok(VestingInstructionView::TransferHook)
    } else {
        Err(ProgramError::InvalidInstructionData)
    }
}

/// Whether an instruction can be encoded and read back: a create needs a
/// nonzero year and amount (the decoder refuses zeros).
pub open spec fn is_valid_instruction(i: VestingInstructionView) -> bool {
    match i {
        VestingInstructionView::Create { year, amount, .. } => year != 0 && amount != 0,
        _ => true,
    }
}

/// Whether the addresses in an instruction have 32 bytes.
pub open spec fn has_address_lengths(i: VestingInstructionView) -> bool {
    match i {
        VestingInstructionView::Create { mint_address, destination_owner, .. } =>
            mint_address.len() == 32 && destination_owner.len() == 32,
        VestingInstructionView::Unlock { vesting_account, destination_token_address } =>
            vesting_account.len() == 32 && destination_token_address.len() == 32,
        VestingInstructionView::TransferHook => true,
    }
}

impl VestingInstruction {
    /// Decodes instruction data.
    pub fn unpack(input: &[u8]) -> (r: Result<Self, ProgramError>)
        ensures
            match r {
                Ok(i) => spec_unpack_instruction(input@) == Ok::<
                    VestingInstructionView,
                    ProgramError,
                >(i@),
                Err(e) => spec_unpack_instruction(input@) == Err::<
                    VestingInstructionView,
                    ProgramError,
                >(e),
            },
    {
        let len = input.len();
        if len == 0 {
            return Err(ProgramError::InvalidInstructionData);
        }
        let tag = input[0];
        if tag == 0 {
            if len < 94 {
                return Err(ProgramError::InvalidInstructionData);
            }
            let mint_address = Pubkey::from_slice_at(input, 1);
            let destination_owner = Pubkey::from_slice_at(input, 33);
            let vesting_type = match input[65] {
                0 => VestingType::Market,
                1 => VestingType::DataPurchase,
                2 => VestingType::Team,
                _ => {
                    return Err(ProgramError::InvalidInstructionData);
                },
            };
            let year = read_u32(input, 66);
            if year == 0 {
                return Err(ProgramError::Vesting(VestingError::InvalidYear));
            }
            let start_time = read_u64(input, 70);
            let amount = read_u64(input, 78);
            if amount == 0 {
                return Err(ProgramError::Vesting(VestingError::InvalidAmount));
            }
            let client_timestamp = read_u64(input, 86);
            Ok(
                VestingInstruction::Create {
                    mint_address,
                    destination_owner,
                    vesting_type,
                    year,
                    start_time,
                    amount,
                    client_timestamp,
                },
            )
        } else if tag == 1 {
            if len < 65 {
                return Err(ProgramError::InvalidInstructionData);
            }
            let vesting_account = Pubkey::from_slice_at(input, 1);
            let destination_token_address = Pubkey::from_slice_at(input, 33);
            Ok(VestingInstruction::Unlock { vesting_account, destination_token_address })
        } else if tag == 2 {
            Ok(VestingInstruction::TransferHook)
        } else {
            Err(ProgramError::InvalidInstructionData)
        }
    }

    /// Encodes the instruction as instruction data.
    pub fn pack(&self) -> (buf: Vec<u8>)
        ensures
            buf@ == spec_pack_instruction(self@),
    {
        let mut buf: Vec<u8> = Vec::new();
        match self {
            VestingInstruction::Create {
                mint_address,
                destination_owner,
                vesting_type,
                year,
                start_time,
                amount,
                client_timestamp,
            } => {
                buf.push(0u8);
                append_bytes(&mut buf, &mint_address.bytes);
                append_bytes(&mut buf, &destination_owner.bytes);
                buf.push(
                    match vesting_type {
                        VestingType::Market => 0u8,
                        VestingType::DataPurchase => 1u8,
                        VestingType::Team => 2u8,
                    },
                );
                append_u32(&mut buf, *year);
                append_u64(&mut buf, *start_time);
                append_u64(&mut buf, *amount);
                append_u64(&mut buf, *client_timestamp);
            },
            VestingInstruction::Unlock { vesting_account, destination_token_address } => {
                buf.push(1u8);
                append_bytes(&mut buf, &vesting_account.bytes);
                append_bytes(&mut buf, &destination_token_address.bytes);
            },
            VestingInstruction::TransferHook => {
                buf.push(2u8);
            },
        }
        assert(buf@ =~= spec_pack_instruction(self@));
        buf
    }
}

/// Decoding encoded instruction data gives the instruction back, for every
/// instruction the decoder accepts (a create with a nonzero year and
/// amount).
pub proof fn lemma_instruction_unpack_pack(i: VestingInstructionView)
    requires
        is_valid_instruction(i),
        has_address_lengths(i),
    ensures
        spec_unpack_instruction(spec_pack_instruction(i)) == Ok::<
            VestingInstructionView,
            ProgramError,
        >(i),
{
    let p = spec_pack_instruction(i);
    match i {
        VestingInstructionView::Create {
            mint_address,
            destination_owner,
            vesting_type,
            year,
            start_time,
            amount,
            client_timestamp,
        } => {
            let pre = seq![0u8] + mint_address + destination_owner + seq![
                vesting_type_tag(vesting_type),
            ];
            let b_year = spec_u32_to_le_bytes(year);
            let b_start = spec_u64_to_le_bytes(start_time);
            let b_amount = spec_u64_to_le_bytes(amount);
            let b_ts = spec_u64_to_le_bytes(client_timestamp);
            lemma_le_bytes_len(year, start_time);
            lemma_le_bytes_len(year, amount);
            lemma_le_bytes_len(year, client_timestamp);
            assert(p =~= pre + b_year + (b_start + b_amount + b_ts));
            lemma_u32_roundtrip(pre, year, b_start + b_amount + b_ts);
            assert(p =~= (pre + b_year) + b_start + (b_amount + b_ts));
            lemma_u64_roundtrip(pre + b_year, start_time, b_amount + b_ts);
            assert(p =~= (pre + b_year + b_start) + b_amount + b_ts);
            lemma_u64_roundtrip(pre + b_year + b_start, amount, b_ts);
            assert(p =~= (pre + b_year + b_start + b_amount) + b_ts + Seq::<u8>::empty());
            lemma_u64_roundtrip(pre + b_year + b_start + b_amount, client_timestamp, Seq::<u8>::empty());
            assert(p[65] == vesting_type_tag(vesting_type));
            assert(p.subrange(1, 33) =~= mint_address);
            assert(p.subrange(33, 65) =~= destination_owner);
        },
        VestingInstructionView::Unlock { vesting_account, destination_token_address } => {
            assert(p.subrange(1, 33) =~= vesting_account);
            assert(p.subrange(33, 65) =~= destination_token_address);
        },
        VestingInstructionView::TransferHook => {},
    }
}

/// Encoding a decoded instruction gives back the bytes it was decoded
/// from, up to the end of the instruction.
pub proof fn lemma_instruction_pack_unpack(input: Seq<u8>)
    requires
        spec_unpack_instruction(input) is Ok,
    ensures
        spec_pack_instruction(spec_unpack_instruction(input)->Ok_0) == input.take(
            spec_pack_instruction(spec_unpack_instruction(input)->Ok_0).len() as int,
        ),
{
    let i = spec_unpack_instruction(input)->Ok_0;
    let p = spec_pack_instruction(i);
    if input[0] == 0 {
        lemma_u32_bytes_of_read(input, 66);
        lemma_u64_bytes_of_read(input, 70);
        lemma_u64_bytes_of_read(input, 78);
        lemma_u64_bytes_of_read(input, 86);
        lemma_le_bytes_len(0, 0);
        assert(p =~= input.take(94));
    } else if input[0] == 1 {
        assert(p =~= input.take(65));
    } else {
        assert(p =~= input.take(1));
    }
}

/// The checks of a create request that do not depend on the timestamp:
/// `Some(Err(e))` for the first that fails (a zero year, a zero amount, a
/// year after the last project year, a token program other than SPL Token
/// 2022, a source token account that is not the source owner's associated
/// token account); `None` where that associated token account cannot be
/// derived (the build aborts); `Some(Ok(()))` where all pass.
pub open spec fn create_precheck(
    token_program_id: Seq<u8>,
    source_owner: Seq<u8>,
    source_token_account: Seq<u8>,
    mint: Seq<u8>,
    year: u32,
    amount: u64,
) -> Option<Result<(), ProgramError>> {
    if year == 0 {
        Some(Err(ProgramError::Vesting(VestingError::InvalidYear)))
    } else if amount == 0 {
        Some(Err(ProgramError::Vesting(VestingError::InvalidAmount)))
    } else if year > PROJECT_YEARS {
        Some(Err(ProgramError::Vesting(VestingError::InvalidYear)))
    } else if token_program_id != spec_token_2022_program_id() {
        Some(Err(ProgramError::Vesting(VestingError::InvalidInstruction)))
    } else {
        match spec_associated_token_address(source_owner, mint, token_program_id) {
            None => None,
            Some(expected) => if source_token_account != expected {
                Some(Err(ProgramError::Vesting(VestingError::InvalidInstruction)))
            } else {
                Some(Ok(()))
            },
        }
    }
}

/// Whether `ix` is the create instruction for the program `program_id`
/// with the given accounts and instruction data.
pub open spec fn is_create_instruction(
    ix: Instruction,
    program_id: Seq<u8>,
    token_program_id: Seq<u8>,
    vesting_account: Seq<u8>,
    vesting_token_account: Seq<u8>,
    source_owner: Seq<u8>,
    source_token_account: Seq<u8>,
    destination_owner: Seq<u8>,
    mint: Seq<u8>,
    annual_supply_account: Seq<u8>,
    data: Seq<u8>,
) -> bool {
    let a = ix.accounts@;
    &&& ix.program_id@ == program_id
    &&& a.len() == 11
    &&& a[0].describes(token_program_id, false, false)
    &&& a[1].describes(vesting_account, false, true)
    &&& a[2].describes(vesting_token_account, false, true)
    &&& a[3].describes(source_owner, true, true)
    &&& a[4].describes(source_token_account, false, true)
    &&& a[5].describes(destination_owner, false, false)
    &&& a[6].describes(mint, false, false)
    &&& a[7].describes(spec_clock_sysvar_id(), false, false)
    &&& a[8].describes(spec_system_program_id(), false, false)
    &&& a[9].describes(spec_associated_token_program_id(), false, false)
    &&& a[10].describes(annual_supply_account, false, true)
    &&& ix.data@ == data
}

/// What building a create instruction with the resolved `timestamp` gives:
/// the first failed check's error; `None` where an address cannot be
/// derived (the build aborts); otherwise the instruction, whose vesting
/// account is derived from the destination owner, mint and timestamp, and
/// whose annual supply account from the current project year.
pub open spec fn create_outcome(
    r: Option<Result<Instruction, ProgramError>>,
    program_id: Seq<u8>,
    token_program_id: Seq<u8>,
    source_owner: Seq<u8>,
    source_token_account: Seq<u8>,
    destination_owner: Seq<u8>,
    mint: Seq<u8>,
    vesting_type: VestingType,
    year: u32,
    start_time: u64,
    amount: u64,
    timestamp: u64,
) -> bool {
    match create_precheck(token_program_id, source_owner, source_token_account, mint, year, amount) {
        None => r is None,
        Some(Err(e)) => r == Some(Err::<Instruction, ProgramError>(e)),
        Some(Ok(_)) => match spec_project_year(timestamp) {
            Err(e) => r == Some(Err::<Instruction, ProgramError>(e)),
            Ok(current) => if year != current {
                r == Some(
                    Err::<Instruction, ProgramError>(ProgramError::Vesting(VestingError::InvalidYear)),
                )
            } else {
                match program_address(
                    spec_vesting_seeds(destination_owner, mint, timestamp),
                    program_id,
                ) {
                    None => r is None,
                    Some(v) => match spec_associated_token_address(v.0, mint, token_program_id) {
                        None => r is None,
                        Some(vesting_token_account) => match program_address(
                            spec_annual_supply_seeds(current),
                            program_id,
                        ) {
                            None => r is None,
                            Some(a) => r matches Some(Ok(ix)) && is_create_instruction(
                                ix,
                                program_id,
                                token_program_id,
                                v.0,
                                vesting_token_account,
                                source_owner,
                                source_token_account,
                                destination_owner,
                                mint,
                                a.0,
                                spec_pack_instruction(
                                    VestingInstructionView::Create {
                                        mint_address: mint,
                                        destination_owner,
                                        vesting_type,
                                        year,
                                        start_time,
                                        amount,
                                        client_timestamp: timestamp,
                                    },
                                ),
                            ),
                        },
                    },
                }
            },
        },
    }
}

/// The checks of a create request that come before its timestamp.
fn check_create_request(
    token_program_id: &Pubkey,
    source_token_account_owner: &Pubkey,
    source_token_account: &Pubkey,
    mint_address: &Pubkey,
    year: u32,
    amount: u64,
) -> (r: Option<Result<(), ProgramError>>)
    ensures
        r == create_precheck(
            token_program_id@,
            source_token_account_owner@,
            source_token_account@,
            mint_address@,
            year,
            amount,
        ),
{
    if year == 0 {
        return Some(Err(ProgramError::Vesting(VestingError::InvalidYear)));
    }
    if amount == 0 {
        return Some(Err(ProgramError::Vesting(VestingError::InvalidAmount)));
    }
    if year == 0 || year > PROJECT_YEARS {
        return Some(Err(ProgramError::Vesting(VestingError::InvalidYear)));
    }
    if *token_program_id != token_2022_program_id() {
        return Some(Err(ProgramError::Vesting(VestingError::InvalidInstruction)));
    }
    let expected_source_token_account = match get_associated_token_address_with_program_id(
        source_token_account_owner,
        mint_address,
        token_program_id,
    ) {
        Some(a) => a,
        None => {
            return None;
        },
    };
    if *source_token_account != expected_source_token_account {
        return Some(Err(ProgramError::Vesting(VestingError::InvalidInstruction)));
    }
    Some(Ok(()))
}

/// Builds the create instruction for a request whose vesting account is
/// derived with `timestamp`; `None` where the build aborts (see
/// `create_outcome`).
pub fn create_with_timestamp(
    program_id: &Pubkey,
    token_program_id: &Pubkey,
    source_token_account_owner: &Pubkey,
    source_token_account: &Pubkey,
    destination_owner: &Pubkey,
    mint_address: &Pubkey,
    vesting_type: VestingType,
    year: u32,
    start_time: u64,
    amount: u64,
    timestamp: u64,
) -> (r: Option<Result<Instruction, ProgramError>>)
    ensures
        create_outcome(
            r,
            program_id@,
            token_program_id@,
            source_token_account_owner@,
            source_token_account@,
            destination_owner@,
            mint_address@,
            vesting_type,
            year,
            start_time,
            amount,
            timestamp,
        ),
{
    match check_create_request(
        token_program_id,
        source_token_account_owner,
        source_token_account,
        mint_address,
        year,
        amount,
    ) {
        None => {
            return None;
        },
        Some(Err(e)) => {
            return Some(Err(e));
        },
        Some(Ok(())) => {},
    }
    let current_project_year = match calculate_project_year(timestamp) {
        Ok(y) => y,
        Err(e) => {
            return Some(Err(e));
        },
    };
    if year != current_project_year {
        return Some(Err(ProgramError::Vesting(VestingError::InvalidYear)));
    }
    let (vesting_account_key, _bump) = match try_find_program_address(
        &vesting_seeds(destination_owner, mint_address, timestamp),
        program_id,
    ) {
        Some(found) => found,
        None => {
            return None;
        },
    };
    let vesting_token_account_key = match get_associated_token_address_with_program_id(
        &vesting_account_key,
        mint_address,
        token_program_id,
    ) {
        Some(a) => a,
        None => {
            return None;
        },
    };
    let data = VestingInstruction::Create {
        mint_address: *mint_address,
        destination_owner: *destination_owner,
        vesting_type,
        year,
        start_time,
        amount,
        client_timestamp: timestamp,
    }.pack();
    let (annual_supply_account_key, _supply_bump) = match try_find_program_address(
        &annual_supply_seeds(current_project_year),
        program_id,
    ) {
        Some(found) => found,
        None => {
            return None;
        },
    };
    let mut accounts: Vec<AccountMeta> = Vec::new();
    accounts.push(AccountMeta::new_readonly(*token_program_id, false));
    accounts.push(AccountMeta::new(vesting_account_key, false));
    accounts.push(AccountMeta::new(vesting_token_account_key, false));
    accounts.push(AccountMeta::new(*source_token_account_owner, true));
    accounts.push(AccountMeta::new(*source_token_account, false));
    accounts.push(AccountMeta::new_readonly(*destination_owner, false));
    accounts.push(AccountMeta::new_readonly(*mint_address, false));
    accounts.push(AccountMeta::new_readonly(clock_sysvar_id(), false));
    accounts.push(AccountMeta::new_readonly(system_program_id(), false));
    accounts.push(AccountMeta::new_readonly(associated_token_program_id(), false));
    accounts.push(AccountMeta::new(annual_supply_account_key, false));
    Some(Ok(Instruction { program_id: *program_id, accounts, data }))
}

/// Builds the create instruction of a vesting request. The vesting
/// account is derived with `client_timestamp`, or where none is given
/// with the runtime clock's timestamp, read only after the checks that do
/// not depend on it have passed. `None` where the build aborts (see
/// `create_outcome`).
pub fn create(
    program_id: &Pubkey,
    token_program_id: &Pubkey,
    source_token_account_owner: &Pubkey,
    source_token_account: &Pubkey,
    destination_owner: &Pubkey,
    mint_address: &Pubkey,
    vesting_type: VestingType,
    year: u32,
    start_time: u64,
    amount: u64,
    client_timestamp: Option<u64>,
) -> (r: Option<Result<Instruction, ProgramError>>)
    ensures
        client_timestamp matches Some(ts) ==> create_outcome(
            r,
            program_id@,
            token_program_id@,
            source_token_account_owner@,
            source_token_account@,
            destination_owner@,
            mint_address@,
            vesting_type,
            year,
            start_time,
            amount,
            ts,
        ),
        client_timestamp is None ==> match create_precheck(
            token_program_id@,
            source_token_account_owner@,
            source_token_account@,
            mint_address@,
            year,
            amount,
        ) {
            None => r is None,
            Some(Err(e)) => r == Some(Err::<Instruction, ProgramError>(e)),
            Some(Ok(_)) => (r matches Some(Err(e)) && e is Outside) || exists|t: u64|
                #[trigger] create_outcome(
                    r,
                    program_id@,
                    token_program_id@,
                    source_token_account_owner@,
                    source_token_account@,
                    destination_owner@,
                    mint_address@,
                    vesting_type,
                    year,
                    start_time,
                    amount,
                    t,
                ),
        },
{
    match client_timestamp {
        Some(ts) => create_with_timestamp(
            program_id,
            token_program_id,
            source_token_account_owner,
            source_token_account,
            destination_owner,
            mint_address,
            vesting_type,
            year,
            start_time,
            amount,
            ts,
        ),
        None => {
            match check_create_request(
                token_program_id,
                source_token_account_owner,
                source_token_account,
                mint_address,
                year,
                amount,
            ) {
                None => {
                    return None;
                },
                Some(Err(e)) => {
                    return Some(Err(e));
                },
                Some(Ok(())) => {},
            }
            match current_unix_timestamp() {
                Err(e) => Some(Err(e)),
                Ok(t) => {
                    let ts = t as u64;
                    let r = create_with_timestamp(
                        program_id,
                        token_program_id,
                        source_token_account_owner,
                        source_token_account,
                        destination_owner,
                        mint_address,
                        vesting_type,
                        year,
                        start_time,
                        amount,
                        ts,
                    );
                    r
                },
            }
        },
    }
}

/// Whether `ix` is the unlock instruction for the given accounts.
pub open spec fn is_unlock_instruction(
    ix: Instruction,
    program_id: Seq<u8>,
    token_program_id: Seq<u8>,
    clock_sysvar: Seq<u8>,
    vesting_account: Seq<u8>,
    vesting_token_account: Seq<u8>,
    destination_token_account: Seq<u8>,
    signer: Seq<u8>,
    mint: Seq<u8>,
) -> bool {
    let a = ix.accounts@;
    &&& ix.program_id@ == program_id
    &&& a.len() == 7
    &&& a[0].describes(token_program_id, false, false)
    &&& a[1].describes(clock_sysvar, false, false)
    &&& a[2].describes(vesting_account, false, true)
    &&& a[3].describes(vesting_token_account, false, true)
    &&& a[4].describes(destination_token_account, false, true)
    &&& a[5].describes(signer, true, false)
    &&& a[6].describes(mint, false, false)
    &&& ix.data@ == spec_pack_instruction(
        VestingInstructionView::Unlock {
            vesting_account,
            destination_token_address: destination_token_account,
        },
    )
}

/// Builds the unlock instruction of a vesting account.
pub fn unlock(
    program_id: &Pubkey,
    token_program_id: &Pubkey,
    clock_sysvar_id: &Pubkey,
    vesting_account_key: &Pubkey,
    vesting_token_account_key: &Pubkey,
    destination_token_account_key: &Pubkey,
    signer: &Pubkey,
    mint_address: &Pubkey,
) -> (r: Result<Instruction, ProgramError>)
    ensures
        r matches Ok(ix) && is_unlock_instruction(
            ix,
            program_id@,
            token_program_id@,
            clock_sysvar_id@,
            vesting_account_key@,
            vesting_token_account_key@,
            destination_token_account_key@,
            signer@,
            mint_address@,
        ),
{
    let data = VestingInstruction::Unlock {
        vesting_account: *vesting_account_key,
        destination_token_address: *destination_token_account_key,
    }.pack();
    let mut accounts: Vec<AccountMeta> = Vec::new();
    accounts.push(AccountMeta::new_readonly(*token_program_id, false));
    accounts.push(AccountMeta::new_readonly(*clock_sysvar_id, false));
    accounts.push(AccountMeta::new(*vesting_account_key, false));
    accounts.push(AccountMeta::new(*vesting_token_account_key, false));
    accounts.push(AccountMeta::new(*destination_token_account_key, false));
    accounts.push(AccountMeta::new_readonly(*signer, true));
    accounts.push(AccountMeta::new_readonly(*mint_address, false));
    Ok(Instruction { program_id: *program_id, accounts, data })
}

/// Builds the transfer hook instruction: all five accounts read-only,
/// none a signer.
pub fn transfer_hook(
    program_id: &Pubkey,
    source_account: &Pubkey,
    mint_account: &Pubkey,
    destination_account: &Pubkey,
    authority: &Pubkey,
    vesting_account: &Pubkey,
) -> (ix: Instruction)
    ensures
        ix.program_id@ == program_id@,
        ix.accounts@.len() == 5,
        ix.accounts@[0].describes(source_account@, false, false),
        ix.accounts@[1].describes(mint_account@, false, false),
        ix.accounts@[2].describes(destination_account@, false, false),
        ix.accounts@[3].describes(authority@, false, false),
        ix.accounts@[4].describes(vesting_account@, false, false),
        ix.data@ == spec_pack_instruction(VestingInstructionView::TransferHook),
{
    let data = VestingInstruction::TransferHook.pack();
    let mut accounts: Vec<AccountMeta> = Vec::new();
    accounts.push(AccountMeta::new_readonly(*source_account, false));
    accounts.push(AccountMeta::new_readonly(*mint_account, false));
    accounts.push(AccountMeta::new_readonly(*destination_account, false));
    accounts.push(AccountMeta::new_readonly(*authority, false));
    accounts.push(AccountMeta::new_readonly(*vesting_account, false));
    Instruction { program_id: *program_id, accounts, data }
}


/// The lockup of each vesting type, counted from the start time in days
/// of 86,400 seconds: a market request is released in full after 30
/// days; a data purchase request half (rounded down) after 180 days and
/// the rest after 360 days; a team request in full after 1,080 days
/// (three years of 360 days). A zero year or amount gives no release.
pub proof fn lemma_vesting_lockups(
    start_time: u64,
    vesting_type: VestingType,
    year: u32,
    amount: u64,
)
    requires
        release_times_fit(start_time, vesting_type),
    ensures
        ({
            let s = spec_vesting_schedules(start_time, vesting_type, year, amount);
            if year == 0 || amount == 0 {
                s.len() == 0
            } else {
                match vesting_type {
                    VestingType::Market => {
                        &&& s.len() == 1
                        &&& s[0].release_time == start_time + 30 * 86_400
                        &&& s[0].amount == amount
                    },
                    VestingType::DataPurchase => {
                        &&& s.len() == 2
                        &&& s[0].release_time == start_time + 180 * 86_400
                        &&& s[0].amount == amount / 2
                        &&& s[1].release_time == start_time + 360 * 86_400
                        &&& s[1].amount == amount - amount / 2
                    },
                    VestingType::Team => {
                        &&& s.len() == 1
                        &&& s[0].release_time == start_time + 1_080 * 86_400
                        &&& s[0].amount == amount
                    },
                }
            }
        }),
{
}

} // verus!
