//! The program's decisions on its two instructions. Each step takes the
//! accounts as the program sees them and says what to do next or which
//! error ends the instruction; performing the cross-program calls and the
//! account writes that lie between the steps is left to the caller.
//!
//! A create instruction runs `Processor::begin_create` (then the caller
//! creates the vesting account), `Processor::prepare_vesting_header`
//! (then the caller writes that header and the planned schedules into the
//! vesting account), `Processor::prepare_create_transfer` (then the
//! caller performs the token transfer), `Processor::prepare_annual_supply`
//! (then the caller creates the annual supply account where planned and
//! writes its initial state), and `Processor::record_issuance` (then the
//! caller writes the resulting state). An unlock instruction runs
//! `Processor::process_unlock`, then the caller performs the planned
//! transfer and stores the planned schedules.
use vstd::prelude::*;
use vstd::bytes::spec_u32_to_le_bytes;
use crate::annual_supply_state::AnnualSupplyState;
use crate::error::{ProgramError, VestingError};
use crate::instruction::{
    create_outcome, create_vesting_schedules, lemma_vesting_schedules_conserve_amount, release_times_fit,
    schedules_total, spec_vesting_schedules, Instruction, Schedule, VestingType,
};
use crate::pubkey::Pubkey;
use crate::runtime::{
    associated_token_program_id, clock_from_account, is_token_program, is_transfer_checked,
    mint_decimals, program_address, spec_associated_token_program_id, spec_clock_timestamp,
    spec_system_program_id, spec_token_2022_program_id, system_program_id, token_2022_program_id,
    token_account_amount, transfer_checked, try_find_program_address, unpack_mint_decimals,
    unpack_token_account_amount,
};
use crate::seeds::{
    annual_supply_seeds, get_associated_token_address_with_program_id, seeds_view,
    spec_annual_supply_seeds, spec_associated_token_address, spec_vesting_seeds, vesting_seeds,
    with_bump,
};
use crate::supply_limits::TOKEN_DECIMALS;
use crate::state::{
    lemma_header_unpack_pack, lemma_pack_schedules_layout, lemma_schedules_pack_unpack,
    lemma_schedules_unpack_pack, spec_header_bytes, spec_pack_schedules, spec_unpack_schedules,
    unpack_schedules, VestingSchedule, VestingScheduleHeader,
};
use crate::supply_limits::{is_project_year, validate_yearly_limit, yearly_limit};
use crate::utils::{calculate_project_year, spec_project_year};

verus! {

/// An account of an instruction as the program reads it.
#[derive(Clone, Debug)]
pub struct AccountSnapshot {
    pub key: Pubkey,
    pub is_signer: bool,
    pub data: Vec<u8>,
}

/// The program's steps.
pub struct Processor;

/// The vesting account a create instruction is about to make.
#[derive(Clone, Debug)]
pub struct CreatePlan {
    /// The project year of the clock.
    pub project_year: u32,
    /// The clock's unix timestamp.
    pub clock_timestamp: i64,
    /// Size of the vesting account to create.
    pub vesting_account_size: u64,
    /// Seeds, bump seed last, that sign for the vesting account.
    pub vesting_signer_seeds: Vec<Vec<u8>>,
    /// The schedules to write after the header.
    pub schedules: Vec<VestingSchedule>,
}

/// A `CreatePlan` with its byte buffers as sequences.
pub struct CreatePlanView {
    pub project_year: u32,
    pub clock_timestamp: i64,
    pub vesting_account_size: u64,
    pub vesting_signer_seeds: Seq<Seq<u8>>,
    pub schedules: Seq<VestingSchedule>,
}

impl View for CreatePlan {
    type V = CreatePlanView;

    open spec fn view(&self) -> CreatePlanView {
        CreatePlanView {
            project_year: self.project_year,
            clock_timestamp: self.clock_timestamp,
            vesting_account_size: self.vesting_account_size,
            vesting_signer_seeds: seeds_view(&self.vesting_signer_seeds),
            schedules: self.schedules@,
        }
    }
}

/// The releases of a request as stored in a vesting account.
pub open spec fn stored_schedules(schedules: Seq<Schedule>) -> Seq<VestingSchedule> {
    schedules.map_values(
        |s: Schedule| VestingSchedule { release_time: s.release_time, amount: s.amount },
    )
}

/// The first step of a create instruction: checks the accounts and the
/// request, up to the vesting account, which must not exist yet. The
/// result is the vesting account to create, or the error; `None` where
/// the program aborts instead (a release time overflows, or no address
/// exists for the vesting account or the source's associated token
/// account).
pub open spec fn spec_begin_create(
    program_id: Seq<u8>,
    accounts: Seq<AccountSnapshot>,
    mint: Seq<u8>,
    owner: Seq<u8>,
    vesting_type: VestingType,
    year: u32,
    start_time: u64,
    amount: u64,
    client_timestamp: u64,
) -> Option<Result<CreatePlanView, ProgramError>> {
    if accounts.len() != 11 {
        Some(Err(ProgramError::NotEnoughAccountKeys))
    } else if year == 0 {
        Some(Err(ProgramError::Vesting(VestingError::InvalidYear)))
    } else if amount == 0 {
        Some(Err(ProgramError::Vesting(VestingError::InvalidAmount)))
    } else if !is_project_year(year) {
        Some(Err(ProgramError::Vesting(VestingError::InvalidYear)))
    } else if amount > yearly_limit(vesting_type) {
        Some(Err(ProgramError::Vesting(VestingError::ExceedsYearlyLimit)))
    } else {
        match spec_associated_token_address(accounts[3].key@, mint, accounts[0].key@) {
            None => None,
            Some(expected_source) => if accounts[4].key@ != expected_source {
                Some(Err(ProgramError::Vesting(VestingError::InvalidInstruction)))
            } else if accounts[5].key@ != owner {
                Some(Err(ProgramError::Vesting(VestingError::InvalidInstruction)))
            } else if accounts[0].key@ != spec_token_2022_program_id() {
                Some(Err(ProgramError::Vesting(VestingError::InvalidInstruction)))
            } else if !accounts[3].is_signer {
                Some(Err(ProgramError::MissingRequiredSignature))
            } else {
                match spec_clock_timestamp(accounts[7].key@, accounts[7].data@) {
                    None => Some(Err(ProgramError::InvalidArgument)),
                    Some(t) => match spec_project_year(t as u64) {
                        Err(e) => Some(Err(e)),
                        Ok(project_year) => begin_create_after_clock(
                            program_id,
                            accounts,
                            mint,
                            owner,
                            vesting_type,
                            year,
                            start_time,
                            amount,
                            client_timestamp,
                            t,
                            project_year,
                        ),
                    },
                }
            },
        }
    }
}

/// The part of `spec_begin_create` after the clock has been read.
pub open spec fn begin_create_after_clock(
    program_id: Seq<u8>,
    accounts: Seq<AccountSnapshot>,
    mint: Seq<u8>,
    owner: Seq<u8>,
    vesting_type: VestingType,
    year: u32,
    start_time: u64,
    amount: u64,
    client_timestamp: u64,
    clock: i64,
    project_year: u32,
) -> Option<Result<CreatePlanView, ProgramError>> {
    if accounts[8].key@ != spec_system_program_id() {
        Some(Err(ProgramError::Vesting(VestingError::InvalidInstruction)))
    } else if accounts[9].key@ != spec_associated_token_program_id() {
        Some(Err(ProgramError::Vesting(VestingError::InvalidInstruction)))
    } else {
        match program_address(spec_vesting_seeds(owner, mint, client_timestamp), program_id) {
            None => None,
            Some(found) => if accounts[1].key@ != found.0 {
                Some(Err(ProgramError::Vesting(VestingError::InvalidInstruction)))
            } else if accounts[1].data@.len() != 0 {
                Some(Err(ProgramError::Vesting(VestingError::InvalidInstruction)))
            } else if !release_times_fit(start_time, vesting_type) {
                None
            } else {
                let schedules = spec_vesting_schedules(start_time, vesting_type, year, amount);
                if schedules.len() == 0 {
                    Some(Err(ProgramError::Vesting(VestingError::InvalidInstruction)))
                } else {
                    Some(
                        Ok(
                            CreatePlanView {
                                project_year,
                                clock_timestamp: clock,
                                vesting_account_size: (137 + 16 * schedules.len()) as u64,
                                vesting_signer_seeds: spec_vesting_seeds(
                                    owner,
                                    mint,
                                    client_timestamp,
                                ).push(seq![found.1]),
                                schedules: stored_schedules(schedules),
                            },
                        ),
                    )
                }
            },
        }
    }
}

/// The header of the vesting account of a create instruction, as its
/// bytes: the destination owner's associated token account for the mint
/// under the token program, the mint, the source owner as creator, the
/// destination owner, initialized, and the client's timestamp; `None`
/// where that associated token account cannot be derived (the program
/// aborts).
pub open spec fn spec_vesting_header(
    accounts: Seq<AccountSnapshot>,
    mint: Seq<u8>,
    owner: Seq<u8>,
    client_timestamp: u64,
) -> Option<Seq<u8>> {
    match spec_associated_token_address(owner, mint, accounts[0].key@) {
        None => None,
        Some(destination) => Some(
            spec_header_bytes(destination, mint, accounts[3].key@, owner, true, client_timestamp),
        ),
    }
}

/// Whether `r` is what `spec` describes, with plans taken by their view.
pub open spec fn outcome_matches<T: View>(
    r: Option<Result<T, ProgramError>>,
    spec: Option<Result<T::V, ProgramError>>,
) -> bool {
    match r {
        None => spec is None,
        Some(Err(e)) => spec == Some(Err::<T::V, ProgramError>(e)),
        Some(Ok(p)) => spec == Some(Ok::<T::V, ProgramError>(p@)),
    }
}


/// Whether the release times of a request fit in 64 bits.
fn release_times_are_representable(start_time: u64, vesting_type: VestingType) -> (b: bool)
    ensures
        b == release_times_fit(start_time, vesting_type),
{
    match vesting_type {
        VestingType::Market => start_time <= u64::MAX - crate::instruction::MONTH_IN_SECONDS,
        VestingType::DataPurchase => start_time <= u64::MAX - crate::instruction::YEAR_IN_SECONDS,
        VestingType::Team => start_time <= u64::MAX - crate::instruction::THREE_YEARS_IN_SECONDS,
    }
}

/// The releases of a request as stored in a vesting account.
fn to_stored_schedules(schedules: &Vec<Schedule>) -> (out: Vec<VestingSchedule>)
    ensures
        out@ == stored_schedules(schedules@),
{
    let mut out: Vec<VestingSchedule> = Vec::new();
    let n = schedules.len();
    let mut i: usize = 0;
    while i < n
        invariant
            0 <= i <= n,
            n == schedules@.len(),
            out@ == stored_schedules(schedules@).take(i as int),
        decreases n - i,
    {
        out.push(
            VestingSchedule { release_time: schedules[i].release_time, amount: schedules[i].amount },
        );
        i = i + 1;
        assert(out@ =~= stored_schedules(schedules@).take(i as int));
    }
    assert(stored_schedules(schedules@).take(n as int) =~= stored_schedules(schedules@));
    out
}

impl Processor {
    /// The first step of a create instruction (see `spec_begin_create`).
    /// `accounts` are, in order: token program, vesting account, vesting
    /// token account, source token account owner (signer), source token
    /// account, destination owner, mint, clock sysvar, system program,
    /// associated token account program, annual supply account.
    pub fn begin_create(
        program_id: &Pubkey,
        accounts: &[AccountSnapshot],
        mint_address: &Pubkey,
        destination_owner: &Pubkey,
        vesting_type: VestingType,
        year: u32,
        start_time: u64,
        amount: u64,
        client_timestamp: u64,
    ) -> (r: Option<Result<CreatePlan, ProgramError>>)
        ensures
            outcome_matches(
                r,
                spec_begin_create(
                    program_id@,
                    accounts@,
                    mint_address@,
                    destination_owner@,
                    vesting_type,
                    year,
                    start_time,
                    amount,
                    client_timestamp,
                ),
            ),
    {
        if accounts.len() != 11 {
            return Some(Err(ProgramError::NotEnoughAccountKeys));
        }
        if year == 0 {
            return Some(Err(ProgramError::Vesting(VestingError::InvalidYear)));
        }
        if amount == 0 {
            return Some(Err(ProgramError::Vesting(VestingError::InvalidAmount)));
        }
        if let Err(e) = validate_yearly_limit(&vesting_type, year, amount) {
            return Some(Err(e));
        }
        let token_program = &accounts[0];
        let source_token_account_owner = &accounts[3];
        let source_token_account = &accounts[4];
        let destination_owner_info = &accounts[5];
        let clock_sysvar = &accounts[7];
        let expected_source_token_account = match get_associated_token_address_with_program_id(
            &source_token_account_owner.key,
            mint_address,
            &token_program.key,
        ) {
            Some(address) => address,
            None => {
                return None;
            },
        };
        if source_token_account.key != expected_source_token_account {
            return Some(Err(ProgramError::Vesting(VestingError::InvalidInstruction)));
        }
        if destination_owner_info.key != *destination_owner {
            return Some(Err(ProgramError::Vesting(VestingError::InvalidInstruction)));
        }
        if token_program.key != token_2022_program_id() {
            return Some(Err(ProgramError::Vesting(VestingError::InvalidInstruction)));
        }
        if !source_token_account_owner.is_signer {
            return Some(Err(ProgramError::MissingRequiredSignature));
        }
        let clock = match clock_from_account(&clock_sysvar.key, clock_sysvar.data.as_slice()) {
            Ok(t) => t,
            Err(e) => {
                return Some(Err(e));
            },
        };
        let current_timestamp = clock as u64;
        let project_year = match calculate_project_year(current_timestamp) {
            Ok(y) => y,
            Err(e) => {
                return Some(Err(e));
            },
        };
        Self::begin_create_after_clock(
            program_id,
            accounts,
            mint_address,
            destination_owner,
            vesting_type,
            year,
            start_time,
            amount,
            client_timestamp,
            clock,
            project_year,
        )
    }

    /// The part of `begin_create` after the clock has been read.
    fn begin_create_after_clock(
        program_id: &Pubkey,
        accounts: &[AccountSnapshot],
        mint_address: &Pubkey,
        destination_owner: &Pubkey,
        vesting_type: VestingType,
        year: u32,
        start_time: u64,
        amount: u64,
        client_timestamp: u64,
        clock: i64,
        project_year: u32,
    ) -> (r: Option<Result<CreatePlan, ProgramError>>)
        requires
            accounts@.len() == 11,
            year != 0,
            amount != 0,
        ensures
            outcome_matches(
                r,
                begin_create_after_clock(
                    program_id@,
                    accounts@,
                    mint_address@,
                    destination_owner@,
                    vesting_type,
                    year,
                    start_time,
                    amount,
                    client_timestamp,
                    clock,
                    project_year,
                ),
            ),
    {
        let vesting_account = &accounts[1];
        let system_program = &accounts[8];
        let associated_token_program = &accounts[9];
        if system_program.key != system_program_id() {
            return Some(Err(ProgramError::Vesting(VestingError::InvalidInstruction)));
        }
        if associated_token_program.key != associated_token_program_id() {
            return Some(Err(ProgramError::Vesting(VestingError::InvalidInstruction)));
        }
        let seeds = vesting_seeds(destination_owner, mint_address, client_timestamp);
        let (vesting_account_key, bump) = match try_find_program_address(&seeds, program_id) {
            Some(found) => found,
            None => {
                return None;
            },
        };
        if vesting_account.key != vesting_account_key {
            return Some(Err(ProgramError::Vesting(VestingError::InvalidInstruction)));
        }
        if vesting_account.data.len() != 0 {
            return Some(Err(ProgramError::Vesting(VestingError::InvalidInstruction)));
        }
        if !release_times_are_representable(start_time, vesting_type) {
            return None;
        }
        let schedules = create_vesting_schedules(start_time, vesting_type, year, amount);
        if schedules.len() == 0 {
            return Some(Err(ProgramError::Vesting(VestingError::InvalidInstruction)));
        }
        let required_size = VestingScheduleHeader::LEN + schedules.len() * VestingSchedule::LEN;
        let plan = CreatePlan {
            project_year,
            clock_timestamp: clock,
            vesting_account_size: required_size as u64,
            vesting_signer_seeds: with_bump(&seeds, bump),
            schedules: to_stored_schedules(&schedules),
        };
        Some(Ok(plan))
    }

    /// The step of a create instruction after the vesting account has been
    /// made (see `spec_vesting_header`): the header to write at its start.
    pub fn prepare_vesting_header(
        accounts: &[AccountSnapshot],
        mint_address: &Pubkey,
        destination_owner: &Pubkey,
        client_timestamp: u64,
    ) -> (r: Option<VestingScheduleHeader>)
        requires
            accounts@.len() == 11,
        ensures
            match r {
                Some(h) => spec_vesting_header(
                    accounts@,
                    mint_address@,
                    destination_owner@,
                    client_timestamp,
                ) == Some(h.spec_pack()),
                None => spec_vesting_header(
                    accounts@,
                    mint_address@,
                    destination_owner@,
                    client_timestamp,
                ) is None,
            },
    {
        let token_program = &accounts[0];
        let source_token_account_owner = &accounts[3];
        let destination_address = match get_associated_token_address_with_program_id(
            destination_owner,
            mint_address,
            &token_program.key,
        ) {
            Some(address) => address,
            None => {
                return None;
            },
        };
        Some(
            VestingScheduleHeader {
                destination_address,
                mint_address: *mint_address,
                creator_pubkey: source_token_account_owner.key,
                destination_owner: *destination_owner,
                is_initialized: true,
                creation_timestamp: client_timestamp,
            },
        )
    }
}


/// What the second step of a create instruction gives: after the vesting
/// account has been made, the source token account's balance must cover
/// the amount, the vesting token account must exist, the mint account
/// must be the request's mint, the start time must not lie before the
/// clock, and the mint must have the token's decimals; then the token
/// transfer of `amount` from the source token account to the vesting
/// token account, signed by the source owner.
pub open spec fn create_transfer_outcome(
    r: Result<Instruction, ProgramError>,
    accounts: Seq<AccountSnapshot>,
    mint: Seq<u8>,
    start_time: u64,
    amount: u64,
    clock: i64,
) -> bool {
    match token_account_amount(accounts[4].data@) {
        Err(c) => r == Err::<Instruction, ProgramError>(ProgramError::Outside(c)),
        Ok(balance) => if balance < amount {
            r == Err::<Instruction, ProgramError>(
                ProgramError::Vesting(VestingError::InvalidAmount),
            )
        } else if accounts[2].data@.len() == 0 {
            r == Err::<Instruction, ProgramError>(
                ProgramError::Vesting(VestingError::InvalidInstruction),
            )
        } else if accounts[6].key@ != mint {
            r == Err::<Instruction, ProgramError>(
                ProgramError::Vesting(VestingError::InvalidInstruction),
            )
        } else if start_time < clock as u64 {
            r == Err::<Instruction, ProgramError>(ProgramError::Vesting(VestingError::InvalidTime))
        } else {
            match mint_decimals(accounts[6].data@) {
                Err(c) => r == Err::<Instruction, ProgramError>(ProgramError::Outside(c)),
                Ok(decimals) => if decimals != TOKEN_DECIMALS {
                    r == Err::<Instruction, ProgramError>(
                        ProgramError::Vesting(VestingError::InvalidInstruction),
                    )
                } else if !is_token_program(accounts[0].key@) {
                    r == Err::<Instruction, ProgramError>(ProgramError::IncorrectProgramId)
                } else {
                    r matches Ok(ix) && is_transfer_checked(
                        ix,
                        accounts[0].key@,
                        accounts[4].key@,
                        mint,
                        accounts[2].key@,
                        accounts[3].key@,
                        amount,
                        decimals,
                    )
                },
            }
        },
    }
}

/// The annual supply account a create instruction records its issuance in.
#[derive(Clone, Debug)]
pub struct SupplyAccountPlan {
    /// Where the account does not exist yet: the seeds, bump seed last,
    /// that sign for creating it.
    pub create_signer_seeds: Option<Vec<Vec<u8>>>,
    /// The state to write into a newly created account.
    pub initial_state: AnnualSupplyState,
}

/// What the third step of a create instruction gives: the annual supply
/// account must be the one derived from the project year; it is to be
/// created (size 29, with a fresh state of the year) where its data is
/// empty. `None` where no address can be derived (the program aborts).
pub open spec fn spec_prepare_annual_supply(
    program_id: Seq<u8>,
    accounts: Seq<AccountSnapshot>,
    project_year: u32,
) -> Option<Result<(Option<Seq<Seq<u8>>>, AnnualSupplyState), ProgramError>> {
    match program_address(spec_annual_supply_seeds(project_year), program_id) {
        None => None,
        Some(found) => if accounts[10].key@ != found.0 {
            Some(Err(ProgramError::Vesting(VestingError::InvalidInstruction)))
        } else {
            Some(
                Ok(
                    (
                        if accounts[10].data@.len() == 0 {
                            Some(spec_annual_supply_seeds(project_year).push(seq![found.1]))
                        } else {
                            None
                        },
                        AnnualSupplyState::spec_fresh(project_year),
                    ),
                ),
            )
        },
    }
}

impl View for SupplyAccountPlan {
    type V = (Option<Seq<Seq<u8>>>, AnnualSupplyState);

    open spec fn view(&self) -> (Option<Seq<Seq<u8>>>, AnnualSupplyState) {
        (
            match self.create_signer_seeds {
                Some(s) => Some(seeds_view(&s)),
                None => None,
            },
            self.initial_state,
        )
    }
}

/// The annual supply state after a create instruction records `amount`
/// tokens of `vesting_type` in `project_year`: the stored state, or a
/// fresh one where the stored state is of another year, must accept the
/// issuance (`spec_validate_issuance`), and then records it.
pub open spec fn spec_record_issuance(
    data: Seq<u8>,
    project_year: u32,
    vesting_type: VestingType,
    amount: u64,
) -> Result<AnnualSupplyState, ProgramError> {
    match AnnualSupplyState::spec_unpack_account(data) {
        Err(e) => Err(e),
        Ok(stored) => {
            let current = if stored.year != project_year {
                AnnualSupplyState::spec_fresh(project_year)
            } else {
                stored
            };
            match current.spec_validate_issuance(amount) {
                Err(e) => Err(e),
                Ok(_) => if current.issued_of(vesting_type) + amount > u64::MAX {
                    Err(ProgramError::Vesting(VestingError::InvalidAmount))
                } else {
                    Ok(current.with_issued(vesting_type, amount as int))
                },
            }
        },
    }
}

impl Processor {
    /// The second step of a create instruction (see
    /// `create_transfer_outcome`), on the accounts as they are after the
    /// vesting account was made: gives the token transfer to perform.
    pub fn prepare_create_transfer(
        accounts: &[AccountSnapshot],
        mint_address: &Pubkey,
        start_time: u64,
        amount: u64,
        clock_timestamp: i64,
    ) -> (r: Result<Instruction, ProgramError>)
        requires
            accounts@.len() == 11,
        ensures
            create_transfer_outcome(
                r,
                accounts@,
                mint_address@,
                start_time,
                amount,
                clock_timestamp,
            ),
    {
        let token_program = &accounts[0];
        let vesting_token_account = &accounts[2];
        let source_token_account_owner = &accounts[3];
        let source_token_account = &accounts[4];
        let mint_account = &accounts[6];
        let balance = unpack_token_account_amount(source_token_account.data.as_slice())?;
        if balance < amount {
            return Err(ProgramError::Vesting(VestingError::InvalidAmount));
        }
        if vesting_token_account.data.len() == 0 {
            return Err(ProgramError::Vesting(VestingError::InvalidInstruction));
        }
        if mint_account.key != *mint_address {
            return Err(ProgramError::Vesting(VestingError::InvalidInstruction));
        }
        if start_time < clock_timestamp as u64 {
            return Err(ProgramError::Vesting(VestingError::InvalidTime));
        }
        let decimals = unpack_mint_decimals(mint_account.data.as_slice())?;
        if decimals != TOKEN_DECIMALS {
            return Err(ProgramError::Vesting(VestingError::InvalidInstruction));
        }
        transfer_checked(
            &token_program.key,
            &source_token_account.key,
            mint_address,
            &vesting_token_account.key,
            &source_token_account_owner.key,
            amount,
            decimals,
        )
    }

    /// The third step of a create instruction (see
    /// `spec_prepare_annual_supply`): whether and how to create the annual
    /// supply account of `project_year`.
    pub fn prepare_annual_supply(
        program_id: &Pubkey,
        accounts: &[AccountSnapshot],
        project_year: u32,
    ) -> (r: Option<Result<SupplyAccountPlan, ProgramError>>)
        requires
            accounts@.len() == 11,
        ensures
            outcome_matches(r, spec_prepare_annual_supply(program_id@, accounts@, project_year)),
    {
        let annual_supply_account = &accounts[10];
        let seeds = annual_supply_seeds(project_year);
        let (supply_account_key, supply_bump) = match try_find_program_address(&seeds, program_id) {
            Some(found) => found,
            None => {
                return None;
            },
        };
        if annual_supply_account.key != supply_account_key {
            return Some(Err(ProgramError::Vesting(VestingError::InvalidInstruction)));
        }
        let create_signer_seeds = if annual_supply_account.data.len() == 0 {
            Some(with_bump(&seeds, supply_bump))
        } else {
            None
        };
        Some(
            Ok(
                SupplyAccountPlan {
                    create_signer_seeds,
                    initial_state: AnnualSupplyState::fresh(project_year),
                },
            ),
        )
    }

    /// The last step of a create instruction (see `spec_record_issuance`):
    /// the annual supply state to store after recording the issuance.
    pub fn record_issuance(
        supply_account_data: &[u8],
        project_year: u32,
        vesting_type: VestingType,
        amount: u64,
    ) -> (r: Result<AnnualSupplyState, ProgramError>)
        ensures
            r == spec_record_issuance(supply_account_data@, project_year, vesting_type, amount),
    {
        let mut supply_data = AnnualSupplyState::unpack(supply_account_data)?;
        if supply_data.year != project_year {
            supply_data = AnnualSupplyState::fresh(project_year);
        }
        supply_data.validate_issuance(&vesting_type, amount)?;
        supply_data.update_issued_amount(&vesting_type, amount)?;
        Ok(supply_data)
    }
}

/// The yearly limit holds after every recorded issuance: whatever the
/// stored annual supply state, a create instruction that records an
/// issuance leaves a state of the current project year whose total is at
/// most the yearly total limit, raised by exactly the issued amount from
/// the stored total of that year (or from zero in a new year).
pub proof fn lemma_recorded_issuance_within_yearly_limit(
    data: Seq<u8>,
    project_year: u32,
    vesting_type: VestingType,
    amount: u64,
)
    requires
        spec_record_issuance(data, project_year, vesting_type, amount) is Ok,
    ensures
        ({
            let after = spec_record_issuance(data, project_year, vesting_type, amount)->Ok_0;
            let stored = AnnualSupplyState::spec_unpack(data);
            &&& after.year == project_year
            &&& after.is_initialized
            &&& after.total_issued() <= crate::supply_limits::YEARLY_TOTAL_LIMIT
            &&& after.total_issued() == (if stored.year == project_year {
                stored.total_issued()
            } else {
                0
            }) + amount
        }),
{
}


/// Whether a schedule is released at `now`: its time has come and it
/// still holds tokens.
pub open spec fn is_due(s: VestingSchedule, now: u64) -> bool {
    now >= s.release_time && s.amount > 0
}

/// Tokens an unlock at `now` releases from `schedules`.
pub open spec fn released_amount(schedules: Seq<VestingSchedule>, now: u64) -> int
    decreases schedules.len(),
{
    if schedules.len() == 0 {
        0
    } else {
        released_amount(schedules.drop_last(), now) + if is_due(schedules.last(), now) {
            schedules.last().amount as int
        } else {
            0
        }
    }
}

/// The schedules after an unlock at `now`: those released hold nothing.
pub open spec fn after_release(schedules: Seq<VestingSchedule>, now: u64) -> Seq<VestingSchedule> {
    schedules.map_values(
        |s: VestingSchedule|
            if is_due(s, now) {
                VestingSchedule { release_time: s.release_time, amount: 0 }
            } else {
                s
            },
    )
}

/// Tokens the schedules of a vesting account still hold.
pub open spec fn vested_total(schedules: Seq<VestingSchedule>) -> int
    decreases schedules.len(),
{
    if schedules.len() == 0 {
        0
    } else {
        vested_total(schedules.drop_last()) + schedules.last().amount
    }
}

/// What an unlock instruction is to do.
#[derive(Clone, Debug)]
pub struct UnlockPlan {
    /// Tokens released.
    pub released: u64,
    /// Where tokens are released: the transfer from the vesting token
    /// account, signed by the vesting account.
    pub transfer: Option<Instruction>,
    /// Seeds, bump seed last, that sign for the vesting account.
    pub signer_seeds: Vec<Vec<u8>>,
    /// The schedules to store after the header where tokens are released.
    pub schedules: Vec<VestingSchedule>,
}

/// What an unlock instruction gives, on accounts token program, clock
/// sysvar, vesting account, vesting token account, destination token
/// account, signer and mint: the first failed check's error; `None` where
/// the program aborts (the vesting account is shorter than its header, or
/// no vesting account or vesting token account address exists);
/// otherwise the release of every schedule whose time has come, by one
/// transfer of their sum.
pub open spec fn unlock_outcome(
    r: Option<Result<UnlockPlan, ProgramError>>,
    program_id: Seq<u8>,
    accounts: Seq<AccountSnapshot>,
    vesting_account_key: Seq<u8>,
    destination_token_address: Seq<u8>,
) -> bool {
    if accounts.len() != 7 {
        r == Some(Err::<UnlockPlan, ProgramError>(ProgramError::NotEnoughAccountKeys))
    } else if accounts[2].key@ != vesting_account_key {
        r == Some(
            Err::<UnlockPlan, ProgramError>(ProgramError::Vesting(VestingError::InvalidInstruction)),
        )
    } else if accounts[4].key@ != destination_token_address {
        r == Some(
            Err::<UnlockPlan, ProgramError>(ProgramError::Vesting(VestingError::InvalidInstruction)),
        )
    } else if accounts[2].data@.len() < 137 {
        r is None
    } else {
        let header = VestingScheduleHeader::spec_unpack_fields(accounts[2].data@.subrange(0, 137));
        let (destination_address, mint, creator, owner, initialized, timestamp) = header;
        if !initialized {
            r == Some(Err::<UnlockPlan, ProgramError>(ProgramError::UninitializedAccount))
        } else if !accounts[5].is_signer {
            r == Some(Err::<UnlockPlan, ProgramError>(ProgramError::MissingRequiredSignature))
        } else if accounts[5].key@ != creator && accounts[5].key@ != owner {
            r == Some(
                Err::<UnlockPlan, ProgramError>(
                    ProgramError::Vesting(VestingError::InvalidInstruction),
                ),
            )
        } else if destination_address != destination_token_address {
            r == Some(
                Err::<UnlockPlan, ProgramError>(
                    ProgramError::Vesting(VestingError::InvalidInstruction),
                ),
            )
        } else {
            match program_address(spec_vesting_seeds(owner, mint, timestamp), program_id) {
                None => r is None,
                Some(found) => unlock_after_address(
                    r,
                    accounts,
                    mint,
                    spec_vesting_seeds(owner, mint, timestamp).push(seq![found.1]),
                    found.0,
                ),
            }
        }
    }
}

/// The part of `unlock_outcome` after the vesting account's address has
/// been derived (as `vesting_address`, signed for by `signer_seeds`).
pub open spec fn unlock_after_address(
    r: Option<Result<UnlockPlan, ProgramError>>,
    accounts: Seq<AccountSnapshot>,
    mint: Seq<u8>,
    signer_seeds: Seq<Seq<u8>>,
    vesting_address: Seq<u8>,
) -> bool {
    if accounts[2].key@ != vesting_address {
        r == Some(
            Err::<UnlockPlan, ProgramError>(ProgramError::Vesting(VestingError::InvalidInstruction)),
        )
    } else {
        match spec_associated_token_address(accounts[2].key@, mint, accounts[0].key@) {
            None => r is None,
            Some(expected) => if accounts[3].key@ != expected {
                r == Some(
                    Err::<UnlockPlan, ProgramError>(
                        ProgramError::Vesting(VestingError::InvalidInstruction),
                    ),
                )
            } else {
                unlock_after_vesting_token_account(r, accounts, mint, signer_seeds)
            },
        }
    }
}

/// The part of `unlock_outcome` after the vesting token account has been
/// checked.
pub open spec fn unlock_after_vesting_token_account(
    r: Option<Result<UnlockPlan, ProgramError>>,
    accounts: Seq<AccountSnapshot>,
    mint: Seq<u8>,
    signer_seeds: Seq<Seq<u8>>,
) -> bool {
    if accounts[6].key@ != mint {
        r == Some(
            Err::<UnlockPlan, ProgramError>(ProgramError::Vesting(VestingError::InvalidInstruction)),
        )
    } else if accounts[6].data@.len() <= 44 {
        r == Some(
            Err::<UnlockPlan, ProgramError>(ProgramError::Vesting(VestingError::InvalidInstruction)),
        )
    } else {
        match spec_clock_timestamp(accounts[1].key@, accounts[1].data@) {
            None => r == Some(Err::<UnlockPlan, ProgramError>(ProgramError::InvalidArgument)),
            Some(t) => {
                let rest = accounts[2].data@.skip(137);
                let schedules = spec_unpack_schedules(rest);
                let now = t as u64;
                let released = released_amount(schedules, now);
                if rest.len() % 16 != 0 {
                    r == Some(Err::<UnlockPlan, ProgramError>(ProgramError::InvalidAccountData))
                } else if released > u64::MAX {
                    r == Some(
                        Err::<UnlockPlan, ProgramError>(
                            ProgramError::Vesting(VestingError::InvalidAmount),
                        ),
                    )
                } else if released > 0 && !is_token_program(accounts[0].key@) {
                    r == Some(Err::<UnlockPlan, ProgramError>(ProgramError::IncorrectProgramId))
                } else {
                    r matches Some(Ok(plan)) && plan.released == released && seeds_view(
                        &plan.signer_seeds,
                    ) == signer_seeds && plan.schedules@ == after_release(schedules, now) && (
                    if released == 0 {
                        plan.transfer is None
                    } else {
                        plan.transfer matches Some(ix) && is_transfer_checked(
                            ix,
                            accounts[0].key@,
                            accounts[3].key@,
                            mint,
                            accounts[4].key@,
                            accounts[2].key@,
                            plan.released,
                            accounts[6].data@[44],
                        )
                    })
                }
            },
        }
    }
}

/// Released amounts of longer prefixes are at least those of shorter ones.
proof fn lemma_released_amount_prefix(schedules: Seq<VestingSchedule>, now: u64, i: int)
    requires
        0 <= i <= schedules.len(),
    ensures
        0 <= released_amount(schedules.take(i), now) <= released_amount(schedules, now),
    decreases schedules.len() - i,
{
    if i < schedules.len() {
        lemma_released_amount_prefix(schedules, now, i + 1);
        assert(schedules.take(i + 1).drop_last() =~= schedules.take(i));
    } else {
        assert(schedules.take(i) =~= schedules);
    }
    lemma_released_amount_nonnegative(schedules.take(i), now);
}

proof fn lemma_released_amount_nonnegative(schedules: Seq<VestingSchedule>, now: u64)
    ensures
        released_amount(schedules, now) >= 0,
    decreases schedules.len(),
{
    if schedules.len() > 0 {
        lemma_released_amount_nonnegative(schedules.drop_last(), now);
    }
}

/// Releases every schedule of `schedules` whose time has come at `now`,
/// giving the sum released; fails where that sum overflows.
fn release_due(schedules: &mut Vec<VestingSchedule>, now: u64) -> (r: Result<u64, ProgramError>)
    ensures
        released_amount(old(schedules)@, now) >= 0,
        released_amount(old(schedules)@, now) > u64::MAX ==> r == Err::<u64, ProgramError>(
            ProgramError::Vesting(VestingError::InvalidAmount),
        ),
        released_amount(old(schedules)@, now) <= u64::MAX ==> r == Ok::<u64, ProgramError>(
            released_amount(old(schedules)@, now) as u64,
        ) && final(schedules)@ == after_release(old(schedules)@, now),
{
    let ghost orig = schedules@;
    proof {
        lemma_released_amount_nonnegative(orig, now);
    }
    let n = schedules.len();
    let mut total_amount_to_transfer: u64 = 0;
    let mut i: usize = 0;
    while i < n
        invariant
            0 <= i <= n,
            n == orig.len(),
            orig == old(schedules)@,
            schedules@.len() == n,
            total_amount_to_transfer == released_amount(orig.take(i as int), now),
            forall|j: int| 0 <= j < i ==> schedules@[j] == after_release(orig, now)[j],
            forall|j: int| i <= j < n ==> schedules@[j] == orig[j],
        decreases n - i,
    {
        proof {
            assert(orig.take(i + 1).drop_last() =~= orig.take(i as int));
        }
        let s = schedules[i];
        proof {
            assert(orig.take(i + 1).last() == orig[i as int]);
        }
        if now >= s.release_time && s.amount > 0 {
            match total_amount_to_transfer.checked_add(s.amount) {
                Some(new_total) => {
                    total_amount_to_transfer = new_total;
                    schedules.set(i, VestingSchedule { release_time: s.release_time, amount: 0 });
                },
                None => {
                    proof {
                        assert(s == orig[i as int]);
                        assert(is_due(orig.take(i + 1).last(), now));
                        assert(released_amount(orig.take(i + 1), now) == released_amount(
                            orig.take(i as int),
                            now,
                        ) + s.amount);
                        lemma_released_amount_prefix(orig, now, i + 1);
                    }
                    return Err(ProgramError::Vesting(VestingError::InvalidAmount));
                },
            }
        }
        i = i + 1;
    }
    proof {
        assert(orig.take(n as int) =~= orig);
        assert(schedules@ =~= after_release(orig, now));
    }
    Ok(total_amount_to_transfer)
}

impl Processor {
    /// An unlock instruction (see `unlock_outcome`): gives the release to
    /// perform. `accounts` are, in order: token program, clock sysvar,
    /// vesting account, vesting token account, destination token account,
    /// signer (the vesting's creator or its destination owner), mint.
    pub fn process_unlock(
        program_id: &Pubkey,
        accounts: &[AccountSnapshot],
        vesting_account_key: &Pubkey,
        destination_token_address: &Pubkey,
    ) -> (r: Option<Result<UnlockPlan, ProgramError>>)
        ensures
            unlock_outcome(
                r,
                program_id@,
                accounts@,
                vesting_account_key@,
                destination_token_address@,
            ),
    {
        if accounts.len() != 7 {
            return Some(Err(ProgramError::NotEnoughAccountKeys));
        }
        let vesting_account = &accounts[2];
        let destination_token_account = &accounts[4];
        let signer = &accounts[5];
        if vesting_account.key != *vesting_account_key {
            return Some(Err(ProgramError::Vesting(VestingError::InvalidInstruction)));
        }
        if destination_token_account.key != *destination_token_address {
            return Some(Err(ProgramError::Vesting(VestingError::InvalidInstruction)));
        }
        if vesting_account.data.len() < VestingScheduleHeader::LEN {
            return None;
        }
        let header_bytes = vstd::slice::slice_subrange(vesting_account.data.as_slice(), 0, 137);
        let header = match VestingScheduleHeader::unpack(header_bytes) {
            Ok(h) => h,
            Err(e) => {
                return Some(Err(e));
            },
        };
        if !signer.is_signer {
            return Some(Err(ProgramError::MissingRequiredSignature));
        }
        if signer.key != header.creator_pubkey && signer.key != header.destination_owner {
            return Some(Err(ProgramError::Vesting(VestingError::InvalidInstruction)));
        }
        if header.destination_address != *destination_token_address {
            return Some(Err(ProgramError::Vesting(VestingError::InvalidInstruction)));
        }
        let seeds = vesting_seeds(
            &header.destination_owner,
            &header.mint_address,
            header.creation_timestamp,
        );
        let (expected_vesting_key, bump_seed) = match try_find_program_address(&seeds, program_id) {
            Some(found) => found,
            None => {
                return None;
            },
        };
        Self::unlock_after_address(accounts, &header, with_bump(&seeds, bump_seed), &expected_vesting_key)
    }

    /// The part of `process_unlock` after the vesting account's address
    /// has been derived.
    fn unlock_after_address(
        accounts: &[AccountSnapshot],
        header: &VestingScheduleHeader,
        signer_seeds: Vec<Vec<u8>>,
        vesting_address: &Pubkey,
    ) -> (r: Option<Result<UnlockPlan, ProgramError>>)
        requires
            accounts@.len() == 7,
            accounts@[2].data@.len() >= 137,
        ensures
            unlock_after_address(
                r,
                accounts@,
                header.mint_address@,
                seeds_view(&signer_seeds),
                vesting_address@,
            ),
    {
        let token_program = &accounts[0];
        let clock_sysvar = &accounts[1];
        let vesting_account = &accounts[2];
        let vesting_token_account = &accounts[3];
        let destination_token_account = &accounts[4];
        let mint_account = &accounts[6];
        if vesting_account.key != *vesting_address {
            return Some(Err(ProgramError::Vesting(VestingError::InvalidInstruction)));
        }
        let expected_vesting_token_account = match get_associated_token_address_with_program_id(
            &vesting_account.key,
            &header.mint_address,
            &token_program.key,
        ) {
            Some(address) => address,
            None => {
                return None;
            },
        };
        if vesting_token_account.key != expected_vesting_token_account {
            return Some(Err(ProgramError::Vesting(VestingError::InvalidInstruction)));
        }
        if mint_account.key != header.mint_address {
            return Some(Err(ProgramError::Vesting(VestingError::InvalidInstruction)));
        }
        if mint_account.data.len() <= 44 {
            return Some(Err(ProgramError::Vesting(VestingError::InvalidInstruction)));
        }
        let decimals = mint_account.data[44];
        let clock = match clock_from_account(&clock_sysvar.key, clock_sysvar.data.as_slice()) {
            Ok(t) => t,
            Err(e) => {
                return Some(Err(e));
            },
        };
        let data_len = vesting_account.data.len();
        let rest = vstd::slice::slice_subrange(vesting_account.data.as_slice(), 137, data_len);
        assert(rest@ =~= accounts@[2].data@.skip(137));
        let mut schedules = match unpack_schedules(rest) {
            Ok(s) => s,
            Err(e) => {
                return Some(Err(e));
            },
        };
        let now = clock as u64;
        let released = match release_due(&mut schedules, now) {
            Ok(t) => t,
            Err(e) => {
                return Some(Err(e));
            },
        };
        if released > 0 {
            let ix = match transfer_checked(
                &token_program.key,
                &vesting_token_account.key,
                &header.mint_address,
                &destination_token_account.key,
                &vesting_account.key,
                released,
                decimals,
            ) {
                Ok(ix) => ix,
                Err(e) => {
                    return Some(Err(e));
                },
            };
            Some(Ok(UnlockPlan { released, transfer: Some(ix), signer_seeds, schedules }))
        } else {
            Some(Ok(UnlockPlan { released, transfer: None, signer_seeds, schedules }))
        }
    }
}


/// An unlock moves tokens, never makes or loses them: what the schedules
/// hold afterwards plus what was released is what they held before.
pub proof fn lemma_release_conserves_tokens(schedules: Seq<VestingSchedule>, now: u64)
    ensures
        vested_total(after_release(schedules, now)) + released_amount(schedules, now)
            == vested_total(schedules),
    decreases schedules.len(),
{
    if schedules.len() > 0 {
        let init = schedules.drop_last();
        lemma_release_conserves_tokens(init, now);
        assert(after_release(schedules, now).drop_last() =~= after_release(init, now));
    }
}

/// An unlock releases nothing a second time: at the same time, a second
/// unlock releases no tokens and changes no schedule.
pub proof fn lemma_release_idempotent(schedules: Seq<VestingSchedule>, now: u64)
    ensures
        released_amount(after_release(schedules, now), now) == 0,
        after_release(after_release(schedules, now), now) == after_release(schedules, now),
    decreases schedules.len(),
{
    if schedules.len() > 0 {
        let init = schedules.drop_last();
        lemma_release_idempotent(init, now);
        assert(after_release(schedules, now).drop_last() =~= after_release(init, now));
    }
    assert(after_release(after_release(schedules, now), now) =~= after_release(schedules, now));
}

/// An unlock touches only schedules whose time has come: a schedule whose
/// release time lies after `now` keeps its amount.
pub proof fn lemma_release_keeps_future_schedules(
    schedules: Seq<VestingSchedule>,
    now: u64,
    i: int,
)
    requires
        0 <= i < schedules.len(),
        schedules[i].release_time > now,
    ensures
        after_release(schedules, now)[i] == schedules[i],
{
}

/// Only the vesting's creator or its destination owner, signing, can
/// unlock: an unlock that goes ahead had such a signer.
pub proof fn lemma_unlock_requires_authorized_signer(
    r: Option<Result<UnlockPlan, ProgramError>>,
    program_id: Seq<u8>,
    accounts: Seq<AccountSnapshot>,
    vesting_account_key: Seq<u8>,
    destination_token_address: Seq<u8>,
)
    requires
        unlock_outcome(r, program_id, accounts, vesting_account_key, destination_token_address),
        r matches Some(Ok(_)),
    ensures
        accounts.len() == 7,
        accounts[5].is_signer,
        ({
            let (_, _, creator, owner, _, _) = VestingScheduleHeader::spec_unpack_fields(
                accounts[2].data@.subrange(0, 137),
            );
            accounts[5].key@ == creator || accounts[5].key@ == owner
        }),
{
}


/// The vesting account made for a request releases the request's amount
/// in full, once its last release time has come, and nothing before its
/// first release time.
pub proof fn lemma_vesting_releases_requested_amount(
    start_time: u64,
    vesting_type: VestingType,
    year: u32,
    amount: u64,
    now: u64,
)
    requires
        year != 0,
        release_times_fit(start_time, vesting_type),
    ensures
        ({
            let stored = stored_schedules(
                spec_vesting_schedules(start_time, vesting_type, year, amount),
            );
            &&& (forall|i: int|
                0 <= i < stored.len() ==> #[trigger] stored[i].release_time <= now)
                ==> released_amount(stored, now) == amount
            &&& (forall|i: int|
                0 <= i < stored.len() ==> #[trigger] stored[i].release_time > now)
                ==> released_amount(stored, now) == 0
        }),
{
    let stored = stored_schedules(spec_vesting_schedules(start_time, vesting_type, year, amount));
    reveal_with_fuel(released_amount, 3);
    if amount != 0 {
        match vesting_type {
            VestingType::DataPurchase => {
                assert(stored.drop_last().drop_last() =~= Seq::<VestingSchedule>::empty());
                assert(stored.drop_last().last() == stored[0]);
            },
            _ => {
                assert(stored.drop_last() =~= Seq::<VestingSchedule>::empty());
            },
        }
    } else {
        assert(stored =~= Seq::<VestingSchedule>::empty());
    }
}


/// Tokens of `schedules` that fall due after `from` and no later than
/// `to`: the amounts, where not yet released, of the schedules whose
/// release time lies in that window.
pub open spec fn released_between(schedules: Seq<VestingSchedule>, from: u64, to: u64) -> int
    decreases schedules.len(),
{
    if schedules.len() == 0 {
        0
    } else {
        released_between(schedules.drop_last(), from, to) + if from < schedules.last().release_time
            <= to && schedules.last().amount > 0 {
            schedules.last().amount as int
        } else {
            0
        }
    }
}

/// A later unlock releases exactly what fell due since the earlier one:
/// after an unlock at `now1`, an unlock at `now2` (not earlier) releases
/// the schedules whose release time lies after `now1` and no later than
/// `now2`, and leaves the schedules as one unlock at `now2` would have. At
/// the same time it releases nothing.
pub proof fn lemma_unlock_releases_window(
    schedules: Seq<VestingSchedule>,
    now1: u64,
    now2: u64,
)
    requires
        now1 <= now2,
    ensures
        released_amount(after_release(schedules, now1), now2) == released_between(
            schedules,
            now1,
            now2,
        ),
        released_amount(schedules, now1) + released_between(schedules, now1, now2)
            == released_amount(schedules, now2),
        after_release(after_release(schedules, now1), now2) == after_release(schedules, now2),
        released_between(schedules, now1, now1) == 0,
    decreases schedules.len(),
{
    if schedules.len() > 0 {
        let init = schedules.drop_last();
        lemma_unlock_releases_window(init, now1, now2);
        assert(after_release(schedules, now1).drop_last() =~= after_release(init, now1));
    }
    assert(after_release(after_release(schedules, now1), now2) =~= after_release(schedules, now2));
}

/// The schedules after unlocks at each of `times` in turn.
pub open spec fn after_unlocks(schedules: Seq<VestingSchedule>, times: Seq<u64>) -> Seq<
    VestingSchedule,
>
    decreases times.len(),
{
    if times.len() == 0 {
        schedules
    } else {
        after_release(after_unlocks(schedules, times.drop_last()), times.last())
    }
}

/// Tokens released by unlocks at each of `times` in turn.
pub open spec fn released_by_unlocks(schedules: Seq<VestingSchedule>, times: Seq<u64>) -> int
    decreases times.len(),
{
    if times.len() == 0 {
        0
    } else {
        released_by_unlocks(schedules, times.drop_last()) + released_amount(
            after_unlocks(schedules, times.drop_last()),
            times.last(),
        )
    }
}

/// Over any sequence of unlocks, tokens are moved, never made or lost:
/// what the schedules still hold plus all that was released is what they
/// held at first. No unlock changes a release time or the number of
/// schedules, and no amount ever grows.
pub proof fn lemma_unlocks_conserve_tokens(
    schedules: Seq<VestingSchedule>,
    times: Seq<u64>,
)
    ensures
        vested_total(after_unlocks(schedules, times)) + released_by_unlocks(schedules, times)
            == vested_total(schedules),
        after_unlocks(schedules, times).len() == schedules.len(),
        forall|i: int|
            0 <= i < schedules.len() ==> (#[trigger] after_unlocks(schedules, times)[i]).release_time
                == schedules[i].release_time && after_unlocks(schedules, times)[i].amount
                <= schedules[i].amount,
    decreases times.len(),
{
    if times.len() > 0 {
        let before = after_unlocks(schedules, times.drop_last());
        lemma_unlocks_conserve_tokens(schedules, times.drop_last());
        lemma_release_conserves_tokens(before, times.last());
        assert forall|i: int| 0 <= i < schedules.len() implies (#[trigger] after_unlocks(
            schedules,
            times,
        )[i]).release_time == schedules[i].release_time && after_unlocks(schedules, times)[i].amount
            <= schedules[i].amount by {
            assert(before[i].release_time == schedules[i].release_time);
        }
    }
}


/// The schedules stored in a vesting account's data, after its header.
pub open spec fn account_schedules(data: Seq<u8>) -> Seq<VestingSchedule> {
    spec_unpack_schedules(data.skip(137))
}

/// The time an unlock on `accounts` reads from the clock sysvar.
pub open spec fn unlock_time(accounts: Seq<AccountSnapshot>) -> u64 {
    (spec_clock_timestamp(accounts[1].key@, accounts[1].data@)->Some_0) as u64
}

/// A vesting account's data once the release of an unlock that went ahead
/// with `plan` has been stored: its header, then the plan's schedules.
pub open spec fn stored_after_unlock(data: Seq<u8>, plan: UnlockPlan) -> Seq<u8> {
    data.take(137) + spec_pack_schedules(plan.schedules@)
}

/// Nothing released, nothing changed.
proof fn lemma_nothing_released_keeps_schedules(schedules: Seq<VestingSchedule>, now: u64)
    requires
        released_amount(schedules, now) == 0,
    ensures
        after_release(schedules, now) == schedules,
    decreases schedules.len(),
{
    if schedules.len() > 0 {
        let init = schedules.drop_last();
        lemma_released_amount_nonnegative(init, now);
        lemma_nothing_released_keeps_schedules(init, now);
        assert(!is_due(schedules.last(), now));
        assert forall|i: int| 0 <= i < schedules.len() implies after_release(schedules, now)[i]
            == schedules[i] by {
            if i < init.len() {
                assert(init[i] == schedules[i]);
                assert(after_release(init, now)[i] == init[i]);
            }
        }
    }
    assert(after_release(schedules, now) =~= schedules);
}

/// An unlock that goes ahead releases, at the clock's time, what
/// `released_amount` gives of the stored schedules, and storing its
/// release keeps the vesting account's size and header and leaves the
/// released schedules empty; where it releases nothing, the account's
/// data stays as it was.
pub proof fn lemma_unlock_step(
    program_id: Seq<u8>,
    accounts: Seq<AccountSnapshot>,
    vesting_account_key: Seq<u8>,
    destination_token_address: Seq<u8>,
    plan: UnlockPlan,
)
    requires
        unlock_outcome(
            Some(Ok(plan)),
            program_id,
            accounts,
            vesting_account_key,
            destination_token_address,
        ),
    ensures
        ({
            let data = accounts[2].data@;
            let now = unlock_time(accounts);
            let after = stored_after_unlock(data, plan);
            &&& accounts.len() == 7
            &&& data.len() >= 137
            &&& spec_clock_timestamp(accounts[1].key@, accounts[1].data@) is Some
            &&& plan.released == released_amount(account_schedules(data), now)
            &&& plan.schedules@ == after_release(account_schedules(data), now)
            &&& after.len() == data.len()
            &&& after.take(137) == data.take(137)
            &&& account_schedules(after) == after_release(account_schedules(data), now)
            &&& plan.released == 0 ==> after == data
        }),
{
    let data = accounts[2].data@;
    let now = unlock_time(accounts);
    let rest = data.skip(137);
    let before = account_schedules(data);
    let after = stored_after_unlock(data, plan);
    lemma_schedules_pack_unpack(rest);
    lemma_pack_schedules_layout(before);
    lemma_pack_schedules_layout(plan.schedules@);
    lemma_schedules_unpack_pack(plan.schedules@);
    assert(after.skip(137) =~= spec_pack_schedules(plan.schedules@));
    if plan.released == 0 {
        lemma_nothing_released_keeps_schedules(before, now);
        assert(after =~= data);
    }
}

/// The sum of what `plans` released.
pub open spec fn total_released(plans: Seq<UnlockPlan>) -> int
    decreases plans.len(),
{
    if plans.len() == 0 {
        0
    } else {
        total_released(plans.drop_last()) + plans.last().released
    }
}

/// A vesting account's data, from `data` on, after the releases of
/// `plans` have been stored in turn.
pub open spec fn data_after_unlocks(data: Seq<u8>, plans: Seq<UnlockPlan>) -> Seq<u8>
    decreases plans.len(),
{
    if plans.len() == 0 {
        data
    } else {
        stored_after_unlock(data_after_unlocks(data, plans.drop_last()), plans.last())
    }
}

/// Whether `calls` are the accounts of unlocks of `program_id` that went
/// ahead, one after the other, with `plans`, on a vesting account whose
/// data was `data` before the first and after each held what the ones
/// before it stored.
pub open spec fn is_unlock_run(
    program_id: Seq<u8>,
    data: Seq<u8>,
    calls: Seq<Seq<AccountSnapshot>>,
    plans: Seq<UnlockPlan>,
) -> bool {
    &&& calls.len() == plans.len()
    &&& forall|k: int|
        0 <= k < calls.len() ==> (#[trigger] calls[k])[2].data@ == data_after_unlocks(
            data,
            plans.take(k),
        ) && unlock_outcome(
            Some(Ok(plans[k])),
            program_id,
            calls[k],
            calls[k][2].key@,
            calls[k][4].key@,
        )
}

/// The clock times that the unlocks on `calls` read.
pub open spec fn unlock_times(calls: Seq<Seq<AccountSnapshot>>) -> Seq<u64> {
    calls.map_values(|accounts: Seq<AccountSnapshot>| unlock_time(accounts))
}

/// A run of unlocks does to the stored schedules what unlocks at the
/// clock times it read do, and releases what those unlocks release; it
/// never changes the vesting account's size or header.
pub proof fn lemma_unlock_run(
    program_id: Seq<u8>,
    data: Seq<u8>,
    calls: Seq<Seq<AccountSnapshot>>,
    plans: Seq<UnlockPlan>,
)
    requires
        is_unlock_run(program_id, data, calls, plans),
    ensures
        data_after_unlocks(data, plans).len() == data.len(),
        data_after_unlocks(data, plans).take(137) == data.take(137),
        account_schedules(data_after_unlocks(data, plans)) == after_unlocks(
            account_schedules(data),
            unlock_times(calls),
        ),
        total_released(plans) == released_by_unlocks(account_schedules(data), unlock_times(calls)),
    decreases plans.len(),
{
    if plans.len() > 0 {
        let n = plans.len() - 1;
        let calls0 = calls.drop_last();
        let plans0 = plans.drop_last();
        assert forall|k: int| 0 <= k < calls0.len() implies (#[trigger] calls0[k])[2].data@
            == data_after_unlocks(data, plans0.take(k)) && unlock_outcome(
            Some(Ok(plans0[k])),
            program_id,
            calls0[k],
            calls0[k][2].key@,
            calls0[k][4].key@,
        ) by {
            assert(calls0[k] == calls[k]);
            assert(plans0.take(k) =~= plans.take(k));
        }
        lemma_unlock_run(program_id, data, calls0, plans0);
        let last = calls[n];
        assert(last == calls[n]);
        assert(plans.take(n) =~= plans0);
        lemma_unlock_step(program_id, last, last[2].key@, last[4].key@, plans[n]);
        let times = unlock_times(calls);
        assert(unlock_times(calls0) =~= times.drop_last());
        assert(times.last() == unlock_time(last));
        if n == 0 {
            assert(data_after_unlocks(data, plans0) == data);
        }
    }
}

/// A vesting account, from its creation on, holds what was vested: after
/// any run of unlocks, what its schedules still hold plus all that the
/// unlocks released is the amount of the create request. The header
/// written at creation (`header`, whatever it holds), the number of
/// schedules and every release time never change, and no stored amount
/// ever grows.
pub proof fn lemma_vesting_account_conserves_amount(
    program_id: Seq<u8>,
    create_accounts: Seq<AccountSnapshot>,
    mint: Seq<u8>,
    owner: Seq<u8>,
    vesting_type: VestingType,
    year: u32,
    start_time: u64,
    amount: u64,
    client_timestamp: u64,
    plan: CreatePlan,
    header: VestingScheduleHeader,
    calls: Seq<Seq<AccountSnapshot>>,
    plans: Seq<UnlockPlan>,
)
    requires
        spec_begin_create(
            program_id,
            create_accounts,
            mint,
            owner,
            vesting_type,
            year,
            start_time,
            amount,
            client_timestamp,
        ) == Some(Ok::<CreatePlanView, ProgramError>(plan@)),
        is_unlock_run(
            program_id,
            header.spec_pack() + spec_pack_schedules(plan.schedules@),
            calls,
            plans,
        ),
    ensures
        ({
            let created = header.spec_pack() + spec_pack_schedules(plan.schedules@);
            let now = data_after_unlocks(created, plans);
            let stored = account_schedules(now);
            &&& vested_total(stored) + total_released(plans) == amount
            &&& now.len() == created.len()
            &&& now.take(137) == header.spec_pack()
            &&& stored.len() == plan.schedules@.len()
            &&& forall|i: int|
                0 <= i < stored.len() ==> (#[trigger] stored[i]).release_time
                    == plan.schedules@[i].release_time && stored[i].amount
                    <= plan.schedules@[i].amount
        }),
{
    let created = header.spec_pack() + spec_pack_schedules(plan.schedules@);
    lemma_header_unpack_pack(header);
    assert(created.skip(137) =~= spec_pack_schedules(plan.schedules@));
    lemma_schedules_unpack_pack(plan.schedules@);
    assert(created.take(137) =~= header.spec_pack());
    lemma_unlock_run(program_id, created, calls, plans);
    lemma_unlocks_conserve_tokens(plan.schedules@, unlock_times(calls));
    lemma_vesting_schedules_conserve_amount(start_time, vesting_type, year, amount);
    lemma_stored_total(spec_vesting_schedules(start_time, vesting_type, year, amount));
}

/// The stored releases of a request hold what the request's releases do.
proof fn lemma_stored_total(schedules: Seq<Schedule>)
    ensures
        vested_total(stored_schedules(schedules)) == schedules_total(schedules),
    decreases schedules.len(),
{
    if schedules.len() > 0 {
        lemma_stored_total(schedules.drop_last());
        assert(stored_schedules(schedules).drop_last() =~= stored_schedules(
            schedules.drop_last(),
        ));
    }
}

/// Of two unlocks in a row, at clock times `now1` no later than `now2`,
/// the second releases exactly the stored amounts whose release time lies
/// after `now1` and no later than `now2`; at the same time it releases
/// nothing, makes no transfer and leaves the account's data as it was.
pub proof fn lemma_later_unlock_releases_window(
    program_id: Seq<u8>,
    data: Seq<u8>,
    calls: Seq<Seq<AccountSnapshot>>,
    plans: Seq<UnlockPlan>,
)
    requires
        is_unlock_run(program_id, data, calls, plans),
        calls.len() == 2,
        unlock_time(calls[0]) <= unlock_time(calls[1]),
    ensures
        plans[1].released == released_between(
            account_schedules(data),
            unlock_time(calls[0]),
            unlock_time(calls[1]),
        ),
        unlock_time(calls[0]) == unlock_time(calls[1]) ==> plans[1].released == 0
            && plans[1].transfer is None && data_after_unlocks(data, plans) == data_after_unlocks(
            data,
            plans.take(1),
        ),
{
    let c0 = calls[0];
    let c1 = calls[1];
    assert(plans.take(0) =~= Seq::<UnlockPlan>::empty());
    lemma_unlock_step(program_id, c0, c0[2].key@, c0[4].key@, plans[0]);
    lemma_unlock_step(program_id, c1, c1[2].key@, c1[4].key@, plans[1]);
    assert(plans.take(1).drop_last() =~= Seq::<UnlockPlan>::empty());
    assert(plans.take(1).last() == plans[0]);
    lemma_unlock_releases_window(account_schedules(data), unlock_time(c0), unlock_time(c1));
    assert(plans.drop_last() =~= plans.take(1));
}


/// A create instruction books its issuance on the type requested and on
/// nothing else: the counter of that type grows by exactly the amount,
/// from the stored counter of the year (or from zero in a new year), and
/// the other two counters stay as they were (or zero in a new year).
pub proof fn lemma_recorded_issuance_books_its_type(
    data: Seq<u8>,
    project_year: u32,
    vesting_type: VestingType,
    amount: u64,
)
    requires
        spec_record_issuance(data, project_year, vesting_type, amount) is Ok,
    ensures
        ({
            let after = spec_record_issuance(data, project_year, vesting_type, amount)->Ok_0;
            let stored = AnnualSupplyState::spec_unpack(data);
            let same_year = stored.year == project_year;
            let market: int = if same_year { stored.market_issued as int } else { 0 };
            let data_purchase: int = if same_year {
                stored.data_purchase_issued as int
            } else {
                0
            };
            let team: int = if same_year { stored.team_issued as int } else { 0 };
            match vesting_type {
                VestingType::Market => {
                    &&& after.market_issued == market + amount
                    &&& after.data_purchase_issued == data_purchase
                    &&& after.team_issued == team
                },
                VestingType::DataPurchase => {
                    &&& after.market_issued == market
                    &&& after.data_purchase_issued == data_purchase + amount
                    &&& after.team_issued == team
                },
                VestingType::Team => {
                    &&& after.market_issued == market
                    &&& after.data_purchase_issued == data_purchase
                    &&& after.team_issued == team + amount
                },
            }
        }),
{
}

/// A create instruction built by the client names the annual supply
/// account of the year it requests, which is the project year of its
/// timestamp: the address derived from `"annual_supply"` and that year
/// (little-endian), the one account the program's annual supply step
/// accepts for that year.
pub proof fn lemma_create_instruction_names_the_years_supply_account(
    r: Option<Result<Instruction, ProgramError>>,
    program_id: Seq<u8>,
    token_program_id: Seq<u8>,
    source_owner: Seq<u8>,
    source_token_account: Seq<u8>,
    destination_owner: Seq<u8>,
    mint: Seq<u8>,
    vesting_type: VestingType,
    year: u32,
    start_time: u64,
    amount: u64,
    timestamp: u64,
)
    requires
        create_outcome(
            r,
            program_id,
            token_program_id,
            source_owner,
            source_token_account,
            destination_owner,
            mint,
            vesting_type,
            year,
            start_time,
            amount,
            timestamp,
        ),
        r matches Some(Ok(_)),
    ensures
        timestamp >= 1741608000,
        year == (timestamp - 1741608000) / 31104000 + 1,
        ({
            let ix = r->Some_0->Ok_0;
            let seeds = seq![
                seq![97u8, 110, 110, 117, 97, 108, 95, 115, 117, 112, 112, 108, 121],
                spec_u32_to_le_bytes(year),
            ];
            &&& program_address(seeds, program_id) is Some
            &&& ix.accounts@.len() == 11
            &&& ix.accounts@[10].pubkey@ == program_address(seeds, program_id)->Some_0.0
            &&& forall|accounts: Seq<AccountSnapshot>|
                accounts[10].key@ == ix.accounts@[10].pubkey@ ==> (
                #[trigger] spec_prepare_annual_supply(program_id, accounts, year)) is Some
                    && spec_prepare_annual_supply(program_id, accounts, year)->Some_0 is Ok
        }),
{
    let seeds = seq![
        seq![97u8, 110, 110, 117, 97, 108, 95, 115, 117, 112, 112, 108, 121],
        spec_u32_to_le_bytes(year),
    ];
    assert(seeds =~= spec_annual_supply_seeds(year));
}


/// An issuance that keeps the year's total within 42 million tokens is
/// recorded: where the annual supply account holds an initialized state,
/// recording `amount` succeeds whenever the year's issued total (zero in
/// a new year) plus `amount` is at most 42,000,000,000,000 base units.
pub proof fn lemma_issuance_within_total_is_recorded(
    data: Seq<u8>,
    project_year: u32,
    vesting_type: VestingType,
    amount: u64,
)
    requires
        data.len() == 29,
        data[28] != 0,
        ({
            let stored = AnnualSupplyState::spec_unpack(data);
            (if stored.year == project_year {
                stored.market_issued + stored.data_purchase_issued + stored.team_issued
            } else {
                0
            }) + amount <= 42_000_000_000_000
        }),
    ensures
        spec_record_issuance(data, project_year, vesting_type, amount) is Ok,
{
}

} // verus!
