//! The issuance of one project year, per vesting type, and its 29-byte
//! account layout.
use vstd::prelude::*;
use vstd::bytes::{spec_u32_to_le_bytes, spec_u64_to_le_bytes};
use crate::bytes::{
    append_u32, append_u64, flag_byte, lemma_le_bytes_len, lemma_u32_bytes_of_read,
    lemma_u32_roundtrip, lemma_u64_bytes_of_read, lemma_u64_roundtrip, read_u32, read_u64, splice,
    u32_at, u64_at, write_bytes,
};
use crate::error::{ProgramError, VestingError};
use crate::instruction::VestingType;
use crate::supply_limits::{
    is_project_year, PROJECT_YEARS, THEORETICAL_MAX_SUPPLY, YEARLY_TOTAL_LIMIT,
};

verus! {

/// Tracks the annual issuance amounts for each vesting type.
#[derive(Clone, Copy, Debug, PartialEq, Eq, Structural)]
pub struct AnnualSupplyState {
    pub year: u32,
    pub market_issued: u64,
    pub data_purchase_issued: u64,
    pub team_issued: u64,
    pub is_initialized: bool,
}

/// Checks that `year` is one of the project years.
pub fn validate_project_year(year: u32) -> (r: Result<(), ProgramError>)
    ensures
        is_project_year(year) ==> r is Ok,
        !is_project_year(year) ==> r == Err::<(), ProgramError>(
            ProgramError::Vesting(VestingError::InvalidYear),
        ),
{
    if year == 0 || year > PROJECT_YEARS {
        return Err(ProgramError::Vesting(VestingError::InvalidYear));
    }
    Ok(())
}

impl AnnualSupplyState {
    /// Bytes of a packed state: year (4), the three issued amounts (8 each),
    /// the initialized flag (1).
    pub const LEN: usize = 29;

    /// Tokens issued in the year over all vesting types.
    pub open spec fn total_issued(self) -> int {
        self.market_issued + self.data_purchase_issued + self.team_issued
    }

    /// Tokens issued in the year for `vesting_type`.
    pub open spec fn issued_of(self, vesting_type: VestingType) -> u64 {
        match vesting_type {
            VestingType::Market => self.market_issued,
            VestingType::DataPurchase => self.data_purchase_issued,
            VestingType::Team => self.team_issued,
        }
    }

    /// This state with `amount` more issued for `vesting_type`.
    pub open spec fn with_issued(self, vesting_type: VestingType, amount: int) -> Self {
        match vesting_type {
            VestingType::Market => AnnualSupplyState {
                market_issued: (self.market_issued + amount) as u64,
                ..self
            },
            VestingType::DataPurchase => AnnualSupplyState {
                data_purchase_issued: (self.data_purchase_issued + amount) as u64,
                ..self
            },
            VestingType::Team => AnnualSupplyState {
                team_issued: (self.team_issued + amount) as u64,
                ..self
            },
        }
    }

    /// The outcome of checking an issuance of `amount` more tokens: the
    /// year's total, with the new amount, must be representable and within
    /// the yearly total limit.
    pub open spec fn spec_validate_issuance(self, amount: u64) -> Result<(), ProgramError> {
        if self.total_issued() > u64::MAX || self.total_issued() + amount > u64::MAX {
            Err(ProgramError::Vesting(VestingError::InvalidAmount))
        } else if self.total_issued() + amount > YEARLY_TOTAL_LIMIT {
            Err(ProgramError::Vesting(VestingError::ExceedsYearlyLimit))
        } else {
            Ok(())
        }
    }

    /// The 29 bytes of this state.
    pub open spec fn spec_pack(self) -> Seq<u8> {
        spec_u32_to_le_bytes(self.year) + spec_u64_to_le_bytes(self.market_issued)
            + spec_u64_to_le_bytes(self.data_purchase_issued) + spec_u64_to_le_bytes(
            self.team_issued,
        ) + seq![flag_byte(self.is_initialized)]
    }

    /// The state stored in the first 29 bytes of `src`.
    pub open spec fn spec_unpack(src: Seq<u8>) -> Self {
        AnnualSupplyState {
            year: u32_at(src, 0),
            market_issued: u64_at(src, 4),
            data_purchase_issued: u64_at(src, 12),
            team_issued: u64_at(src, 20),
            is_initialized: src[28] != 0,
        }
    }

    /// The state of an account's whole data, as the program reads it:
    /// the data must be exactly 29 bytes and mark the state initialized.
    pub open spec fn spec_unpack_account(src: Seq<u8>) -> Result<Self, ProgramError> {
        if src.len() != Self::LEN {
            Err(ProgramError::InvalidAccountData)
        } else if !Self::spec_unpack(src).is_initialized {
            Err(ProgramError::UninitializedAccount)
        } else {
            Ok(Self::spec_unpack(src))
        }
    }

    /// The initialized state of `year` with nothing issued yet.
    pub open spec fn spec_fresh(year: u32) -> Self {
        AnnualSupplyState {
            year,
            market_issued: 0,
            data_purchase_issued: 0,
            team_issued: 0,
            is_initialized: true,
        }
    }

    /// The initialized state of `year` with nothing issued yet.
    pub fn fresh(year: u32) -> (s: Self)
        ensures
            s == Self::spec_fresh(year),
    {
        AnnualSupplyState {
            year,
            market_issued: 0,
            data_purchase_issued: 0,
            team_issued: 0,
            is_initialized: true,
        }
    }

    /// Whether the state has been initialized.
    pub fn is_initialized(&self) -> (r: bool)
        ensures
            r == self.is_initialized,
    {
        self.is_initialized
    }

    /// The 29 bytes of this state.
    pub fn pack(&self) -> (out: Vec<u8>)
        ensures
            out@ == self.spec_pack(),
            out@.len() == Self::LEN,
    {
        let mut out: Vec<u8> = Vec::new();
        append_u32(&mut out, self.year);
        append_u64(&mut out, self.market_issued);
        append_u64(&mut out, self.data_purchase_issued);
        append_u64(&mut out, self.team_issued);
        out.push(if self.is_initialized {
            1u8
        } else {
            0u8
        });
        proof {
            lemma_le_bytes_len(self.year, self.market_issued);
            lemma_le_bytes_len(self.year, self.data_purchase_issued);
            lemma_le_bytes_len(self.year, self.team_issued);
            assert(out@ =~= self.spec_pack());
        }
        out
    }

    /// Writes the state into the first 29 bytes of `dst`.
    pub fn pack_into_slice(&self, dst: &mut [u8])
        requires
            old(dst)@.len() >= Self::LEN,
        ensures
            final(dst)@ == splice(old(dst)@, 0, self.spec_pack()),
    {
        let bytes = self.pack();
        write_bytes(dst, 0, bytes.as_slice());
    }

    /// Reads the state from the first 29 bytes of `src`.
    pub fn unpack_from_slice(src: &[u8]) -> (r: Result<Self, ProgramError>)
        requires
            src@.len() >= Self::LEN,
        ensures
            r == Ok::<Self, ProgramError>(Self::spec_unpack(src@)),
    {
        Ok(
            AnnualSupplyState {
                year: read_u32(src, 0),
                market_issued: read_u64(src, 4),
                data_purchase_issued: read_u64(src, 12),
                team_issued: read_u64(src, 20),
                is_initialized: src[28] != 0,
            },
        )
    }

    /// Reads the state from an account's whole data: exactly 29 bytes
    /// holding an initialized state.
    pub fn unpack(src: &[u8]) -> (r: Result<Self, ProgramError>)
        ensures
            r == Self::spec_unpack_account(src@),
    {
        if src.len() != Self::LEN {
            return Err(ProgramError::InvalidAccountData);
        }
        let value = Self::unpack_from_slice(src)?;
        if !value.is_initialized() {
            return Err(ProgramError::UninitializedAccount);
        }
        Ok(value)
    }

    /// Records `amount` more issued tokens of `vesting_type`; fails, with
    /// the state unchanged, where that type's count would overflow.
    pub fn update_issued_amount(&mut self, vesting_type: &VestingType, amount: u64) -> (r: Result<
        (),
        ProgramError,
    >)
        ensures
            old(self).issued_of(*vesting_type) + amount <= u64::MAX ==> r is Ok && *final(self)
                == old(self).with_issued(*vesting_type, amount as int),
            old(self).issued_of(*vesting_type) + amount > u64::MAX ==> r == Err::<
                (),
                ProgramError,
            >(ProgramError::Vesting(VestingError::InvalidAmount)) && *final(self) == *old(self),
    {
        match vesting_type {
            VestingType::Market => {
                match self.market_issued.checked_add(amount) {
                    Some(v) => {
                        self.market_issued = v;
                    },
                    None => {
                        return Err(ProgramError::Vesting(VestingError::InvalidAmount));
                    },
                }
            },
            VestingType::DataPurchase => {
                match self.data_purchase_issued.checked_add(amount) {
                    Some(v) => {
                        self.data_purchase_issued = v;
                    },
                    None => {
                        return Err(ProgramError::Vesting(VestingError::InvalidAmount));
                    },
                }
            },
            VestingType::Team => {
                match self.team_issued.checked_add(amount) {
                    Some(v) => {
                        self.team_issued = v;
                    },
                    None => {
                        return Err(ProgramError::Vesting(VestingError::InvalidAmount));
                    },
                }
            },
        }
        Ok(())
    }

    /// Checks that issuing `amount` more tokens keeps the year within the
    /// yearly total limit. The vesting type plays no part: the limit is
    /// on the year's total.
    pub fn validate_issuance(&self, vesting_type: &VestingType, amount: u64) -> (r: Result<
        (),
        ProgramError,
    >)
        ensures
            r == self.spec_validate_issuance(amount),
    {
        let total_issued = self.get_total_issued()?;
        let new_total = match total_issued.checked_add(amount) {
            Some(t) => t,
            None => {
                return Err(ProgramError::Vesting(VestingError::InvalidAmount));
            },
        };
        if new_total > YEARLY_TOTAL_LIMIT {
            return Err(ProgramError::Vesting(VestingError::ExceedsYearlyLimit));
        }
        Ok(())
    }

    /// Tokens issued in the year over all vesting types, where that total
    /// fits in 64 bits.
    pub fn get_total_issued(&self) -> (r: Result<u64, ProgramError>)
        ensures
            self.total_issued() <= u64::MAX ==> r == Ok::<u64, ProgramError>(
                self.total_issued() as u64,
            ),
            self.total_issued() > u64::MAX ==> r == Err::<u64, ProgramError>(
                ProgramError::Vesting(VestingError::InvalidAmount),
            ),
    {
        let partial = match self.market_issued.checked_add(self.data_purchase_issued) {
            Some(p) => p,
            None => {
                return Err(ProgramError::Vesting(VestingError::InvalidAmount));
            },
        };
        match partial.checked_add(self.team_issued) {
            Some(t) => Ok(t),
            None => Err(ProgramError::Vesting(VestingError::InvalidAmount)),
        }
    }
}

/// Reading a packed state gives the state back.
pub proof fn lemma_annual_supply_unpack_pack(s: AnnualSupplyState)
    ensures
        AnnualSupplyState::spec_unpack(s.spec_pack()) == s,
        s.spec_pack().len() == AnnualSupplyState::LEN,
{
    let p = s.spec_pack();
    let b0 = spec_u32_to_le_bytes(s.year);
    let b1 = spec_u64_to_le_bytes(s.market_issued);
    let b2 = spec_u64_to_le_bytes(s.data_purchase_issued);
    let b3 = spec_u64_to_le_bytes(s.team_issued);
    let f = seq![flag_byte(s.is_initialized)];
    lemma_le_bytes_len(s.year, s.market_issued);
    lemma_le_bytes_len(s.year, s.data_purchase_issued);
    lemma_le_bytes_len(s.year, s.team_issued);
    assert(p =~= Seq::<u8>::empty() + b0 + (b1 + b2 + b3 + f));
    lemma_u32_roundtrip(Seq::<u8>::empty(), s.year, b1 + b2 + b3 + f);
    assert(p =~= b0 + b1 + (b2 + b3 + f));
    lemma_u64_roundtrip(b0, s.market_issued, b2 + b3 + f);
    assert(p =~= (b0 + b1) + b2 + (b3 + f));
    lemma_u64_roundtrip(b0 + b1, s.data_purchase_issued, b3 + f);
    assert(p =~= (b0 + b1 + b2) + b3 + f);
    lemma_u64_roundtrip(b0 + b1 + b2, s.team_issued, f);
}

/// Packing what was read gives back the 29 bytes that were read, where
/// the flag byte is 0 or 1.
pub proof fn lemma_annual_supply_pack_unpack(src: Seq<u8>)
    requires
        src.len() >= AnnualSupplyState::LEN,
        src[28] == 0 || src[28] == 1,
    ensures
        AnnualSupplyState::spec_unpack(src).spec_pack() == src.take(29),
{
    let s = AnnualSupplyState::spec_unpack(src);
    lemma_u32_bytes_of_read(src, 0);
    lemma_u64_bytes_of_read(src, 4);
    lemma_u64_bytes_of_read(src, 12);
    lemma_u64_bytes_of_read(src, 20);
    assert(s.spec_pack() =~= src.take(29));
}

/// A checked issuance, once recorded, keeps the year's total within the
/// yearly limit and raises it by exactly the issued amount.
pub proof fn lemma_validated_issuance_stays_within_limit(
    s: AnnualSupplyState,
    vesting_type: VestingType,
    amount: u64,
)
    requires
        s.spec_validate_issuance(amount) is Ok,
    ensures
        s.issued_of(vesting_type) + amount <= u64::MAX,
        s.with_issued(vesting_type, amount as int).total_issued() == s.total_issued() + amount,
        s.with_issued(vesting_type, amount as int).total_issued() <= YEARLY_TOTAL_LIMIT,
{
}


/// Tokens issued over a list of yearly states.
pub open spec fn issued_over_years(years: Seq<AnnualSupplyState>) -> int
    decreases years.len(),
{
    if years.len() == 0 {
        0
    } else {
        issued_over_years(years.drop_last()) + years.last().total_issued()
    }
}

/// The yearly limits bound the whole supply: over at most the project's
/// five years, with each year within the yearly total limit, at most the
/// theoretical maximum supply is issued.
pub proof fn lemma_yearly_limits_bound_total_supply(years: Seq<AnnualSupplyState>)
    requires
        years.len() <= PROJECT_YEARS,
        forall|i: int| 0 <= i < years.len() ==> #[trigger] years[i].total_issued() <= YEARLY_TOTAL_LIMIT,
    ensures
        issued_over_years(years) <= YEARLY_TOTAL_LIMIT * years.len(),
        issued_over_years(years) <= THEORETICAL_MAX_SUPPLY,
    decreases years.len(),
{
    if years.len() > 0 {
        let init = years.drop_last();
        assert forall|i: int| 0 <= i < init.len() implies #[trigger] init[i].total_issued()
            <= YEARLY_TOTAL_LIMIT by {
            assert(init[i] == years[i]);
        }
        lemma_yearly_limits_bound_total_supply(init);
        assert(years.last() == years[years.len() - 1]);
        assert(YEARLY_TOTAL_LIMIT * years.len() == YEARLY_TOTAL_LIMIT * init.len() + YEARLY_TOTAL_LIMIT)
            by (nonlinear_arith)
            requires
                years.len() == init.len() + 1,
        ;
    }
    assert(YEARLY_TOTAL_LIMIT * years.len() <= YEARLY_TOTAL_LIMIT * 5) by (nonlinear_arith)
        requires
            years.len() <= 5,
    ;
}

} // verus!
