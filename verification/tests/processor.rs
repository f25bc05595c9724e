use livermore_vesting::annual_supply_state::AnnualSupplyState;
use livermore_vesting::error::{ProgramError, VestingError};
use livermore_vesting::instruction::{VestingType, MONTH_IN_SECONDS, YEAR_IN_SECONDS};
use livermore_vesting::processor::{AccountSnapshot, CreatePlan, Processor};
use livermore_vesting::pubkey::Pubkey;
use livermore_vesting::state::{
    pack_schedules_into_slice, unpack_schedules, VestingSchedule, VestingScheduleHeader,
};
use livermore_vesting::supply_limits::{MARKET_YEARLY_LIMIT, PROJECT_START_TIMESTAMP, YEARLY_TOTAL_LIMIT};
use livermore_vesting::transfer_hook::process_transfer_hook;
use solana_program::program_option::COption;
use solana_program::program_pack::Pack;
use solana_program::pubkey::Pubkey as SolPubkey;
use std::str::FromStr;

fn lib(k: &SolPubkey) -> Pubkey {
    Pubkey::new_from_array(k.to_bytes())
}

fn sol(k: &Pubkey) -> SolPubkey {
    SolPubkey::new_from_array(k.to_bytes())
}

fn key(b: u8) -> Pubkey {
    Pubkey::new_from_array([b; 32])
}

fn acct(key: Pubkey, is_signer: bool, data: Vec<u8>) -> AccountSnapshot {
    AccountSnapshot { key, is_signer, data }
}

fn ata(wallet: &Pubkey, mint: &Pubkey) -> Pubkey {
    lib(&spl_associated_token_account::get_associated_token_address_with_program_id(
        &sol(wallet),
        &sol(mint),
        &spl_token_2022::id(),
    ))
}

fn clock_data(unix_timestamp: i64) -> Vec<u8> {
    let mut d = Vec::new();
    d.extend_from_slice(&7u64.to_le_bytes()); // slot
    d.extend_from_slice(&0i64.to_le_bytes()); // epoch start timestamp
    d.extend_from_slice(&1u64.to_le_bytes()); // epoch
    d.extend_from_slice(&1u64.to_le_bytes()); // leader schedule epoch
    d.extend_from_slice(&unix_timestamp.to_le_bytes());
    d
}

fn token_account_data(mint: &Pubkey, owner: &Pubkey, amount: u64) -> Vec<u8> {
    let a = spl_token_2022::state::Account {
        mint: sol(mint),
        owner: sol(owner),
        amount,
        delegate: COption::None,
        state: spl_token_2022::state::AccountState::Initialized,
        is_native: COption::None,
        delegated_amount: 0,
        close_authority: COption::None,
    };
    let mut d = vec![0u8; spl_token_2022::state::Account::LEN];
    spl_token_2022::state::Account::pack(a, &mut d).unwrap();
    d
}

fn mint_data(decimals: u8) -> Vec<u8> {
    let m = spl_token_2022::state::Mint {
        mint_authority: COption::None,
        supply: 1_000_000,
        decimals,
        is_initialized: true,
        freeze_authority: COption::None,
    };
    let mut d = vec![0u8; spl_token_2022::state::Mint::LEN];
    spl_token_2022::state::Mint::pack(m, &mut d).unwrap();
    d
}

const PROGRAM: u8 = 50;
const OWNER: u8 = 3;
const MINT: u8 = 6;
const DEST: u8 = 5;
const CLIENT_TS: u64 = 1_000;

fn now() -> i64 {
    (PROJECT_START_TIMESTAMP + 100) as i64
}

fn vesting_address() -> (SolPubkey, u8) {
    SolPubkey::find_program_address(
        &[b"vesting", &[DEST; 32], &[MINT; 32], &CLIENT_TS.to_le_bytes()],
        &sol(&key(PROGRAM)),
    )
}

fn supply_address(year: u32) -> (SolPubkey, u8) {
    SolPubkey::find_program_address(&[b"annual_supply", &year.to_le_bytes()], &sol(&key(PROGRAM)))
}

fn create_accounts(balance: u64) -> Vec<AccountSnapshot> {
    let owner = key(OWNER);
    let mint = key(MINT);
    vec![
        acct(lib(&spl_token_2022::id()), false, vec![]),
        acct(lib(&vesting_address().0), false, vec![]),
        acct(key(20), false, vec![1, 2, 3]),
        acct(owner, true, vec![]),
        acct(ata(&owner, &mint), false, token_account_data(&mint, &owner, balance)),
        acct(key(DEST), false, vec![]),
        acct(mint, false, mint_data(6)),
        acct(lib(&solana_program::sysvar::clock::id()), false, clock_data(now())),
        acct(lib(&solana_program::system_program::id()), false, vec![]),
        acct(lib(&spl_associated_token_account::id()), false, vec![]),
        acct(lib(&supply_address(1).0), false, vec![]),
    ]
}

fn begin(accounts: &[AccountSnapshot], t: VestingType, year: u32, start: u64, amount: u64) -> Option<Result<CreatePlan, ProgramError>> {
    Processor::begin_create(&key(PROGRAM), accounts, &key(MINT), &key(DEST), t, year, start, amount, CLIENT_TS)
}

#[test]
fn begin_create_plans_the_vesting_account() {
    let accounts = create_accounts(10_000);
    let start = now() as u64 + 10;
    let plan = begin(&accounts, VestingType::DataPurchase, 1, start, 1001).unwrap().unwrap();
    assert_eq!(plan.project_year, 1);
    assert_eq!(plan.clock_timestamp, now());
    assert_eq!(plan.vesting_account_size, 137 + 2 * 16);
    let (_, bump) = vesting_address();
    let seeds: Vec<Vec<u8>> = vec![
        b"vesting".to_vec(),
        vec![DEST; 32],
        vec![MINT; 32],
        CLIENT_TS.to_le_bytes().to_vec(),
        vec![bump],
    ];
    assert_eq!(plan.vesting_signer_seeds, seeds);
    let header = vesting_header(&accounts);
    assert_eq!(header.destination_address, ata(&key(DEST), &key(MINT)));
    assert_eq!(header.mint_address, key(MINT));
    assert_eq!(header.creator_pubkey, key(OWNER));
    assert_eq!(header.destination_owner, key(DEST));
    assert!(header.is_initialized);
    assert_eq!(header.creation_timestamp, CLIENT_TS);
    assert_eq!(
        plan.schedules,
        vec![
            VestingSchedule { release_time: start + 6 * MONTH_IN_SECONDS, amount: 500 },
            VestingSchedule { release_time: start + YEAR_IN_SECONDS, amount: 501 },
        ]
    );
}

#[test]
fn begin_create_errors() {
    let good = create_accounts(10_000);
    let start = now() as u64 + 10;
    let err = |e: VestingError| Some(Err(ProgramError::Vesting(e)));
    assert_eq!(
        begin(&good[..10], VestingType::Market, 1, start, 5).map(|r| r.map(|_| ())),
        Some(Err(ProgramError::NotEnoughAccountKeys))
    );
    assert_eq!(begin(&good, VestingType::Market, 0, start, 5).map(|r| r.map(|_| ())), err(VestingError::InvalidYear));
    assert_eq!(begin(&good, VestingType::Market, 1, start, 0).map(|r| r.map(|_| ())), err(VestingError::InvalidAmount));
    assert_eq!(begin(&good, VestingType::Market, 6, start, 5).map(|r| r.map(|_| ())), err(VestingError::InvalidYear));
    assert_eq!(
        begin(&good, VestingType::Market, 1, start, MARKET_YEARLY_LIMIT + 1).map(|r| r.map(|_| ())),
        err(VestingError::ExceedsYearlyLimit)
    );
    let mut a = good.clone();
    a[4].key = key(44);
    assert_eq!(begin(&a, VestingType::Market, 1, start, 5).map(|r| r.map(|_| ())), err(VestingError::InvalidInstruction));
    let mut a = good.clone();
    a[5].key = key(45);
    assert_eq!(begin(&a, VestingType::Market, 1, start, 5).map(|r| r.map(|_| ())), err(VestingError::InvalidInstruction));
    let mut a = good.clone();
    a[3].is_signer = false;
    assert_eq!(
        begin(&a, VestingType::Market, 1, start, 5).map(|r| r.map(|_| ())),
        Some(Err(ProgramError::MissingRequiredSignature))
    );
    let mut a = good.clone();
    a[7].key = key(47);
    assert_eq!(
        begin(&a, VestingType::Market, 1, start, 5).map(|r| r.map(|_| ())),
        Some(Err(ProgramError::InvalidArgument))
    );
    let mut a = good.clone();
    a[7].data = clock_data(PROJECT_START_TIMESTAMP as i64 - 1);
    assert_eq!(begin(&a, VestingType::Market, 1, start, 5).map(|r| r.map(|_| ())), err(VestingError::InvalidTime));
    let mut a = good.clone();
    a[8].key = key(48);
    assert_eq!(begin(&a, VestingType::Market, 1, start, 5).map(|r| r.map(|_| ())), err(VestingError::InvalidInstruction));
    let mut a = good.clone();
    a[9].key = key(49);
    assert_eq!(begin(&a, VestingType::Market, 1, start, 5).map(|r| r.map(|_| ())), err(VestingError::InvalidInstruction));
    let mut a = good.clone();
    a[1].key = key(41);
    assert_eq!(begin(&a, VestingType::Market, 1, start, 5).map(|r| r.map(|_| ())), err(VestingError::InvalidInstruction));
    let mut a = good.clone();
    a[1].data = vec![0];
    assert_eq!(begin(&a, VestingType::Market, 1, start, 5).map(|r| r.map(|_| ())), err(VestingError::InvalidInstruction));
    // a release time past u64::MAX: the program aborts
    assert!(begin(&good, VestingType::Team, 1, u64::MAX - 1, 5).is_none());
}

#[test]
fn create_transfer_moves_the_amount() {
    let accounts = create_accounts(10_000);
    let ix = Processor::prepare_create_transfer(&accounts, &key(MINT), now() as u64, 10_000, now()).unwrap();
    let expected = spl_token_2022::instruction::transfer_checked(
        &spl_token_2022::id(),
        &sol(&accounts[4].key),
        &sol(&key(MINT)),
        &sol(&key(20)),
        &sol(&key(OWNER)),
        &[],
        10_000,
        6,
    )
    .unwrap();
    assert_eq!(sol(&ix.program_id), expected.program_id);
    assert_eq!(ix.data, expected.data);
    assert_eq!(ix.data[0], 12);
    let got: Vec<_> = ix.accounts.iter().map(|m| (sol(&m.pubkey), m.is_signer, m.is_writable)).collect();
    let want: Vec<_> = expected.accounts.iter().map(|m| (m.pubkey, m.is_signer, m.is_writable)).collect();
    assert_eq!(got, want);
}

#[test]
fn create_transfer_errors() {
    let good = create_accounts(10_000);
    let t = now();
    let err = |e: VestingError| Err(ProgramError::Vesting(e));
    let run = |a: &[AccountSnapshot], start: u64, amount: u64| {
        Processor::prepare_create_transfer(a, &key(MINT), start, amount, t).map(|_| ())
    };
    assert_eq!(run(&good, t as u64, 10_001), err(VestingError::InvalidAmount));
    let mut a = good.clone();
    a[4].data = vec![1, 2, 3];
    assert!(matches!(run(&a, t as u64, 1), Err(ProgramError::Outside(_))));
    let mut a = good.clone();
    a[2].data = vec![];
    assert_eq!(run(&a, t as u64, 1), err(VestingError::InvalidInstruction));
    let mut a = good.clone();
    a[6].key = key(46);
    assert_eq!(run(&a, t as u64, 1), err(VestingError::InvalidInstruction));
    assert_eq!(run(&good, t as u64 - 1, 1), err(VestingError::InvalidTime));
    let mut a = good.clone();
    a[6].data = mint_data(9);
    assert_eq!(run(&a, t as u64, 1), err(VestingError::InvalidInstruction));
    let mut a = good.clone();
    a[0].key = key(40);
    assert_eq!(run(&a, t as u64, 1), Err(ProgramError::IncorrectProgramId));
}

#[test]
fn annual_supply_account_is_created_once() {
    let accounts = create_accounts(1);
    let plan = Processor::prepare_annual_supply(&key(PROGRAM), &accounts, 1).unwrap().unwrap();
    let (_, bump) = supply_address(1);
    assert_eq!(
        plan.create_signer_seeds,
        Some(vec![b"annual_supply".to_vec(), 1u32.to_le_bytes().to_vec(), vec![bump]])
    );
    assert_eq!(plan.initial_state, AnnualSupplyState::fresh(1));
    let mut a = accounts.clone();
    a[10].data = AnnualSupplyState::fresh(1).pack();
    let plan = Processor::prepare_annual_supply(&key(PROGRAM), &a, 1).unwrap().unwrap();
    assert_eq!(plan.create_signer_seeds, None);
    assert_eq!(
        Processor::prepare_annual_supply(&key(PROGRAM), &a, 2).map(|r| r.map(|_| ())),
        Some(Err(ProgramError::Vesting(VestingError::InvalidInstruction)))
    );
}

#[test]
fn record_issuance_keeps_the_yearly_limit() {
    let mut data = AnnualSupplyState::fresh(1).pack();
    let s = Processor::record_issuance(&data, 1, VestingType::Market, 40).unwrap();
    assert_eq!(s.market_issued, 40);
    data = s.pack();
    let s = Processor::record_issuance(&data, 1, VestingType::Team, YEARLY_TOTAL_LIMIT - 40).unwrap();
    assert_eq!(s.get_total_issued(), Ok(YEARLY_TOTAL_LIMIT));
    data = s.pack();
    assert_eq!(
        Processor::record_issuance(&data, 1, VestingType::DataPurchase, 1),
        Err(ProgramError::Vesting(VestingError::ExceedsYearlyLimit))
    );
    // a new project year starts from zero
    let s = Processor::record_issuance(&data, 2, VestingType::DataPurchase, 1).unwrap();
    assert_eq!(s, AnnualSupplyState { year: 2, market_issued: 0, data_purchase_issued: 1, team_issued: 0, is_initialized: true });
    assert_eq!(Processor::record_issuance(&data[..28], 1, VestingType::Market, 1), Err(ProgramError::InvalidAccountData));
    let mut uninit = data.clone();
    uninit[28] = 0;
    assert_eq!(Processor::record_issuance(&uninit, 1, VestingType::Market, 1), Err(ProgramError::UninitializedAccount));
}

fn vesting_header(accounts: &[AccountSnapshot]) -> VestingScheduleHeader {
    Processor::prepare_vesting_header(accounts, &key(MINT), &key(DEST), CLIENT_TS).unwrap()
}

fn vesting_account_data(plan: &CreatePlan) -> Vec<u8> {
    let mut data = vec![0u8; plan.vesting_account_size as usize];
    vesting_header(&create_accounts(0)).pack_into_slice(&mut data[..VestingScheduleHeader::LEN]);
    pack_schedules_into_slice(plan.schedules.clone(), &mut data[VestingScheduleHeader::LEN..]).unwrap();
    data
}

fn unlock_accounts(vesting_data: Vec<u8>, signer: Pubkey, clock: i64) -> Vec<AccountSnapshot> {
    let vesting = lib(&vesting_address().0);
    vec![
        acct(lib(&spl_token_2022::id()), false, vec![]),
        acct(lib(&solana_program::sysvar::clock::id()), false, clock_data(clock)),
        acct(vesting, false, vesting_data),
        acct(ata(&vesting, &key(MINT)), false, vec![]),
        acct(ata(&key(DEST), &key(MINT)), false, vec![]),
        acct(signer, true, vec![]),
        acct(key(MINT), false, mint_data(6)),
    ]
}

#[test]
fn unlock_releases_due_schedules_once() {
    let accounts = create_accounts(10_000);
    let start = now() as u64 + 10;
    let plan = begin(&accounts, VestingType::DataPurchase, 1, start, 1001).unwrap().unwrap();
    let data = vesting_account_data(&plan);
    let vesting = lib(&vesting_address().0);
    let dest = ata(&key(DEST), &key(MINT));
    let unlock = |data: Vec<u8>, signer: Pubkey, t: u64| {
        let a = unlock_accounts(data, signer, t as i64);
        Processor::process_unlock(&key(PROGRAM), &a, &vesting, &dest)
    };
    // nothing due before six months
    let p = unlock(data.clone(), key(DEST), start + 6 * MONTH_IN_SECONDS - 1).unwrap().unwrap();
    assert_eq!(p.released, 0);
    assert!(p.transfer.is_none());
    // the first half after six months, by the destination owner
    let p = unlock(data.clone(), key(DEST), start + 6 * MONTH_IN_SECONDS).unwrap().unwrap();
    assert_eq!(p.released, 500);
    let ix = p.transfer.clone().unwrap();
    assert_eq!(&ix.data[1..9], &500u64.to_le_bytes());
    assert_eq!(ix.data[9], 6);
    assert_eq!(ix.accounts[3].pubkey, vesting);
    assert!(ix.accounts[3].is_signer);
    assert_eq!(p.signer_seeds, plan.vesting_signer_seeds);
    let mut data2 = data.clone();
    pack_schedules_into_slice(p.schedules.clone(), &mut data2[VestingScheduleHeader::LEN..]).unwrap();
    assert_eq!(
        unpack_schedules(&data2[VestingScheduleHeader::LEN..]).unwrap(),
        vec![
            VestingSchedule { release_time: start + 6 * MONTH_IN_SECONDS, amount: 0 },
            VestingSchedule { release_time: start + YEAR_IN_SECONDS, amount: 501 },
        ]
    );
    // a second unlock at the same time releases nothing
    let p = unlock(data2.clone(), key(DEST), start + 6 * MONTH_IN_SECONDS).unwrap().unwrap();
    assert_eq!(p.released, 0);
    // the rest after a year, by the creator
    let p = unlock(data2.clone(), key(OWNER), start + YEAR_IN_SECONDS).unwrap().unwrap();
    assert_eq!(p.released, 501);
    // all at once when unlocked late for the first time
    let p = unlock(data.clone(), key(OWNER), start + 2 * YEAR_IN_SECONDS).unwrap().unwrap();
    assert_eq!(p.released, 1001);
}

#[test]
fn unlock_errors() {
    let accounts = create_accounts(10_000);
    let start = now() as u64 + 10;
    let plan = begin(&accounts, VestingType::Market, 1, start, 7).unwrap().unwrap();
    let data = vesting_account_data(&plan);
    let vesting = lib(&vesting_address().0);
    let dest = ata(&key(DEST), &key(MINT));
    let t = (start + MONTH_IN_SECONDS) as i64;
    let run = |a: &[AccountSnapshot], va: &Pubkey, d: &Pubkey| {
        Processor::process_unlock(&key(PROGRAM), a, va, d).map(|r| r.map(|p| p.released))
    };
    let good = unlock_accounts(data.clone(), key(DEST), t);
    assert_eq!(run(&good, &vesting, &dest), Some(Ok(7)));
    let err = |e: VestingError| Some(Err(ProgramError::Vesting(e)));
    assert_eq!(run(&good[..6], &vesting, &dest), Some(Err(ProgramError::NotEnoughAccountKeys)));
    assert_eq!(run(&good, &key(9), &dest), err(VestingError::InvalidInstruction));
    assert_eq!(run(&good, &vesting, &key(9)), err(VestingError::InvalidInstruction));
    let mut a = good.clone();
    a[2].data.truncate(136);
    assert_eq!(run(&a, &vesting, &dest), None);
    let mut a = good.clone();
    a[2].data[128] = 0;
    assert_eq!(run(&a, &vesting, &dest), Some(Err(ProgramError::UninitializedAccount)));
    let mut a = good.clone();
    a[5].is_signer = false;
    assert_eq!(run(&a, &vesting, &dest), Some(Err(ProgramError::MissingRequiredSignature)));
    let mut a = good.clone();
    a[5].key = key(99);
    assert_eq!(run(&a, &vesting, &dest), err(VestingError::InvalidInstruction));
    let mut a = good.clone();
    a[3].key = key(98);
    assert_eq!(run(&a, &vesting, &dest), err(VestingError::InvalidInstruction));
    let mut a = good.clone();
    a[6].key = key(97);
    assert_eq!(run(&a, &vesting, &dest), err(VestingError::InvalidInstruction));
    let mut a = good.clone();
    a[6].data.truncate(44);
    assert_eq!(run(&a, &vesting, &dest), err(VestingError::InvalidInstruction));
    let mut a = good.clone();
    a[1].key = key(96);
    assert_eq!(run(&a, &vesting, &dest), Some(Err(ProgramError::InvalidArgument)));
    let mut a = good.clone();
    a[2].data.push(0);
    assert_eq!(run(&a, &vesting, &dest), Some(Err(ProgramError::InvalidAccountData)));
    let mut a = good.clone();
    a[0].key = key(95);
    a[3].key = lib(&spl_associated_token_account::get_associated_token_address_with_program_id(
        &vesting_address().0,
        &sol(&key(MINT)),
        &sol(&key(95)),
    ));
    assert_eq!(run(&a, &vesting, &dest), Some(Err(ProgramError::IncorrectProgramId)));
    // two schedules whose sum overflows
    let mut big = data.clone();
    let two = vec![
        VestingSchedule { release_time: 0, amount: u64::MAX },
        VestingSchedule { release_time: 0, amount: 1 },
    ];
    big.truncate(VestingScheduleHeader::LEN);
    big.extend_from_slice(&[0u8; 32]);
    pack_schedules_into_slice(two, &mut big[VestingScheduleHeader::LEN..]).unwrap();
    let a = unlock_accounts(big, key(DEST), t);
    assert_eq!(run(&a, &vesting, &dest), err(VestingError::InvalidAmount));
}

fn stored(data: &[u8], schedules: &[VestingSchedule]) -> Vec<u8> {
    let mut out = data.to_vec();
    pack_schedules_into_slice(schedules.to_vec(), &mut out[VestingScheduleHeader::LEN..]).unwrap();
    out
}

fn remaining(data: &[u8]) -> u64 {
    unpack_schedules(&data[VestingScheduleHeader::LEN..]).unwrap().iter().map(|s| s.amount).sum()
}

#[test]
fn later_unlock_releases_what_fell_due_since() {
    let accounts = create_accounts(10_000);
    let start = now() as u64 + 10;
    let plan = begin(&accounts, VestingType::DataPurchase, 1, start, 1001).unwrap().unwrap();
    let data = vesting_account_data(&plan);
    let vesting = lib(&vesting_address().0);
    let dest = ata(&key(DEST), &key(MINT));
    let unlock = |data: &[u8], t: u64| {
        let a = unlock_accounts(data.to_vec(), key(DEST), t as i64);
        Processor::process_unlock(&key(PROGRAM), &a, &vesting, &dest).unwrap().unwrap()
    };
    // an unlock before the first release time, then one after both
    let t1 = start + 6 * MONTH_IN_SECONDS - 1;
    let p1 = unlock(&data, t1);
    assert_eq!(p1.released, 0);
    let data1 = stored(&data, &p1.schedules);
    assert_eq!(data1, data);
    let p2 = unlock(&data1, start + YEAR_IN_SECONDS);
    assert_eq!(p2.released, 1001);
    // an unlock between the two release times, then one after the second
    let p1 = unlock(&data, start + 7 * MONTH_IN_SECONDS);
    assert_eq!(p1.released, 500);
    let data1 = stored(&data, &p1.schedules);
    let p2 = unlock(&data1, start + YEAR_IN_SECONDS + 5);
    assert_eq!(p2.released, 501);
    let data2 = stored(&data1, &p2.schedules);
    // at the same time again: nothing, no transfer, the same data
    let p3 = unlock(&data2, start + YEAR_IN_SECONDS + 5);
    assert_eq!(p3.released, 0);
    assert!(p3.transfer.is_none());
    assert_eq!(stored(&data2, &p3.schedules), data2);
}

#[test]
fn unlocks_from_creation_conserve_amount() {
    let accounts = create_accounts(10_000);
    let start = now() as u64 + 10;
    let plan = begin(&accounts, VestingType::DataPurchase, 1, start, 1001).unwrap().unwrap();
    let created = vesting_account_data(&plan);
    assert_eq!(remaining(&created), 1001);
    let vesting = lib(&vesting_address().0);
    let dest = ata(&key(DEST), &key(MINT));
    let times = [
        start,
        start + 6 * MONTH_IN_SECONDS,
        start + 6 * MONTH_IN_SECONDS,
        start + 8 * MONTH_IN_SECONDS,
        start + YEAR_IN_SECONDS,
        start + 2 * YEAR_IN_SECONDS,
    ];
    let mut data = created.clone();
    let mut released_total: u64 = 0;
    for t in times {
        let a = unlock_accounts(data.clone(), key(OWNER), t as i64);
        let p = Processor::process_unlock(&key(PROGRAM), &a, &vesting, &dest).unwrap().unwrap();
        released_total += p.released;
        let next = stored(&data, &p.schedules);
        assert_eq!(next.len(), created.len());
        assert_eq!(&next[..VestingScheduleHeader::LEN], &created[..VestingScheduleHeader::LEN]);
        assert_eq!(remaining(&next) + released_total, 1001);
        data = next;
    }
    assert_eq!(released_total, 1001);
    assert_eq!(remaining(&data), 0);
    let last = unpack_schedules(&data[VestingScheduleHeader::LEN..]).unwrap();
    assert_eq!(last[0].release_time, start + 6 * MONTH_IN_SECONDS);
    assert_eq!(last[1].release_time, start + YEAR_IN_SECONDS);
}

#[test]
fn unlock_accepts_the_first_token_program() {
    let accounts = create_accounts(10_000);
    let start = now() as u64 + 10;
    let plan = begin(&accounts, VestingType::Market, 1, start, 7).unwrap().unwrap();
    let data = vesting_account_data(&plan);
    let vesting = lib(&vesting_address().0);
    let dest = ata(&key(DEST), &key(MINT));
    let token = SolPubkey::from_str("TokenkegQfeZyiNwAJbNbGKPFXCWuBvf9Ss623VQ5DA").unwrap();
    let mut a = unlock_accounts(data, key(DEST), (start + MONTH_IN_SECONDS) as i64);
    a[0].key = lib(&token);
    a[3].key = lib(&spl_associated_token_account::get_associated_token_address_with_program_id(
        &vesting_address().0,
        &sol(&key(MINT)),
        &token,
    ));
    let p = Processor::process_unlock(&key(PROGRAM), &a, &vesting, &dest).unwrap().unwrap();
    assert_eq!(p.released, 7);
    assert_eq!(p.transfer.unwrap().program_id, lib(&token));
}

#[test]
fn transfer_hook_allows_everything() {
    assert_eq!(process_transfer_hook(&key(1), &[]), Ok(()));
}
