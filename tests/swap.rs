use solana_program::program_error::ProgramError;
use solana_program::pubkey::Pubkey;
use token_swap::accounts::{resolve_accounts, Role, SwapAccounts};
use token_swap::error::SwapError;
use token_swap::fee::{compute_fee, taxed_amount};
use token_swap::ledger::{leg_instruction, token_balance};
use token_swap::orchestrator::{Action, Orchestrator};
use token_swap::transfer::{legs_of, plan_transfer, Leg, LegKind};

/// Runs a swap against a scripted ledger: each issued leg takes the next
/// scripted outcome (success once the script runs out). Returns the legs
/// issued and the swap's result.
fn drive(gross: u64, rate: u64, script: Vec<Result<(), ProgramError>>) -> (Vec<Leg>, Result<(), SwapError>) {
    let mut issued = Vec::new();
    let mut orchestrator = match Orchestrator::new(gross, rate) {
        Ok(o) => o,
        Err(e) => return (issued, Err(e)),
    };
    let mut outcomes = script.into_iter();
    let mut action = orchestrator.start();
    loop {
        match action {
            Action::Invoke(leg) => {
                issued.push(leg);
                let outcome = outcomes.next().unwrap_or(Ok(()));
                action = orchestrator.on_outcome(outcome);
            }
            Action::Finish(result) => {
                assert!(orchestrator.is_finished());
                return (issued, result);
            }
        }
    }
}

fn net(amount: u64) -> Leg {
    Leg { kind: LegKind::Net, amount }
}

fn unit() -> Leg {
    Leg { kind: LegKind::Unit, amount: 1 }
}

fn fee(amount: u64) -> Leg {
    Leg { kind: LegKind::Fee, amount }
}

#[test]
fn fee_is_floor_of_percentage() {
    assert_eq!(compute_fee(100, 5), 5);
    assert_eq!(compute_fee(19, 5), 0);
    assert_eq!(compute_fee(20, 5), 1);
    assert_eq!(compute_fee(199, 50), 99);
    assert_eq!(compute_fee(0, 100), 0);
    assert_eq!(compute_fee(7, 0), 0);
}

#[test]
fn fee_at_full_rate_is_whole_amount() {
    assert_eq!(compute_fee(u64::MAX, 100), u64::MAX);
    assert_eq!(taxed_amount(u64::MAX, 100), u64::MAX);
}

#[test]
fn fee_on_largest_balance_does_not_overflow() {
    let expected = ((u64::MAX as u128) * 5 / 100) as u64;
    assert_eq!(compute_fee(u64::MAX, 5), expected);
    assert!(compute_fee(u64::MAX, 5) <= u64::MAX);
}

#[test]
fn fee_never_exceeds_gross() {
    for gross in [0u64, 1, 2, 99, 100, 101, 12345, u64::MAX - 1, u64::MAX] {
        for rate in [0u64, 1, 5, 33, 50, 99, 100] {
            let f = compute_fee(gross, rate);
            assert!(f <= gross);
            assert_eq!(f as u128, (gross as u128) * (rate as u128) / 100);
            assert_eq!(taxed_amount(gross, rate), f);
        }
    }
}

#[test]
fn rate_above_hundred_is_invalid_argument() {
    assert_eq!(plan_transfer(100, 101), Err(SwapError::InvalidArgument));
    assert!(matches!(Orchestrator::new(100, 101), Err(SwapError::InvalidArgument)));
    let (issued, result) = drive(100, 250, vec![]);
    assert!(issued.is_empty());
    assert_eq!(result, Err(SwapError::InvalidArgument));
}

#[test]
fn plan_splits_balance() {
    let intent = plan_transfer(100, 5).unwrap();
    assert_eq!(intent.gross, 100);
    assert_eq!(intent.taxed, 5);
    assert_eq!(intent.net, 95);
    assert_eq!(legs_of(&intent), vec![net(95), unit(), fee(5)]);
}

#[test]
fn hundred_at_five_percent_moves_ninety_five_and_five() {
    let (issued, result) = drive(100, 5, vec![]);
    assert_eq!(issued, vec![net(95), unit(), fee(5)]);
    assert_eq!(result, Ok(()));
}

#[test]
fn zero_balance_skips_fee_leg() {
    let (issued, result) = drive(0, 5, vec![]);
    assert_eq!(issued, vec![net(0), unit()]);
    assert_eq!(result, Ok(()));
}

#[test]
fn zero_rate_skips_fee_leg() {
    let (issued, result) = drive(1000, 0, vec![]);
    assert_eq!(issued, vec![net(1000), unit()]);
    assert_eq!(result, Ok(()));
}

#[test]
fn fee_rounding_to_zero_skips_fee_leg() {
    let (issued, result) = drive(19, 5, vec![]);
    assert_eq!(issued, vec![net(19), unit()]);
    assert_eq!(result, Ok(()));
}

#[test]
fn full_rate_sends_nothing_net() {
    let (issued, result) = drive(40, 100, vec![]);
    assert_eq!(issued, vec![net(0), unit(), fee(40)]);
    assert_eq!(result, Ok(()));
}

#[test]
fn net_leg_failure_stops_swap() {
    let (issued, result) = drive(100, 5, vec![Err(ProgramError::InsufficientFunds)]);
    assert_eq!(issued, vec![net(95)]);
    assert_eq!(result, Err(SwapError::Ledger(ProgramError::InsufficientFunds)));
}

#[test]
fn unit_leg_failure_skips_fee_leg() {
    let (issued, result) = drive(100, 5, vec![Ok(()), Err(ProgramError::Custom(4))]);
    assert_eq!(issued, vec![net(95), unit()]);
    assert_eq!(result, Err(SwapError::Ledger(ProgramError::Custom(4))));
}

#[test]
fn fee_leg_failure_is_passed_on() {
    let (issued, result) = drive(100, 5, vec![Ok(()), Ok(()), Err(ProgramError::AccountBorrowFailed)]);
    assert_eq!(issued, vec![net(95), unit(), fee(5)]);
    assert_eq!(result, Err(SwapError::Ledger(ProgramError::AccountBorrowFailed)));
}

#[test]
fn step_by_step_actions() {
    let mut o = Orchestrator::new(100, 5).unwrap();
    assert!(!o.is_finished());
    assert_eq!(o.intent().net, 95);
    assert_eq!(o.start(), Action::Invoke(net(95)));
    assert_eq!(o.on_outcome(Ok(())), Action::Invoke(unit()));
    assert_eq!(o.on_outcome(Ok(())), Action::Invoke(fee(5)));
    assert_eq!(o.on_outcome(Ok(())), Action::Finish(Ok(())));
    assert!(o.is_finished());
}

#[test]
fn four_accounts_are_missing_one() {
    let accounts = [10u32, 11, 12, 13];
    assert_eq!(resolve_accounts(&accounts), Err(SwapError::AccountMissing));
    let none: [u32; 0] = [];
    assert_eq!(resolve_accounts(&none), Err(SwapError::AccountMissing));
}

#[test]
fn five_accounts_resolve_in_order() {
    let accounts = [10u32, 11, 12, 13, 14, 15];
    let resolved = resolve_accounts(&accounts).unwrap();
    assert_eq!(
        resolved,
        SwapAccounts { source_fungible: 10, dest_fungible: 11, source_unit: 12, dest_unit: 13, fee_sink: 14 }
    );
    assert_eq!(*resolved.account(Role::FeeSink), 14);
    assert_eq!(*resolved.account(Role::SourceUnit), 12);
}

#[test]
fn legs_name_their_accounts() {
    assert_eq!(net(1).source(), Role::SourceFungible);
    assert_eq!(net(1).destination(), Role::DestFungible);
    assert_eq!(unit().source(), Role::SourceUnit);
    assert_eq!(unit().destination(), Role::DestUnit);
    assert_eq!(fee(1).source(), Role::SourceFungible);
    assert_eq!(fee(1).destination(), Role::FeeSink);
}

fn keys() -> SwapAccounts<Pubkey> {
    SwapAccounts {
        source_fungible: Pubkey::new_from_array([1; 32]),
        dest_fungible: Pubkey::new_from_array([2; 32]),
        source_unit: Pubkey::new_from_array([3; 32]),
        dest_unit: Pubkey::new_from_array([4; 32]),
        fee_sink: Pubkey::new_from_array([5; 32]),
    }
}

#[test]
fn net_leg_instruction_carries_amount_and_accounts() {
    let keys = keys();
    let program = Pubkey::new_from_array([9; 32]);
    let ix = leg_instruction(&net(95), &keys, &program).unwrap();
    assert_eq!(ix.program_id, spl_token::id());
    assert_eq!(ix.data, vec![3, 95, 0, 0, 0, 0, 0, 0, 0]);
    let metas: Vec<(Pubkey, bool, bool)> = ix.accounts.iter().map(|m| (m.pubkey, m.is_signer, m.is_writable)).collect();
    assert_eq!(
        metas,
        vec![
            (keys.source_fungible, false, true),
            (keys.dest_fungible, false, true),
            (program, false, false),
            (keys.source_fungible, true, false),
        ]
    );
}

#[test]
fn fee_and_unit_leg_instructions() {
    let keys = keys();
    let program = Pubkey::new_from_array([9; 32]);
    let ix = leg_instruction(&fee(0x0102), &keys, &program).unwrap();
    assert_eq!(ix.data, vec![3, 2, 1, 0, 0, 0, 0, 0, 0]);
    assert_eq!(ix.accounts[0].pubkey, keys.source_fungible);
    assert_eq!(ix.accounts[1].pubkey, keys.fee_sink);
    let ix = leg_instruction(&unit(), &keys, &program).unwrap();
    assert_eq!(ix.data, vec![3, 1, 0, 0, 0, 0, 0, 0, 0]);
    assert_eq!(ix.accounts[0].pubkey, keys.source_unit);
    assert_eq!(ix.accounts[1].pubkey, keys.dest_unit);
    assert_eq!(ix.accounts[3].pubkey, keys.source_unit);
}

fn token_record(amount: u64, state: u8) -> Vec<u8> {
    let mut data = vec![0u8; 165];
    data[64..72].copy_from_slice(&amount.to_le_bytes());
    data[108] = state;
    data
}

#[test]
fn balance_is_read_from_record() {
    assert_eq!(token_balance(&token_record(100, 1)), Ok(100));
    assert_eq!(token_balance(&token_record(0x0102_0304_0506_0708, 2)), Ok(0x0102_0304_0506_0708));
    assert_eq!(token_balance(&token_record(u64::MAX, 1)), Ok(u64::MAX));
}

#[test]
fn malformed_record_is_rejected() {
    assert_eq!(
        token_balance(&vec![0u8; 164]),
        Err(SwapError::Ledger(ProgramError::InvalidAccountData))
    );
    assert_eq!(token_balance(&[]), Err(SwapError::Ledger(ProgramError::InvalidAccountData)));
    assert_eq!(
        token_balance(&token_record(5, 3)),
        Err(SwapError::Ledger(ProgramError::InvalidAccountData))
    );
    let mut bad_tag = token_record(5, 1);
    bad_tag[72] = 2;
    assert_eq!(token_balance(&bad_tag), Err(SwapError::Ledger(ProgramError::InvalidAccountData)));
    assert_eq!(
        token_balance(&token_record(5, 0)),
        Err(SwapError::Ledger(ProgramError::UninitializedAccount))
    );
}

#[test]
fn begin_checks_rate_before_record() {
    assert!(matches!(Orchestrator::begin(&[], 101), Err(SwapError::InvalidArgument)));
    assert!(matches!(
        Orchestrator::begin(&[], 5),
        Err(SwapError::Ledger(ProgramError::InvalidAccountData))
    ));
    let mut o = Orchestrator::begin(&token_record(100, 1), 5).unwrap();
    assert_eq!(o.intent().gross, 100);
    assert_eq!(o.intent().taxed, 5);
    assert_eq!(o.start(), Action::Invoke(net(95)));
}

#[test]
fn exactly_five_accounts_resolve() {
    let accounts = [20u8, 21, 22, 23, 24];
    let resolved = resolve_accounts(&accounts).unwrap();
    assert_eq!(resolved.source_fungible, 20);
    assert_eq!(resolved.dest_unit, 23);
    assert_eq!(resolved.fee_sink, 24);
}
