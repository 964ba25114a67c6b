//! Tests of the conversion calculator and of the processor's state
//! machine: authorization, the one-way latch, the staleness policy,
//! the funds check, and the no-partial-commit guarantee.

use usd2sol::convert::calculate_sol_amount;
use usd2sol::error::ProcessError;
use usd2sol::instruction::ExampleInstructions;
use usd2sol::processor::process_instruction;
use usd2sol::processor::Effect;
use usd2sol::processor::PriceSnapshot;
use usd2sol::state::Identity;

fn ident(b: u8) -> Identity {
    Identity { bytes: vec![b; 32] }
}

fn snapshot_at(publish_time: i64) -> PriceSnapshot {
    PriceSnapshot {
        price: 5_000_000_000,
        expo: -8,
        publish_time,
    }
}

fn init_payload() -> Vec<u8> {
    ExampleInstructions::Init {}.try_to_vec()
}

fn convert_payload(usd_qty: i64) -> Vec<u8> {
    ExampleInstructions::Usd2Sol { usd_qty }.try_to_vec()
}

/// A record configured for feed identity 3, as the configure path
/// stores it.
fn configured_record() -> Vec<u8> {
    let mut bytes = vec![1u8];
    bytes.extend_from_slice(&[3u8; 32]);
    bytes
}

#[test]
fn calculator_matches_the_worked_example() {
    // 100 USD at price 5_000_000_000 * 10^-8 = 50.00 per SOL:
    // 100 * 10^18 / 5_000_000_000 = 20_000_000_000 lamports.
    assert_eq!(
        calculate_sol_amount(100, 5_000_000_000, -8),
        Ok(20_000_000_000)
    );
}

#[test]
fn calculator_truncates_toward_zero() {
    assert_eq!(calculate_sol_amount(1, 3_000_000_000, -8), Ok(333_333_333));
    assert_eq!(calculate_sol_amount(-1, 5_000_000_000_000_000_000, -8), Ok(0));
}

#[test]
fn calculator_rejects_exponents_outside_the_power_range() {
    assert_eq!(
        calculate_sol_amount(100, 5_000_000_000, -30),
        Err(ProcessError::ArithmeticOverflow)
    );
    assert_eq!(
        calculate_sol_amount(100, 5_000_000_000, 11),
        Err(ProcessError::ArithmeticOverflow)
    );
    assert_eq!(calculate_sol_amount(100, 5_000_000_000, 10), Ok(0));
}

#[test]
fn calculator_rejects_zero_price() {
    assert_eq!(
        calculate_sol_amount(100, 0, -8),
        Err(ProcessError::ArithmeticOverflow)
    );
}

#[test]
fn calculator_rejects_amounts_beyond_u64() {
    assert_eq!(
        calculate_sol_amount(i64::MAX, 1, 9),
        Err(ProcessError::ArithmeticOverflow)
    );
}

#[test]
fn calculator_rejects_negative_results() {
    assert_eq!(
        calculate_sol_amount(-100, 5_000_000_000, -8),
        Err(ProcessError::NegativeResult)
    );
    assert_eq!(
        calculate_sol_amount(100, -5_000_000_000, -8),
        Err(ProcessError::NegativeResult)
    );
    assert_eq!(
        calculate_sol_amount(i64::MIN, 5_000_000_000, -8),
        Err(ProcessError::NegativeResult)
    );
}

#[test]
fn calculator_keeps_the_sign_rules_of_truncating_division() {
    // Two negative factors give a positive amount.
    assert_eq!(calculate_sol_amount(-1, -1, 10), Ok(1));
    assert_eq!(calculate_sol_amount(-100, -5_000_000_000, -8), Ok(20_000_000_000));
}

#[test]
fn configure_succeeds_once_then_latches() {
    let mut record = vec![0u8; 33];
    let result = process_instruction(
        &ident(1),
        &ident(1),
        true,
        0,
        &mut record,
        &ident(3),
        Some(snapshot_at(1_000)),
        1_000,
        &init_payload(),
    );
    assert_eq!(result, Ok(Effect::Configured));
    assert_eq!(record, configured_record());

    // A second configure fails for every caller; the admin sees the
    // latch.
    let result = process_instruction(
        &ident(1),
        &ident(1),
        true,
        0,
        &mut record,
        &ident(4),
        Some(snapshot_at(1_000)),
        1_000,
        &init_payload(),
    );
    assert_eq!(result, Err(ProcessError::AlreadyInitialized));
    assert_eq!(record, configured_record());
}

#[test]
fn configure_rejects_non_admin_and_unsigned_callers() {
    let mut record = vec![0u8; 33];
    let result = process_instruction(
        &ident(1),
        &ident(2),
        true,
        0,
        &mut record,
        &ident(3),
        Some(snapshot_at(1_000)),
        1_000,
        &init_payload(),
    );
    assert_eq!(result, Err(ProcessError::Unauthorized));
    assert_eq!(record, vec![0u8; 33]);

    let result = process_instruction(
        &ident(1),
        &ident(1),
        false,
        0,
        &mut record,
        &ident(3),
        Some(snapshot_at(1_000)),
        1_000,
        &init_payload(),
    );
    assert_eq!(result, Err(ProcessError::Unauthorized));
    assert_eq!(record, vec![0u8; 33]);
}

#[test]
fn configure_rejects_an_unreadable_feed() {
    let mut record = vec![0u8; 33];
    let result = process_instruction(
        &ident(1),
        &ident(1),
        true,
        0,
        &mut record,
        &ident(3),
        None,
        1_000,
        &init_payload(),
    );
    assert_eq!(result, Err(ProcessError::MalformedFeed));
    assert_eq!(record, vec![0u8; 33]);
}

#[test]
fn convert_requires_configuration() {
    let mut record = vec![0u8; 33];
    let result = process_instruction(
        &ident(1),
        &ident(2),
        true,
        u64::MAX,
        &mut record,
        &ident(3),
        Some(snapshot_at(1_000)),
        1_000,
        &convert_payload(100),
    );
    assert_eq!(result, Err(ProcessError::NotConfigured));
    assert_eq!(record, vec![0u8; 33]);
}

#[test]
fn convert_rejects_a_different_price_source() {
    let mut record = configured_record();
    let result = process_instruction(
        &ident(1),
        &ident(2),
        true,
        u64::MAX,
        &mut record,
        &ident(4),
        Some(snapshot_at(1_000)),
        1_000,
        &convert_payload(100),
    );
    assert_eq!(result, Err(ProcessError::UntrustedSource));
    assert_eq!(record, configured_record());
}

#[test]
fn convert_rejects_an_unreadable_feed() {
    let mut record = configured_record();
    let result = process_instruction(
        &ident(1),
        &ident(2),
        true,
        u64::MAX,
        &mut record,
        &ident(3),
        None,
        1_000,
        &convert_payload(100),
    );
    assert_eq!(result, Err(ProcessError::MalformedFeed));
}

#[test]
fn convert_enforces_the_staleness_bound() {
    let mut record = configured_record();
    let result = process_instruction(
        &ident(1),
        &ident(2),
        true,
        u64::MAX,
        &mut record,
        &ident(3),
        Some(snapshot_at(939)),
        1_000,
        &convert_payload(100),
    );
    assert_eq!(result, Err(ProcessError::StalePrice));
    assert_eq!(record, configured_record());

    // Exactly 60 units old is still fresh.
    let result = process_instruction(
        &ident(1),
        &ident(2),
        true,
        u64::MAX,
        &mut record,
        &ident(3),
        Some(snapshot_at(940)),
        1_000,
        &convert_payload(100),
    );
    assert_eq!(
        result,
        Ok(Effect::Transfer {
            lamports: 20_000_000_000
        })
    );
}

#[test]
fn convert_rejects_a_snapshot_from_the_far_future() {
    let mut record = configured_record();
    let result = process_instruction(
        &ident(1),
        &ident(2),
        true,
        u64::MAX,
        &mut record,
        &ident(3),
        Some(snapshot_at(1_061)),
        1_000,
        &convert_payload(100),
    );
    assert_eq!(result, Err(ProcessError::StalePrice));
}

#[test]
fn configure_then_convert_flows_end_to_end() {
    let mut record = vec![0u8; 33];
    let result = process_instruction(
        &ident(1),
        &ident(1),
        true,
        0,
        &mut record,
        &ident(3),
        Some(snapshot_at(500)),
        500,
        &init_payload(),
    );
    assert_eq!(result, Ok(Effect::Configured));

    let result = process_instruction(
        &ident(1),
        &ident(2),
        true,
        u64::MAX,
        &mut record,
        &ident(3),
        Some(snapshot_at(1_000)),
        1_000,
        &convert_payload(100),
    );
    assert_eq!(
        result,
        Ok(Effect::Transfer {
            lamports: 20_000_000_000
        })
    );
}

#[test]
fn convert_rejects_insufficient_funds_and_commits_nothing() {
    let mut record = configured_record();
    let result = process_instruction(
        &ident(1),
        &ident(2),
        true,
        19_999_999_999,
        &mut record,
        &ident(3),
        Some(snapshot_at(1_000)),
        1_000,
        &convert_payload(100),
    );
    assert_eq!(result, Err(ProcessError::InsufficientFunds));
    assert_eq!(record, configured_record());
}

#[test]
fn convert_transfers_the_computed_amount_at_exact_balance() {
    let mut record = configured_record();
    let result = process_instruction(
        &ident(1),
        &ident(2),
        true,
        20_000_000_000,
        &mut record,
        &ident(3),
        Some(snapshot_at(1_000)),
        1_000,
        &convert_payload(100),
    );
    assert_eq!(
        result,
        Ok(Effect::Transfer {
            lamports: 20_000_000_000
        })
    );
    assert_eq!(record, configured_record());
}

#[test]
fn convert_surfaces_arithmetic_failures() {
    let mut record = configured_record();
    let result = process_instruction(
        &ident(1),
        &ident(2),
        true,
        u64::MAX,
        &mut record,
        &ident(3),
        Some(PriceSnapshot {
            price: 5_000_000_000,
            expo: -30,
            publish_time: 1_000,
        }),
        1_000,
        &convert_payload(100),
    );
    assert_eq!(result, Err(ProcessError::ArithmeticOverflow));

    let result = process_instruction(
        &ident(1),
        &ident(2),
        true,
        u64::MAX,
        &mut record,
        &ident(3),
        Some(snapshot_at(1_000)),
        1_000,
        &convert_payload(-100),
    );
    assert_eq!(result, Err(ProcessError::NegativeResult));
    assert_eq!(record, configured_record());
}

#[test]
fn malformed_payloads_fail_before_anything_else() {
    let mut record = vec![0u8; 33];
    let result = process_instruction(
        &ident(1),
        &ident(1),
        true,
        u64::MAX,
        &mut record,
        &ident(3),
        Some(snapshot_at(1_000)),
        1_000,
        &[2u8],
    );
    assert_eq!(result, Err(ProcessError::DecodeError));
    assert_eq!(record, vec![0u8; 33]);
}

#[test]
fn malformed_record_bytes_fail_to_load() {
    let mut record = vec![0u8; 10];
    let result = process_instruction(
        &ident(1),
        &ident(1),
        true,
        0,
        &mut record,
        &ident(3),
        Some(snapshot_at(1_000)),
        1_000,
        &init_payload(),
    );
    assert_eq!(result, Err(ProcessError::DecodeError));
    assert_eq!(record, vec![0u8; 10]);
}
