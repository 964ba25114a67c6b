//! The instruction processor: the decision logic of both operations.
//!
//! The processor works on plain values. Its surroundings supply the
//! caller's identity and signature flag, the caller's balance, the
//! configuration buffer's bytes, the price-source identity, the
//! decoded price snapshot (or none, when the feed cannot be read),
//! and the clock; the processor decides the outcome and, on the
//! conversion path, the amount to transfer. Its caller performs the
//! transfer itself and persists nothing on failure.

use vstd::prelude::*;

use crate::convert::calculate_sol_amount;
use crate::convert::spec_calculate;
use crate::error::ProcessError;
use crate::instruction::spec_decode;
use crate::instruction::ExampleInstructions;
use crate::state::spec_load;
use crate::state::spec_store;
use crate::state::AdminConfig;
use crate::state::Identity;

verus! {

/// The price a feed published — one unit of the quote currency is
/// worth `price * 10^expo` of the base currency — and the time of
/// publication, in clock units.
#[derive(Clone, Copy, Debug, PartialEq, Eq, Structural)]
pub struct PriceSnapshot {
    pub price: i64,
    pub expo: i32,
    pub publish_time: i64,
}

/// The externally observable effect of a successful invocation:
/// either the record was configured, or a transfer of `lamports`
/// from the caller to the destination is to be carried out.
#[derive(Clone, Copy, Debug, PartialEq, Eq, Structural)]
pub enum Effect {
    Configured,
    Transfer { lamports: u64 },
}

/// The maximum age, in clock units, a price snapshot may have before
/// it is rejected. A policy constant, not user-configurable.
pub const STALENESS_BOUND: i64 = 60;

/// A snapshot is fresh when its publish time is within the staleness
/// bound of the clock, in either direction.
pub open spec fn is_fresh(now: int, publish_time: int) -> bool {
    -STALENESS_BOUND <= now - publish_time <= STALENESS_BOUND
}

/// The outcome of one invocation, for every combination of inputs:
/// which effect it has, or exactly which error it fails with.
pub open spec fn spec_process(
    program_id: Seq<u8>,
    signer_key: Seq<u8>,
    signer_is_signer: bool,
    signer_lamports: u64,
    config_bytes: Seq<u8>,
    price_feed_key: Seq<u8>,
    feed: Option<PriceSnapshot>,
    now: int,
    input: Seq<u8>,
) -> Result<Effect, ProcessError> {
    match spec_decode(input) {
        Err(e) => Err(e),
        Ok(ExampleInstructions::Init {  }) => {
            if !(signer_key == program_id && signer_is_signer) {
                Err(ProcessError::Unauthorized)
            } else {
                match spec_load(config_bytes) {
                    Err(e) => Err(e),
                    Ok((is_initialized, _)) => {
                        if is_initialized {
                            Err(ProcessError::AlreadyInitialized)
                        } else if feed is None {
                            Err(ProcessError::MalformedFeed)
                        } else {
                            Ok(Effect::Configured)
                        }
                    },
                }
            }
        },
        Ok(ExampleInstructions::Usd2Sol { usd_qty }) => {
            match spec_load(config_bytes) {
                Err(e) => Err(e),
                Ok((is_initialized, feed_id)) => {
                    if !is_initialized {
                        Err(ProcessError::NotConfigured)
                    } else if feed_id != price_feed_key {
                        Err(ProcessError::UntrustedSource)
                    } else {
                        match feed {
                            None => Err(ProcessError::MalformedFeed),
                            Some(snapshot) => {
                                if !is_fresh(now, snapshot.publish_time as int) {
                                    Err(ProcessError::StalePrice)
                                } else {
                                    match spec_calculate(
                                        usd_qty as int,
                                        snapshot.price as int,
                                        snapshot.expo as int,
                                    ) {
                                        Err(e) => Err(e),
                                        Ok(lamports) => {
                                            if signer_lamports < lamports {
                                                Err(ProcessError::InsufficientFunds)
                                            } else {
                                                Ok(Effect::Transfer { lamports })
                                            }
                                        },
                                    }
                                }
                            },
                        }
                    }
                },
            }
        },
    }
}

/// The configuration buffer's bytes after one invocation: rewritten
/// at the single success point of the configure path, untouched
/// everywhere else.
pub open spec fn spec_config_after(
    program_id: Seq<u8>,
    signer_key: Seq<u8>,
    signer_is_signer: bool,
    signer_lamports: u64,
    config_bytes: Seq<u8>,
    price_feed_key: Seq<u8>,
    feed: Option<PriceSnapshot>,
    now: int,
    input: Seq<u8>,
) -> Seq<u8> {
    if spec_process(
        program_id,
        signer_key,
        signer_is_signer,
        signer_lamports,
        config_bytes,
        price_feed_key,
        feed,
        now,
        input,
    ) == Ok::<Effect, ProcessError>(Effect::Configured) {
        spec_store(true, price_feed_key) + config_bytes.skip(33)
    } else {
        config_bytes
    }
}

/// Run one instruction against the configuration buffer.
///
/// `feed` is the price snapshot the surroundings decoded from the
/// price-source account, or `None` when that account cannot be read
/// as a valid feed; `now` is the clock. On `Ok(Effect::Transfer { .. })`
/// the caller owes the ledger a transfer of exactly that amount from
/// the signer to the destination; nothing else is to be done.
pub fn process_instruction(
    program_id: &Identity,
    signer_key: &Identity,
    signer_is_signer: bool,
    signer_lamports: u64,
    config_data: &mut Vec<u8>,
    price_feed_key: &Identity,
    feed: Option<PriceSnapshot>,
    now: i64,
    input: &[u8],
) -> (r: Result<Effect, ProcessError>)
    requires
        price_feed_key.wf(),
    ensures
        r == spec_process(
            program_id@,
            signer_key@,
            signer_is_signer,
            signer_lamports,
            old(config_data)@,
            price_feed_key@,
            feed,
            now as int,
            input@,
        ),
        final(config_data)@ == spec_config_after(
            program_id@,
            signer_key@,
            signer_is_signer,
            signer_lamports,
            old(config_data)@,
            price_feed_key@,
            feed,
            now as int,
            input@,
        ),
        r is Err ==> final(config_data)@ == old(config_data)@,
{
    let instruction = match ExampleInstructions::try_from_slice(input) {
        Ok(instruction) => instruction,
        Err(e) => {
            return Err(e);
        },
    };
    match instruction {
        ExampleInstructions::Init {  } => {
            if !(signer_key.same_as(program_id) && signer_is_signer) {
                return Err(ProcessError::Unauthorized);
            }
            let config = match AdminConfig::try_from_slice(config_data.as_slice()) {
                Ok(config) => config,
                Err(e) => {
                    return Err(e);
                },
            };
            if config.is_initialized {
                return Err(ProcessError::AlreadyInitialized);
            }
            if feed.is_none() {
                return Err(ProcessError::MalformedFeed);
            }
            let new_config = AdminConfig {
                is_initialized: true,
                sol_price_feed_id: price_feed_key.duplicate(),
            };
            new_config.store(config_data);
            Ok(Effect::Configured)
        },
        ExampleInstructions::Usd2Sol { usd_qty } => {
            let config = match AdminConfig::try_from_slice(config_data.as_slice()) {
                Ok(config) => config,
                Err(e) => {
                    return Err(e);
                },
            };
            if !config.is_initialized {
                return Err(ProcessError::NotConfigured);
            }
            if !config.sol_price_feed_id.same_as(price_feed_key) {
                return Err(ProcessError::UntrustedSource);
            }
            let snapshot = match feed {
                Some(snapshot) => snapshot,
                None => {
                    return Err(ProcessError::MalformedFeed);
                },
            };
            let age: i128 = (now as i128) - (snapshot.publish_time as i128);
            if age > STALENESS_BOUND as i128 || age < -(STALENESS_BOUND as i128) {
                return Err(ProcessError::StalePrice);
            }
            let lamports = match calculate_sol_amount(usd_qty, snapshot.price, snapshot.expo) {
                Ok(lamports) => lamports,
                Err(e) => {
                    return Err(e);
                },
            };
            if signer_lamports < lamports {
                return Err(ProcessError::InsufficientFunds);
            }
            Ok(Effect::Transfer { lamports })
        },
    }
}

/// Law: a fresh record is configured by the first well-formed
/// attempt. A configure payload, the program's own authority as a
/// signed caller, a record whose latch is still down, and a readable
/// feed succeed, whatever the balance, clock or snapshot say.
pub proof fn lemma_configure_fresh_succeeds(
    program_id: Seq<u8>,
    signer_key: Seq<u8>,
    signer_is_signer: bool,
    signer_lamports: u64,
    config_bytes: Seq<u8>,
    price_feed_key: Seq<u8>,
    feed: Option<PriceSnapshot>,
    now: int,
    input: Seq<u8>,
)
    requires
        price_feed_key.len() == 32,
        spec_decode(input) == Ok::<ExampleInstructions, ProcessError>(
            ExampleInstructions::Init {  },
        ),
        signer_key == program_id,
        signer_is_signer,
        spec_load(config_bytes) is Ok,
        !spec_load(config_bytes)->Ok_0.0,
        feed is Some,
    ensures
        spec_process(
            program_id,
            signer_key,
            signer_is_signer,
            signer_lamports,
            config_bytes,
            price_feed_key,
            feed,
            now,
            input,
        ) == Ok::<Effect, ProcessError>(Effect::Configured),
        spec_load(
            spec_config_after(
                program_id,
                signer_key,
                signer_is_signer,
                signer_lamports,
                config_bytes,
                price_feed_key,
                feed,
                now,
                input,
            ),
        ) == Ok::<(bool, Seq<u8>), ProcessError>((true, price_feed_key)),
{
    let after = spec_config_after(
        program_id,
        signer_key,
        signer_is_signer,
        signer_lamports,
        config_bytes,
        price_feed_key,
        feed,
        now,
        input,
    );
    assert(config_bytes.skip(33) =~= Seq::<u8>::empty());
    assert(after =~= seq![1u8] + price_feed_key);
    assert(after.subrange(1, 33) =~= price_feed_key);
}

/// Law: configuring succeeds at most once per record. After a
/// successful configure, a second configure on the stored record
/// never succeeds, whoever calls; with the admin's signed identity it
/// fails with `AlreadyInitialized` (a non-admin caller is turned away
/// as `Unauthorized` before the latch is even consulted).
pub proof fn lemma_configure_only_once(
    program_id: Seq<u8>,
    signer_key: Seq<u8>,
    signer_is_signer: bool,
    signer_lamports: u64,
    config_bytes: Seq<u8>,
    price_feed_key: Seq<u8>,
    feed: Option<PriceSnapshot>,
    now: int,
    input: Seq<u8>,
    signer_key2: Seq<u8>,
    signer_is_signer2: bool,
    signer_lamports2: u64,
    price_feed_key2: Seq<u8>,
    feed2: Option<PriceSnapshot>,
    now2: int,
    input2: Seq<u8>,
)
    requires
        price_feed_key.len() == 32,
        spec_process(
            program_id,
            signer_key,
            signer_is_signer,
            signer_lamports,
            config_bytes,
            price_feed_key,
            feed,
            now,
            input,
        ) == Ok::<Effect, ProcessError>(Effect::Configured),
        spec_decode(input2) == Ok::<ExampleInstructions, ProcessError>(
            ExampleInstructions::Init {  },
        ),
    ensures
        spec_process(
            program_id,
            signer_key2,
            signer_is_signer2,
            signer_lamports2,
            spec_config_after(
                program_id,
                signer_key,
                signer_is_signer,
                signer_lamports,
                config_bytes,
                price_feed_key,
                feed,
                now,
                input,
            ),
            price_feed_key2,
            feed2,
            now2,
            input2,
        ) is Err,
        signer_key2 == program_id && signer_is_signer2 ==> spec_process(
            program_id,
            signer_key2,
            signer_is_signer2,
            signer_lamports2,
            spec_config_after(
                program_id,
                signer_key,
                signer_is_signer,
                signer_lamports,
                config_bytes,
                price_feed_key,
                feed,
                now,
                input,
            ),
            price_feed_key2,
            feed2,
            now2,
            input2,
        ) == Err::<Effect, ProcessError>(ProcessError::AlreadyInitialized),
{
    let after = spec_config_after(
        program_id,
        signer_key,
        signer_is_signer,
        signer_lamports,
        config_bytes,
        price_feed_key,
        feed,
        now,
        input,
    );
    assert(config_bytes.skip(33) =~= Seq::<u8>::empty());
    assert(after =~= seq![1u8] + price_feed_key);
    assert(after.len() == 33 && after[0] == 1);
}

/// Law: the admin gate is non-delegable. A configure attempted by
/// any identity other than the program's authority, or without a
/// signature, fails with `Unauthorized` and leaves the record's bytes
/// exactly as they were.
pub proof fn lemma_configure_non_admin_rejected(
    program_id: Seq<u8>,
    signer_key: Seq<u8>,
    signer_is_signer: bool,
    signer_lamports: u64,
    config_bytes: Seq<u8>,
    price_feed_key: Seq<u8>,
    feed: Option<PriceSnapshot>,
    now: int,
    input: Seq<u8>,
)
    requires
        spec_decode(input) == Ok::<ExampleInstructions, ProcessError>(
            ExampleInstructions::Init {  },
        ),
        !(signer_key == program_id && signer_is_signer),
    ensures
        spec_process(
            program_id,
            signer_key,
            signer_is_signer,
            signer_lamports,
            config_bytes,
            price_feed_key,
            feed,
            now,
            input,
        ) == Err::<Effect, ProcessError>(ProcessError::Unauthorized),
        spec_config_after(
            program_id,
            signer_key,
            signer_is_signer,
            signer_lamports,
            config_bytes,
            price_feed_key,
            feed,
            now,
            input,
        ) == config_bytes,
{
}

/// Law: conversion needs configuration. A convert payload against a
/// record whose latch is still down fails with `NotConfigured`.
pub proof fn lemma_convert_unconfigured_rejected(
    program_id: Seq<u8>,
    signer_key: Seq<u8>,
    signer_is_signer: bool,
    signer_lamports: u64,
    config_bytes: Seq<u8>,
    price_feed_key: Seq<u8>,
    feed: Option<PriceSnapshot>,
    now: int,
    input: Seq<u8>,
)
    requires
        spec_decode(input) is Ok,
        spec_decode(input)->Ok_0 is Usd2Sol,
        spec_load(config_bytes) is Ok,
        !spec_load(config_bytes)->Ok_0.0,
    ensures
        spec_process(
            program_id,
            signer_key,
            signer_is_signer,
            signer_lamports,
            config_bytes,
            price_feed_key,
            feed,
            now,
            input,
        ) == Err::<Effect, ProcessError>(ProcessError::NotConfigured),
{
}

/// Law: only the configured source is consulted. A convert whose
/// price-source identity differs from the configured one fails with
/// `UntrustedSource`, before the feed, the clock or any arithmetic is
/// looked at.
pub proof fn lemma_convert_untrusted_source_rejected(
    program_id: Seq<u8>,
    signer_key: Seq<u8>,
    signer_is_signer: bool,
    signer_lamports: u64,
    config_bytes: Seq<u8>,
    price_feed_key: Seq<u8>,
    feed: Option<PriceSnapshot>,
    now: int,
    input: Seq<u8>,
)
    requires
        spec_decode(input) is Ok,
        spec_decode(input)->Ok_0 is Usd2Sol,
        spec_load(config_bytes) is Ok,
        spec_load(config_bytes)->Ok_0.0,
        spec_load(config_bytes)->Ok_0.1 != price_feed_key,
    ensures
        spec_process(
            program_id,
            signer_key,
            signer_is_signer,
            signer_lamports,
            config_bytes,
            price_feed_key,
            feed,
            now,
            input,
        ) == Err::<Effect, ProcessError>(ProcessError::UntrustedSource),
{
}

/// Law: stale prices are never used. A convert whose snapshot lies
/// more than the staleness bound away from the clock fails with
/// `StalePrice`.
pub proof fn lemma_convert_stale_rejected(
    program_id: Seq<u8>,
    signer_key: Seq<u8>,
    signer_is_signer: bool,
    signer_lamports: u64,
    config_bytes: Seq<u8>,
    price_feed_key: Seq<u8>,
    snapshot: PriceSnapshot,
    now: int,
    input: Seq<u8>,
)
    requires
        spec_decode(input) is Ok,
        spec_decode(input)->Ok_0 is Usd2Sol,
        spec_load(config_bytes) is Ok,
        spec_load(config_bytes)->Ok_0.0,
        spec_load(config_bytes)->Ok_0.1 == price_feed_key,
        now - snapshot.publish_time > STALENESS_BOUND || snapshot.publish_time - now
            > STALENESS_BOUND,
    ensures
        spec_process(
            program_id,
            signer_key,
            signer_is_signer,
            signer_lamports,
            config_bytes,
            price_feed_key,
            Some(snapshot),
            now,
            input,
        ) == Err::<Effect, ProcessError>(ProcessError::StalePrice),
{
}

/// Law: no transfer without funds. Whenever the computed amount
/// exceeds the caller's balance, the convert fails with
/// `InsufficientFunds` and owes its surroundings no transfer.
pub proof fn lemma_convert_insufficient_funds_rejected(
    program_id: Seq<u8>,
    signer_key: Seq<u8>,
    signer_is_signer: bool,
    signer_lamports: u64,
    config_bytes: Seq<u8>,
    price_feed_key: Seq<u8>,
    snapshot: PriceSnapshot,
    now: int,
    input: Seq<u8>,
    lamports: u64,
)
    requires
        spec_decode(input) is Ok,
        spec_decode(input)->Ok_0 is Usd2Sol,
        spec_load(config_bytes) is Ok,
        spec_load(config_bytes)->Ok_0.0,
        spec_load(config_bytes)->Ok_0.1 == price_feed_key,
        is_fresh(now, snapshot.publish_time as int),
        spec_calculate(
            spec_decode(input)->Ok_0->usd_qty as int,
            snapshot.price as int,
            snapshot.expo as int,
        ) == Ok::<u64, ProcessError>(lamports),
        signer_lamports < lamports,
    ensures
        spec_process(
            program_id,
            signer_key,
            signer_is_signer,
            signer_lamports,
            config_bytes,
            price_feed_key,
            Some(snapshot),
            now,
            input,
        ) == Err::<Effect, ProcessError>(ProcessError::InsufficientFunds),
{
}

/// Law: no partial commit. On every failing invocation the
/// configuration buffer's bytes come out exactly as they went in; the
/// record is rewritten only at the single success point of the
/// configure path.
pub proof fn lemma_failure_leaves_record_unchanged(
    program_id: Seq<u8>,
    signer_key: Seq<u8>,
    signer_is_signer: bool,
    signer_lamports: u64,
    config_bytes: Seq<u8>,
    price_feed_key: Seq<u8>,
    feed: Option<PriceSnapshot>,
    now: int,
    input: Seq<u8>,
)
    requires
        spec_process(
            program_id,
            signer_key,
            signer_is_signer,
            signer_lamports,
            config_bytes,
            price_feed_key,
            feed,
            now,
            input,
        ) is Err,
    ensures
        spec_config_after(
            program_id,
            signer_key,
            signer_is_signer,
            signer_lamports,
            config_bytes,
            price_feed_key,
            feed,
            now,
            input,
        ) == config_bytes,
{
}

} // verus!
