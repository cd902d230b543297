//! Resilient sell execution: confirmation verification and the
//! primary-then-fallback retry state machine.
//!
//! Every network interaction (status query, transaction build, submission,
//! inter-attempt sleep) is performed by the embedding I/O layer, which feeds
//! each answer into the verified state machines here as a plain value.  The
//! drivers in this module consume a recorded sequence of such answers, so the
//! decision logic — attempt counting, fallback entry, outcome assembly — is
//! verified for every possible interleaving of outside behavior.

use vstd::prelude::*;

verus! {

/// Maximum number of attempts against the primary venue.
pub const MAX_RETRIES: u32 = 3;

/// Seconds to wait between attempts and between verification polls.
pub const RETRY_DELAY_SECS: u64 = 2;

/// Verification attempt budget used for each submitted transaction.
pub const VERIFICATION_ATTEMPTS: u32 = 3;

/// Ledger-reported durability status of a submitted transaction.
#[derive(Clone, Copy, Debug, PartialEq, Eq, Structural)]
pub enum ConfirmationLevel {
    Processed,
    Confirmed,
    Finalized,
}

/// Answer to one ledger status query, as the I/O layer reports it.
#[derive(Clone, Copy, Debug, PartialEq, Eq, Structural)]
pub enum StatusQueryOutcome {
    /// The signature has not been observed on the ledger yet.
    NotFound,
    /// The signature was observed with the given confirmation level.
    Observed(ConfirmationLevel),
    /// The status query itself failed.
    QueryFailed,
}

/// Failure of the confirmation verifier: the attempt budget was exhausted.
#[derive(Clone, Copy, Debug, PartialEq, Eq, Structural)]
pub struct VerificationTimeout {
    pub attempts_made: u32,
}

/// A query answer that terminates verification successfully.
pub open spec fn spec_query_confirms(o: StatusQueryOutcome) -> bool {
    o matches StatusQueryOutcome::Observed(level)
        && (level is Confirmed || level is Finalized)
}

/// Checks whether a query answer reports the transaction confirmed or
/// finalized.
pub fn query_confirms(o: &StatusQueryOutcome) -> (r: bool)
    ensures
        r == spec_query_confirms(*o),
{
    match o {
        StatusQueryOutcome::Observed(ConfirmationLevel::Confirmed) => true,
        StatusQueryOutcome::Observed(ConfirmationLevel::Finalized) => true,
        _ => false,
    }
}

/// Progress of the bounded confirmation-polling loop.
#[derive(Clone, Copy, Debug, PartialEq, Eq, Structural)]
pub enum VerificationState {
    /// Still polling; `attempts_made` queries answered so far.
    Polling { attempts_made: u32 },
    /// A query reported the transaction confirmed or finalized.
    Verified { attempts_made: u32 },
    /// The attempt budget was exhausted without confirmation.
    TimedOut { attempts_made: u32 },
}

/// Transition of the polling loop on one query answer, after `attempts_made`
/// earlier answers, under a budget of `max_retries` queries.
pub open spec fn spec_verification_step(
    attempts_made: u32,
    o: StatusQueryOutcome,
    max_retries: u32,
) -> VerificationState {
    if spec_query_confirms(o) {
        VerificationState::Verified { attempts_made: (attempts_made + 1) as u32 }
    } else if attempts_made + 1 == max_retries {
        VerificationState::TimedOut { attempts_made: (attempts_made + 1) as u32 }
    } else {
        VerificationState::Polling { attempts_made: (attempts_made + 1) as u32 }
    }
}

/// One verification poll: feeds a status-query answer into the polling loop.
pub fn verification_step(
    state: &VerificationState,
    outcome: &StatusQueryOutcome,
    max_retries: u32,
) -> (next: VerificationState)
    requires
        state matches VerificationState::Polling { attempts_made }
            && attempts_made < max_retries,
    ensures
        state matches VerificationState::Polling { attempts_made }
            ==> next == spec_verification_step(*attempts_made, *outcome, max_retries),
{
    let attempts_made = match state {
        VerificationState::Polling { attempts_made } => *attempts_made,
        _ => 0,
    };
    if query_confirms(outcome) {
        VerificationState::Verified { attempts_made: attempts_made + 1 }
    } else if attempts_made + 1 == max_retries {
        VerificationState::TimedOut { attempts_made: attempts_made + 1 }
    } else {
        VerificationState::Polling { attempts_made: attempts_made + 1 }
    }
}

/// Index of the first confirming answer in `outcomes`, scanning from `i`
/// with a budget of `n` answers; `n` when no answer within the budget (or
/// within `outcomes`) confirms.
pub open spec fn spec_first_confirming(
    outcomes: Seq<StatusQueryOutcome>,
    i: int,
    n: int,
) -> int
    decreases n - i,
{
    if i < 0 || i >= n || i >= outcomes.len() {
        n
    } else if spec_query_confirms(outcomes[i]) {
        i
    } else {
        spec_first_confirming(outcomes, i + 1, n)
    }
}

/// Polls recorded ledger answers until one confirms or the budget of
/// `max_retries` queries is exhausted.  `outcomes[i]` is the answer the
/// ledger gave to the `i`-th query; answers are consumed in order and
/// consumption stops at the first confirming one, so the call returns `Ok`
/// exactly when some answer within the budget confirms, and otherwise fails
/// with a timeout carrying the number of queries made.
pub fn verify_transaction_with_retry(
    outcomes: &Vec<StatusQueryOutcome>,
    max_retries: u32,
) -> (r: Result<bool, VerificationTimeout>)
    requires
        max_retries > 0,
        outcomes@.len() >= max_retries as int
            || (exists|i: int| 0 <= i < outcomes@.len()
                && spec_query_confirms(#[trigger] outcomes@[i])),
    ensures
        ({
            let k = spec_first_confirming(outcomes@, 0, max_retries as int);
            if k < max_retries as int {
                r == Ok::<bool, VerificationTimeout>(true)
            } else {
                r == Err::<bool, VerificationTimeout>(
                    VerificationTimeout { attempts_made: max_retries },
                )
            }
        }),
{
    let mut state = VerificationState::Polling { attempts_made: 0 };
    let mut i: u32 = 0;
    while i < max_retries
        invariant
            0 <= i <= max_retries,
            max_retries > 0,
            i < max_retries ==> state == (VerificationState::Polling { attempts_made: i }),
            i == max_retries ==> state == (VerificationState::TimedOut { attempts_made: i }),
            outcomes@.len() >= max_retries as int
                || (exists|j: int| 0 <= j < outcomes@.len()
                    && spec_query_confirms(#[trigger] outcomes@[j])),
            forall|k: int| 0 <= k < i ==> !spec_query_confirms(#[trigger] outcomes@[k]),
            spec_first_confirming(outcomes@, 0, max_retries as int)
                == spec_first_confirming(outcomes@, i as int, max_retries as int),
        decreases max_retries - i,
    {
        proof {
            if outcomes@.len() < max_retries as int {
                let j = choose|j: int| 0 <= j < outcomes@.len()
                    && spec_query_confirms(#[trigger] outcomes@[j]);
                assert(j >= i as int);
            }
        }
        let outcome = &outcomes[i as usize];
        let next = verification_step(&state, outcome, max_retries);
        match next {
            VerificationState::Verified { .. } => {
                proof {
                    assert(spec_first_confirming(outcomes@, i as int, max_retries as int)
                        == i as int);
                }
                return Ok(true);
            },
            other => {
                state = other;
            },
        }
        i = i + 1;
    }
    Err(VerificationTimeout { attempts_made: max_retries })
}

/// Result of one sell attempt against a venue, as reported by the embedding
/// I/O layer: building, submitting and verifying happen there, and the
/// decision logic here consumes the condensed outcome.
#[derive(Clone, Debug)]
pub enum SellAttemptOutcome {
    /// Building or submitting the transaction failed before it reached the
    /// chain.
    SubmitFailed { error: String },
    /// The transaction was submitted and verification confirmed it on-chain.
    SubmittedVerified { signature: String },
    /// The transaction was submitted but verification failed or errored.
    SubmittedUnverified { signature: String, error: String },
}

/// The attempt ended with the transaction confirmed on-chain.
pub open spec fn spec_outcome_verified(o: SellAttemptOutcome) -> bool {
    o is SubmittedVerified
}

/// The error recorded for a failed attempt; nothing for a verified one.
pub open spec fn spec_outcome_error(o: SellAttemptOutcome) -> Option<String> {
    match o {
        SellAttemptOutcome::SubmitFailed { error } => Some(error),
        SellAttemptOutcome::SubmittedVerified { signature } => None,
        SellAttemptOutcome::SubmittedUnverified { signature, error } => Some(error),
    }
}

/// The signature of a verified attempt; nothing otherwise.
pub open spec fn spec_outcome_signature(o: SellAttemptOutcome) -> Option<String> {
    match o {
        SellAttemptOutcome::SubmittedVerified { signature } => Some(signature),
        _ => None,
    }
}

/// Aggregate outcome of one full sell sequence.
///
/// `signature` is present exactly when a transaction was submitted and
/// verified on-chain; `attempt_count` counts primary-venue attempts only, so
/// it stays a stable health metric for the primary venue whether or not the
/// fallback ran.
#[derive(Clone, Debug)]
pub struct SellTransactionResult {
    pub success: bool,
    pub signature: Option<String>,
    pub error: Option<String>,
    pub used_jupiter_fallback: bool,
    pub attempt_count: u32,
}

/// Phase of the resilient sell executor.
#[derive(Clone, Debug)]
pub enum SellExecutionState {
    /// Retrying the primary venue; `attempt_count` attempts made so far.
    TryingPrimary { attempt_count: u32, last_error: Option<String> },
    /// The primary venue is exhausted; the single fallback attempt is
    /// pending.
    TryingFallback { attempt_count: u32, last_error: Option<String> },
    /// Terminal: the outcome to hand back to the caller.
    Finished { result: SellTransactionResult },
}

/// Transition of the executor on the outcome of one primary-venue attempt,
/// after `attempt_count` earlier attempts.  A verified submission is the
/// only success exit; on failure the error is recorded and the executor
/// either retries or, at the attempt limit, moves to the fallback phase.
pub open spec fn spec_primary_step(attempt_count: u32, o: SellAttemptOutcome) -> SellExecutionState {
    let made = (attempt_count + 1) as u32;
    match o {
        SellAttemptOutcome::SubmittedVerified { signature } => SellExecutionState::Finished {
            result: SellTransactionResult {
                success: true,
                signature: Some(signature),
                error: None,
                used_jupiter_fallback: false,
                attempt_count: made,
            },
        },
        _ => {
            if made == MAX_RETRIES {
                SellExecutionState::TryingFallback {
                    attempt_count: made,
                    last_error: spec_outcome_error(o),
                }
            } else {
                SellExecutionState::TryingPrimary {
                    attempt_count: made,
                    last_error: spec_outcome_error(o),
                }
            }
        },
    }
}

/// Outcome of the single fallback attempt, entered after `attempt_count`
/// primary attempts.  The fallback reports success only for a verified
/// submission; in every other case the outcome carries no signature and the
/// fallback's error.
pub open spec fn spec_fallback_step(attempt_count: u32, o: SellAttemptOutcome) -> SellTransactionResult {
    match o {
        SellAttemptOutcome::SubmittedVerified { signature } => SellTransactionResult {
            success: true,
            signature: Some(signature),
            error: None,
            used_jupiter_fallback: true,
            attempt_count,
        },
        _ => SellTransactionResult {
            success: false,
            signature: None,
            error: spec_outcome_error(o),
            used_jupiter_fallback: true,
            attempt_count,
        },
    }
}

/// Feeds the outcome of one primary-venue attempt into the executor.
pub fn primary_attempt_step(
    state: &SellExecutionState,
    outcome: &SellAttemptOutcome,
) -> (next: SellExecutionState)
    requires
        state matches SellExecutionState::TryingPrimary { attempt_count, .. }
            && attempt_count < MAX_RETRIES,
    ensures
        state matches SellExecutionState::TryingPrimary { attempt_count, .. }
            ==> next == spec_primary_step(*attempt_count, *outcome),
{
    let attempt_count = match state {
        SellExecutionState::TryingPrimary { attempt_count, .. } => *attempt_count,
        _ => 0,
    };
    let made = attempt_count + 1;
    match outcome {
        SellAttemptOutcome::SubmittedVerified { signature } => SellExecutionState::Finished {
            result: SellTransactionResult {
                success: true,
                signature: Some(signature.clone()),
                error: None,
                used_jupiter_fallback: false,
                attempt_count: made,
            },
        },
        SellAttemptOutcome::SubmitFailed { error } => {
            if made == MAX_RETRIES {
                SellExecutionState::TryingFallback {
                    attempt_count: made,
                    last_error: Some(error.clone()),
                }
            } else {
                SellExecutionState::TryingPrimary {
                    attempt_count: made,
                    last_error: Some(error.clone()),
                }
            }
        },
        SellAttemptOutcome::SubmittedUnverified { signature: _, error } => {
            if made == MAX_RETRIES {
                SellExecutionState::TryingFallback {
                    attempt_count: made,
                    last_error: Some(error.clone()),
                }
            } else {
                SellExecutionState::TryingPrimary {
                    attempt_count: made,
                    last_error: Some(error.clone()),
                }
            }
        },
    }
}

/// Feeds the outcome of the single fallback attempt into the executor.
pub fn fallback_attempt_step(
    state: &SellExecutionState,
    outcome: &SellAttemptOutcome,
) -> (next: SellExecutionState)
    requires
        state is TryingFallback,
    ensures
        state matches SellExecutionState::TryingFallback { attempt_count, .. }
            ==> next == (SellExecutionState::Finished {
                result: spec_fallback_step(*attempt_count, *outcome),
            }),
{
    let attempt_count = match state {
        SellExecutionState::TryingFallback { attempt_count, .. } => *attempt_count,
        _ => 0,
    };
    match outcome {
        SellAttemptOutcome::SubmittedVerified { signature } => SellExecutionState::Finished {
            result: SellTransactionResult {
                success: true,
                signature: Some(signature.clone()),
                error: None,
                used_jupiter_fallback: true,
                attempt_count,
            },
        },
        SellAttemptOutcome::SubmitFailed { error } => SellExecutionState::Finished {
            result: SellTransactionResult {
                success: false,
                signature: None,
                error: Some(error.clone()),
                used_jupiter_fallback: true,
                attempt_count,
            },
        },
        SellAttemptOutcome::SubmittedUnverified { signature: _, error } => {
            SellExecutionState::Finished {
                result: SellTransactionResult {
                    success: false,
                    signature: None,
                    error: Some(error.clone()),
                    used_jupiter_fallback: true,
                    attempt_count,
                },
            }
        },
    }
}

/// Amount of the held token to hand to the fallback venue's quote request:
/// half of the tokens the trade acquired, and nothing when the trade record
/// shows no acquired tokens.
pub fn sell_amount_from_change(token_change: i64) -> (r: u64)
    ensures
        token_change > 0 ==> r == token_change as u64 / 2,
        token_change <= 0 ==> r == 0,
{
    if token_change > 0 {
        (token_change as u64) / 2
    } else {
        0
    }
}

/// Index of the first verified attempt in `outcomes`, scanning from `i`
/// with a budget of `n` attempts; `n` when no attempt within the budget (or
/// within `outcomes`) was verified.
pub open spec fn spec_first_verified(
    outcomes: Seq<SellAttemptOutcome>,
    i: int,
    n: int,
) -> int
    decreases n - i,
{
    if i < 0 || i >= n || i >= outcomes.len() {
        n
    } else if spec_outcome_verified(outcomes[i]) {
        i
    } else {
        spec_first_verified(outcomes, i + 1, n)
    }
}

/// Runs the full primary-then-fallback sell sequence over recorded attempt
/// outcomes.  `primary_outcomes[i]` is the result of the `i`-th attempt
/// against the primary venue; outcomes are consumed in order, stopping at
/// the first verified one, and after `MAX_RETRIES` failures the single
/// fallback attempt decides the final outcome.  All failure is encoded in
/// the returned record; the call never fails.
pub fn execute_sell_with_retry(
    primary_outcomes: &Vec<SellAttemptOutcome>,
    fallback_outcome: &SellAttemptOutcome,
) -> (r: SellTransactionResult)
    requires
        primary_outcomes@.len() >= MAX_RETRIES as int
            || (exists|i: int| 0 <= i < primary_outcomes@.len()
                && spec_outcome_verified(#[trigger] primary_outcomes@[i])),
    ensures
        ({
            let k = spec_first_verified(primary_outcomes@, 0, MAX_RETRIES as int);
            if k < MAX_RETRIES as int {
                r == SellTransactionResult {
                    success: true,
                    signature: spec_outcome_signature(primary_outcomes@[k]),
                    error: None::<String>,
                    used_jupiter_fallback: false,
                    attempt_count: (k + 1) as u32,
                }
            } else {
                r == spec_fallback_step(MAX_RETRIES, *fallback_outcome)
            }
        }),
{
    let mut state = SellExecutionState::TryingPrimary { attempt_count: 0, last_error: None };
    let mut i: u32 = 0;
    while i < MAX_RETRIES
        invariant
            0 <= i <= MAX_RETRIES,
            i < MAX_RETRIES ==> (state matches SellExecutionState::TryingPrimary {
                attempt_count,
                ..
            } && attempt_count == i),
            i == MAX_RETRIES ==> (state matches SellExecutionState::TryingFallback {
                attempt_count,
                ..
            } && attempt_count == i),
            primary_outcomes@.len() >= MAX_RETRIES as int
                || (exists|j: int| 0 <= j < primary_outcomes@.len()
                    && spec_outcome_verified(#[trigger] primary_outcomes@[j])),
            forall|k: int| 0 <= k < i
                ==> !spec_outcome_verified(#[trigger] primary_outcomes@[k]),
            spec_first_verified(primary_outcomes@, 0, MAX_RETRIES as int)
                == spec_first_verified(primary_outcomes@, i as int, MAX_RETRIES as int),
        decreases MAX_RETRIES - i,
    {
        proof {
            if primary_outcomes@.len() < MAX_RETRIES as int {
                let j = choose|j: int| 0 <= j < primary_outcomes@.len()
                    && spec_outcome_verified(#[trigger] primary_outcomes@[j]);
                assert(j >= i as int);
            }
        }
        let outcome = &primary_outcomes[i as usize];
        let next = primary_attempt_step(&state, outcome);
        match next {
            SellExecutionState::Finished { result } => {
                proof {
                    assert(spec_first_verified(primary_outcomes@, i as int, MAX_RETRIES as int)
                        == i as int);
                }
                return result;
            },
            other => {
                state = other;
            },
        }
        i = i + 1;
    }
    let finished = fallback_attempt_step(&state, fallback_outcome);
    match finished {
        SellExecutionState::Finished { result } => result,
        _ => {
            proof {
                assert(false);
            }
            SellTransactionResult {
                success: false,
                signature: None,
                error: None,
                used_jupiter_fallback: true,
                attempt_count: MAX_RETRIES,
            }
        },
    }
}

} // verus!
