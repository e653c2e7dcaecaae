//! Verified core of a social-profile completeness checker.
//!
//! The library decides whether an account's externally stored profile
//! document satisfies a fixed completeness policy, keeps a durable ledger of
//! the accounts that passed, and charges the requesting party exactly the
//! storage cost its record imposes, refunding any surplus.
//!
//! The verification pipeline is an explicit two-phase state machine around
//! the one remote call it makes. `verify_social_profile_completeness`
//! constructs the outbound registry read; the caller performs it and, when
//! the response or failure arrives, resumes with
//! `verify_social_profile_completeness_callback`, which validates, records,
//! and settles the deposit as one atomic unit. The caller likewise performs
//! the transfers these functions decide and measures the environment values
//! (timestamp, byte-cost rate) they take as arguments.

use vstd::prelude::*;

pub mod accounting;
pub mod json;
pub mod ledger;
pub mod query;
pub mod validator;

use crate::accounting::DepositError;
use crate::json::Json;
use crate::ledger::{ProfileLedger, record_footprint};
use crate::query::{QueryFailure, RegistryQuery, build_registry_query, spec_registry_for_signer,
    spec_query_payload};
use crate::validator::{evaluate, spec_evaluate};

verus! {

/// Milliseconds since the epoch.
pub type TimestampMs = u64;

/// Tags naming the storage partitions this system reserves; each persisted
/// mapping lives under exactly one of them, distinct from any other state.
pub enum StorageKey {
    VerifiedCompleteProfiles,
}

/// The policy a verification record attests. Only one policy exists today;
/// the record shape anticipates further ones.
#[derive(Clone, Copy, PartialEq, Eq, Structural, Debug)]
pub enum CheckType {
    CompleteSocialProfile,
}

/// A verification record as handed to callers: synthesized from the stored
/// timestamp plus the fixed policy tag, which is not stored redundantly.
pub struct CheckExternal {
    pub account_id: String,
    pub check_type: CheckType,
    pub verified_at: TimestampMs,
}

/// A transfer of native currency owed to `receiver`; the caller performs it.
#[derive(Debug)]
pub struct Transfer {
    pub receiver: String,
    pub amount: u128,
}

/// What the verification continuation decided: whether the profile passed,
/// and the refund transfer the caller owes the requesting party, if any.
#[derive(Debug)]
pub struct VerificationOutcome {
    pub verified: bool,
    pub refund: Option<Transfer>,
}

/// Whether a finished remote call yields a document that passes the
/// completeness policy for `account_id`; a failed call never does.
pub open spec fn spec_callback_verified(
    call_result: Result<Json, QueryFailure>,
    account_id: Seq<char>,
) -> bool {
    match call_result {
        Ok(document) => spec_evaluate(document, account_id),
        Err(_) => false,
    }
}

/// The contract state: the owner and the verified-profile ledger.
pub struct Contract {
    owner: String,
    verified_complete_profiles: ProfileLedger,
}

impl Contract {
    /// The ledger's representation invariant holds.
    pub closed spec fn wf(self) -> bool {
        self.verified_complete_profiles.wf()
    }

    /// The ledger as a mapping from account identifier to timestamp.
    pub closed spec fn ledger(self) -> Map<Seq<char>, TimestampMs> {
        self.verified_complete_profiles@
    }

    /// The owning account's identifier.
    pub closed spec fn owner_id(self) -> Seq<char> {
        self.owner@
    }

    /// A fresh contract with an empty ledger, owned by `owner` when given
    /// and by the signing account otherwise.
    pub fn new(owner: Option<String>, signer_account_id: String) -> (c: Contract)
        ensures
            c.wf(),
            c.ledger() == Map::<Seq<char>, TimestampMs>::empty(),
            c.owner_id() == match owner {
                Some(o) => o@,
                None => signer_account_id@,
            },
    {
        let owner_account = match owner {
            Some(o) => o,
            None => signer_account_id,
        };
        Contract { owner: owner_account, verified_complete_profiles: ProfileLedger::new() }
    }

    /// Whether `account_id` currently holds a verification record.
    pub fn has_complete_social_profile_check(&self, account_id: String) -> (r: bool)
        ensures
            r == self.ledger().contains_key(account_id@),
    {
        self.verified_complete_profiles.has(account_id.as_str())
    }

    /// The verification record of `account_id`, when one exists: its stored
    /// timestamp under the fixed policy tag.
    pub fn fetch_complete_social_profile_check(&self, account_id: String) -> (r: Option<
        CheckExternal,
    >)
        requires
            self.wf(),
        ensures
            match r {
                Some(check) => {
                    &&& self.ledger().contains_key(account_id@)
                    &&& check.account_id@ == account_id@
                    &&& check.check_type == CheckType::CompleteSocialProfile
                    &&& check.verified_at == self.ledger()[account_id@]
                },
                None => !self.ledger().contains_key(account_id@),
            },
    {
        match self.verified_complete_profiles.timestamp_of(account_id.as_str()) {
            Some(verified_at) => Some(
                CheckExternal {
                    account_id,
                    check_type: CheckType::CompleteSocialProfile,
                    verified_at,
                },
            ),
            None => None,
        }
    }

    /// Removes the calling account's own record, refunding the freed
    /// storage's cost. Absence is a no-op: no charge, no error. A cost
    /// overflow aborts with the state untouched.
    pub fn remove_complete_social_profile_check(
        &mut self,
        predecessor_account_id: String,
        storage_byte_cost: u128,
    ) -> (r: Result<Option<Transfer>, DepositError>)
        requires
            old(self).wf(),
        ensures
            final(self).wf(),
            final(self).owner_id() == old(self).owner_id(),
            match r {
                Ok(refund) => {
                    &&& final(self).ledger() == old(self).ledger().remove(
                        predecessor_account_id@,
                    )
                    &&& match refund {
                        Some(t) => {
                            &&& old(self).ledger().contains_key(predecessor_account_id@)
                            &&& t.receiver@ == predecessor_account_id@
                            &&& t.amount == record_footprint(predecessor_account_id@)
                                * storage_byte_cost
                            &&& t.amount > 0
                        },
                        None => !old(self).ledger().contains_key(predecessor_account_id@)
                            || record_footprint(predecessor_account_id@) * storage_byte_cost
                            == 0,
                    }
                },
                Err(e) => {
                    &&& *final(self) == *old(self)
                    &&& e == DepositError::Overflow
                    &&& old(self).ledger().contains_key(predecessor_account_id@)
                    &&& record_footprint(predecessor_account_id@) * storage_byte_cost
                        > u128::MAX
                },
            },
    {
        if self.verified_complete_profiles.has(predecessor_account_id.as_str()) {
            // price the record before mutating, so an overflow aborts untouched
            let key_len = predecessor_account_id.as_str().unicode_len();
            let footprint: u128 = (key_len as u128) + 8;
            let cost_freed = match footprint.checked_mul(storage_byte_cost) {
                None => {
                    return Err(DepositError::Overflow);
                },
                Some(cost) => cost,
            };
            let _freed = self.verified_complete_profiles.remove(
                predecessor_account_id.as_str(),
            );
            if cost_freed > 0 {
                Ok(Some(Transfer { receiver: predecessor_account_id, amount: cost_freed }))
            } else {
                Ok(None)
            }
        } else {
            proof {
                assert(old(self).ledger() =~= old(self).ledger().remove(
                    predecessor_account_id@,
                ));
            }
            Ok(None)
        }
    }

    /// Constructs the single outbound registry read for the requesting
    /// account's profile subtree: the suspension point of the pipeline. The
    /// caller performs it with the stated compute ceiling and resumes with
    /// the continuation below, carrying the same account and deposit.
    pub fn verify_social_profile_completeness(
        &self,
        predecessor_account_id: &str,
        signer_account_id: &str,
    ) -> (q: RegistryQuery)
        ensures
            q.registry_account_id@ == spec_registry_for_signer(signer_account_id@),
            q.method_name@ == "get"@,
            q.args_json@ == spec_query_payload(predecessor_account_id@),
            q.gas_tgas == 50,
            q.attached_deposit == 0,
    {
        build_registry_query(predecessor_account_id, signer_account_id)
    }

    /// The continuation of a verification request, resumed once the remote
    /// call finished. A failed call, a malformed document or an incomplete
    /// profile reports `false`, mutates nothing and charges nothing: the
    /// whole attached deposit goes back to the requester. A complete profile
    /// records the account at `block_timestamp_ms` and settles the deposit
    /// as one atomic unit: any surplus over the grown storage's cost is
    /// refunded, a deficit or a cost overflow aborts the whole continuation
    /// with the ledger untouched.
    pub fn verify_social_profile_completeness_callback(
        &mut self,
        account_id: String,
        attached_deposit: u128,
        call_result: Result<Json, QueryFailure>,
        block_timestamp_ms: TimestampMs,
        storage_byte_cost: u128,
    ) -> (r: Result<VerificationOutcome, DepositError>)
        requires
            old(self).wf(),
        ensures
            final(self).wf(),
            final(self).owner_id() == old(self).owner_id(),
            !spec_callback_verified(call_result, account_id@) ==> {
                &&& *final(self) == *old(self)
                &&& match r {
                    Ok(outcome) => {
                        &&& outcome.verified == false
                        &&& (attached_deposit > 0 ==> match outcome.refund {
                            Some(t) => t.receiver@ == account_id@ && t.amount
                                == attached_deposit,
                            None => false,
                        })
                        &&& (attached_deposit == 0 ==> outcome.refund is None)
                    },
                    Err(_) => false,
                }
            },
            spec_callback_verified(call_result, account_id@) ==> {
                let required = (if old(self).ledger().contains_key(account_id@) {
                    0int
                } else {
                    record_footprint(account_id@) as int
                }) * storage_byte_cost;
                &&& (required > u128::MAX ==> *final(self) == *old(self) && r == Err::<
                    VerificationOutcome,
                    DepositError,
                >(DepositError::Overflow))
                &&& (attached_deposit < required <= u128::MAX ==> *final(self) == *old(self)
                    && r == Err::<VerificationOutcome, DepositError>(
                    (DepositError::InsufficientDeposit { required: required as u128 }),
                ))
                &&& (required <= attached_deposit ==> {
                    &&& final(self).ledger() == old(self).ledger().insert(
                        account_id@,
                        block_timestamp_ms,
                    )
                    &&& match r {
                        Ok(outcome) => {
                            &&& outcome.verified == true
                            &&& (attached_deposit > required ==> match outcome.refund {
                                Some(t) => t.receiver@ == account_id@ && t.amount
                                    == attached_deposit - required,
                                None => false,
                            })
                            &&& (attached_deposit == required ==> outcome.refund is None)
                        },
                        Err(_) => false,
                    }
                })
            },
    {
        let verified = match &call_result {
            Ok(document) => evaluate(document, account_id.as_str()),
            Err(_) => false,
        };
        if !verified {
            // failure is no charge: the whole attached deposit goes back
            let refund = if attached_deposit > 0 {
                Some(Transfer { receiver: account_id, amount: attached_deposit })
            } else {
                None
            };
            return Ok(VerificationOutcome { verified: false, refund });
        }
        // price the storage the record will grow before mutating, so a
        // deficit or an overflow aborts with nothing committed
        let key_len = account_id.as_str().unicode_len();
        let footprint_grown: u128 = if self.verified_complete_profiles.has(
            account_id.as_str(),
        ) {
            0
        } else {
            (key_len as u128) + 8
        };
        let required = match footprint_grown.checked_mul(storage_byte_cost) {
            None => {
                return Err(DepositError::Overflow);
            },
            Some(cost) => cost,
        };
        if attached_deposit < required {
            return Err(DepositError::InsufficientDeposit { required });
        }
        let receiver = account_id.clone();
        let _grown = self.verified_complete_profiles.upsert(account_id, block_timestamp_ms);
        if attached_deposit > required {
            Ok(
                VerificationOutcome {
                    verified: true,
                    refund: Some(
                        Transfer { receiver, amount: attached_deposit - required },
                    ),
                },
            )
        } else {
            Ok(VerificationOutcome { verified: true, refund: None })
        }
    }
}

} // verus!
