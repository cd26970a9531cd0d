//! The mathematical model of the ledger and the transition function of each
//! operation. Every executable operation's contract says that it performs
//! exactly the transition its step function gives.

use vstd::prelude::*;

use crate::accounts::{RecordView, StudentView, TreasuryView};
use crate::accounts::LAYOUT_VERSION;
use crate::commitment::digest_of;
use crate::context::{
    ActionView, FreezeStudentView, InitializeTreasuryView, RegisterStudentView, SendUsdcView,
    SettleOfframpView, SettleOnrampView, UpdateFraudScoreView,
};
use crate::errors::{FrancoError, LedgerError};
use crate::events::EventView;
use crate::{MAX_COUNTRY_BYTES, MAX_REF_BYTES};

verus! {

/// Fraud scores strictly above this value flag the settlement and its
/// participant.
pub const FRAUD_THRESHOLD: u8 = 75;

/// The fixed well-known storage key of the treasury singleton; also the
/// identity under which the treasury appears as sender or receiver of a
/// settlement.
pub open spec fn treasury_id() -> Seq<u8> {
    seq![116u8, 114u8, 101u8, 97u8, 115u8, 117u8, 114u8, 121u8]
}

/// One stored settlement record together with its storage key.
#[verifier::ext_equal]
pub struct RecordEntryView {
    pub key: Seq<u8>,
    pub record: RecordView,
}

/// Mathematical view of the whole ledger.
#[verifier::ext_equal]
pub struct LedgerView {
    pub treasury: Option<TreasuryView>,
    pub students: Seq<StudentView>,
    pub records: Seq<RecordEntryView>,
    pub events: Seq<EventView>,
}

/// Outcome of a settlement transition: the next state and either the
/// transfer the host must perform (`Ok(Some)`), an idempotent replay with
/// nothing to do (`Ok(None)`), or a failure.
#[verifier::ext_equal]
pub struct SettleOut {
    pub post: LedgerView,
    pub result: Result<Option<ActionView>, LedgerError>,
}

/// Outcome of a transition that never requests a transfer.
#[verifier::ext_equal]
pub struct PlainOut {
    pub post: LedgerView,
    pub result: Result<(), LedgerError>,
}

/// No two participants share an owning identity.
pub open spec fn unique_owners(students: Seq<StudentView>) -> bool {
    forall|i: int, j: int|
        0 <= i < j < students.len() ==> (#[trigger] students[i]).owner != (
        #[trigger] students[j]).owner
}

/// No two settlement records share a storage key.
pub open spec fn unique_keys(records: Seq<RecordEntryView>) -> bool {
    forall|i: int, j: int|
        0 <= i < j < records.len() ==> (#[trigger] records[i]).key != (#[trigger] records[j]).key
}

/// Whether a participant with this owning identity is registered.
pub open spec fn has_student(students: Seq<StudentView>, owner: Seq<u8>) -> bool {
    exists|i: int| 0 <= i < students.len() && (#[trigger] students[i]).owner == owner
}

/// The position of the participant with this owning identity; meaningful
/// only where `has_student` holds and owners are unique.
pub open spec fn student_idx(students: Seq<StudentView>, owner: Seq<u8>) -> int {
    choose|i: int| 0 <= i < students.len() && (#[trigger] students[i]).owner == owner
}

/// Whether a settlement record is stored under this key.
pub open spec fn has_record(records: Seq<RecordEntryView>, key: Seq<u8>) -> bool {
    exists|i: int| 0 <= i < records.len() && (#[trigger] records[i]).key == key
}

/// The position of the record stored under this key; meaningful only where
/// `has_record` holds and keys are unique.
pub open spec fn record_idx(records: Seq<RecordEntryView>, key: Seq<u8>) -> int {
    choose|i: int| 0 <= i < records.len() && (#[trigger] records[i]).key == key
}

/// Under unique owners, any position holding the owner is the position.
pub proof fn lemma_student_idx_is(students: Seq<StudentView>, owner: Seq<u8>, i: int)
    requires
        unique_owners(students),
        0 <= i < students.len(),
        students[i].owner == owner,
    ensures
        has_student(students, owner),
        student_idx(students, owner) == i,
{
    assert(has_student(students, owner));
    let j = student_idx(students, owner);
    if i != j {
        assert(students[i].owner != students[j].owner);
    }
}

/// Under unique keys, any position holding the key is the position.
pub proof fn lemma_record_idx_is(records: Seq<RecordEntryView>, key: Seq<u8>, i: int)
    requires
        unique_keys(records),
        0 <= i < records.len(),
        records[i].key == key,
    ensures
        has_record(records, key),
        record_idx(records, key) == i,
{
    assert(has_record(records, key));
    let j = record_idx(records, key);
    if i != j {
        assert(records[i].key != records[j].key);
    }
}

/// Validity of one participant record.
pub open spec fn wf_student(s: StudentView) -> bool {
    s.country.len() <= MAX_COUNTRY_BYTES
}

/// Validity of one stored settlement record: records are persisted only by
/// a committed settlement, so they are initialized, carry a positive amount
/// and a bounded reference, and sit under the key that is the digest of
/// their own reference.
pub open spec fn wf_record_entry(e: RecordEntryView) -> bool {
    &&& e.record.initialized
    &&& e.record.amount > 0
    &&& e.record.kotani_reference.len() <= MAX_REF_BYTES
    &&& e.key == digest_of(e.record.kotani_reference)
}

/// Validity of the treasury configuration.
pub open spec fn wf_treasury(t: TreasuryView) -> bool {
    t.fee_bps <= 10000
}

/// Validity of the whole ledger: the invariant every operation preserves.
pub open spec fn wf_ledger(l: LedgerView) -> bool {
    &&& unique_owners(l.students)
    &&& forall|i: int| 0 <= i < l.students.len() ==> wf_student(#[trigger] l.students[i])
    &&& unique_keys(l.records)
    &&& forall|i: int| 0 <= i < l.records.len() ==> wf_record_entry(#[trigger] l.records[i])
    &&& match l.treasury {
        Some(t) => wf_treasury(t),
        None => true,
    }
}

/// Treasury initialization: create the singleton, keyed by the fixed
/// well-known key, so a second call collides; a fee above 10000 basis
/// points is rejected.
pub open spec fn init_treasury_step(
    pre: LedgerView,
    ctx: InitializeTreasuryView,
    fee_bps: u16,
) -> PlainOut {
    if pre.treasury is Some {
        PlainOut { post: pre, result: Err(LedgerError::AccountAlreadyInUse) }
    } else if fee_bps > 10000 {
        PlainOut { post: pre, result: Err(LedgerError::Franco(FrancoError::InvalidFeeBps)) }
    } else {
        let t = TreasuryView {
            authority: ctx.authority,
            usdc_mint: ctx.usdc_mint,
            treasury_token_account: ctx.treasury_token_account,
            fee_bps: fee_bps,
            bump: LAYOUT_VERSION,
        };
        PlainOut { post: LedgerView { treasury: Some(t), ..pre }, result: Ok(()) }
    }
}

/// Participant registration: create-if-absent keyed by the owning
/// identity, so a second registration for the same identity collides; an
/// over-long country code is rejected. Starts unfrozen, unflagged, with
/// zero volume, and emits a registration notification.
pub open spec fn register_step(
    pre: LedgerView,
    ctx: RegisterStudentView,
    country: Seq<u8>,
    now: i64,
) -> PlainOut {
    if has_student(pre.students, ctx.owner) {
        PlainOut { post: pre, result: Err(LedgerError::AccountAlreadyInUse) }
    } else if country.len() > MAX_COUNTRY_BYTES {
        PlainOut { post: pre, result: Err(LedgerError::Franco(FrancoError::CountryTooLong)) }
    } else {
        let s = StudentView {
            owner: ctx.owner,
            country: country,
            is_frozen: false,
            total_volume: 0,
            flagged: false,
            bump: LAYOUT_VERSION,
        };
        let ev = EventView::Registered { owner: ctx.owner, country: country, timestamp: now };
        PlainOut {
            post: LedgerView {
                students: pre.students.push(s),
                events: pre.events.push(ev),
                ..pre
            },
            result: Ok(()),
        }
    }
}

/// Inbound settlement: external funds to a participant, paid out of the
/// custodial pool under the treasury's own authority. Checked in order:
/// digest integrity, positive amount, reference length, treasury presence
/// and its authority / token descriptor / pool account, participant
/// presence, freeze, the idempotency gate, and volume overflow.
pub open spec fn onramp_step(
    pre: LedgerView,
    ctx: SettleOnrampView,
    claimed: Seq<u8>,
    amount: u64,
    reference: Seq<u8>,
    now: i64,
) -> SettleOut {
    if claimed != digest_of(reference) {
        SettleOut {
            post: pre,
            result: Err(LedgerError::Franco(FrancoError::ReferenceHashMismatch)),
        }
    } else if amount == 0 {
        SettleOut { post: pre, result: Err(LedgerError::Franco(FrancoError::InvalidAmount)) }
    } else if reference.len() > MAX_REF_BYTES {
        SettleOut { post: pre, result: Err(LedgerError::Franco(FrancoError::ReferenceTooLong)) }
    } else if pre.treasury is None {
        SettleOut { post: pre, result: Err(LedgerError::AccountNotInitialized) }
    } else {
        let t = pre.treasury->Some_0;
        if t.authority != ctx.authority {
            SettleOut { post: pre, result: Err(LedgerError::Franco(FrancoError::Unauthorized)) }
        } else if t.usdc_mint != ctx.usdc_mint {
            SettleOut { post: pre, result: Err(LedgerError::Franco(FrancoError::InvalidMint)) }
        } else if t.treasury_token_account != ctx.treasury_token_account {
            SettleOut {
                post: pre,
                result: Err(LedgerError::Franco(FrancoError::InvalidTreasuryTokenAccount)),
            }
        } else if !has_student(pre.students, ctx.student_owner) {
            SettleOut { post: pre, result: Err(LedgerError::AccountNotInitialized) }
        } else {
            let si = student_idx(pre.students, ctx.student_owner);
            let s = pre.students[si];
            if s.is_frozen {
                SettleOut {
                    post: pre,
                    result: Err(LedgerError::Franco(FrancoError::StudentFrozen)),
                }
            } else if has_record(pre.records, claimed) {
                SettleOut { post: pre, result: Ok(None) }
            } else if s.total_volume + amount > u64::MAX {
                SettleOut {
                    post: pre,
                    result: Err(LedgerError::Franco(FrancoError::MathOverflow)),
                }
            } else {
                let s2 = StudentView { total_volume: (s.total_volume + amount) as u64, ..s };
                let rec = RecordView {
                    initialized: true,
                    sender: treasury_id(),
                    receiver: ctx.student_owner,
                    amount: amount,
                    timestamp: now,
                    kotani_reference: reference,
                    fraud_score: 0,
                    is_flagged: false,
                    bump: LAYOUT_VERSION,
                };
                let ev = EventView::OnRamp {
                    student: ctx.student_owner,
                    amount: amount,
                    reference: reference,
                    timestamp: now,
                };
                let action = ActionView {
                    from: t.treasury_token_account,
                    to: ctx.student_ata,
                    mint: t.usdc_mint,
                    amount: amount,
                    authority: treasury_id(),
                };
                SettleOut {
                    post: LedgerView {
                        students: pre.students.update(si, s2),
                        records: pre.records.push(
                            RecordEntryView { key: claimed, record: rec },
                        ),
                        events: pre.events.push(ev),
                        ..pre
                    },
                    result: Ok(Some(action)),
                }
            }
        }
    }
}

/// Peer transfer: participant to participant, authorized by the sender.
/// Checked in order: digest integrity, positive amount, reference length,
/// presence of both participants, freeze of either, the explicit non-empty
/// reference check, the idempotency gate, and each volume overflow. Both
/// volumes grow independently; a self-transfer counts the amount twice.
pub open spec fn send_step(
    pre: LedgerView,
    ctx: SendUsdcView,
    claimed: Seq<u8>,
    amount: u64,
    reference: Seq<u8>,
    now: i64,
) -> SettleOut {
    if claimed != digest_of(reference) {
        SettleOut {
            post: pre,
            result: Err(LedgerError::Franco(FrancoError::ReferenceHashMismatch)),
        }
    } else if amount == 0 {
        SettleOut { post: pre, result: Err(LedgerError::Franco(FrancoError::InvalidAmount)) }
    } else if reference.len() > MAX_REF_BYTES {
        SettleOut { post: pre, result: Err(LedgerError::Franco(FrancoError::ReferenceTooLong)) }
    } else if !has_student(pre.students, ctx.sender) {
        SettleOut { post: pre, result: Err(LedgerError::AccountNotInitialized) }
    } else if !has_student(pre.students, ctx.receiver) {
        SettleOut { post: pre, result: Err(LedgerError::AccountNotInitialized) }
    } else {
        let si = student_idx(pre.students, ctx.sender);
        let ri = student_idx(pre.students, ctx.receiver);
        let snd = pre.students[si];
        let rcv = pre.students[ri];
        if snd.is_frozen || rcv.is_frozen {
            SettleOut { post: pre, result: Err(LedgerError::Franco(FrancoError::StudentFrozen)) }
        } else if reference.len() == 0 {
            SettleOut {
                post: pre,
                result: Err(LedgerError::Franco(FrancoError::InvalidReference)),
            }
        } else if has_record(pre.records, claimed) {
            SettleOut { post: pre, result: Ok(None) }
        } else if snd.total_volume + amount > u64::MAX {
            SettleOut { post: pre, result: Err(LedgerError::Franco(FrancoError::MathOverflow)) }
        } else {
            let mid = pre.students.update(
                si,
                (StudentView { total_volume: (snd.total_volume + amount) as u64, ..snd }),
            );
            if mid[ri].total_volume + amount > u64::MAX {
                SettleOut {
                    post: pre,
                    result: Err(LedgerError::Franco(FrancoError::MathOverflow)),
                }
            } else {
                let fin = mid.update(
                    ri,
                    (StudentView {
                        total_volume: (mid[ri].total_volume + amount) as u64,
                        ..mid[ri]
                    }),
                );
                let rec = RecordView {
                    initialized: true,
                    sender: ctx.sender,
                    receiver: ctx.receiver,
                    amount: amount,
                    timestamp: now,
                    kotani_reference: reference,
                    fraud_score: 0,
                    is_flagged: false,
                    bump: LAYOUT_VERSION,
                };
                let ev = EventView::Transfer {
                    sender: ctx.sender,
                    receiver: ctx.receiver,
                    amount: amount,
                    reference: reference,
                    timestamp: now,
                };
                let action = ActionView {
                    from: ctx.sender_ata,
                    to: ctx.receiver_ata,
                    mint: ctx.usdc_mint,
                    amount: amount,
                    authority: ctx.sender,
                };
                SettleOut {
                    post: LedgerView {
                        students: fin,
                        records: pre.records.push(
                            RecordEntryView { key: claimed, record: rec },
                        ),
                        events: pre.events.push(ev),
                        ..pre
                    },
                    result: Ok(Some(action)),
                }
            }
        }
    }
}

/// Outbound settlement: a participant's funds to the custodial pool,
/// authorized by the participant. Checked in order: digest integrity,
/// positive amount, reference length, treasury presence and its token
/// descriptor / pool account, participant presence, freeze, the
/// idempotency gate, and volume overflow.
pub open spec fn offramp_step(
    pre: LedgerView,
    ctx: SettleOfframpView,
    claimed: Seq<u8>,
    amount: u64,
    reference: Seq<u8>,
    now: i64,
) -> SettleOut {
    if claimed != digest_of(reference) {
        SettleOut {
            post: pre,
            result: Err(LedgerError::Franco(FrancoError::ReferenceHashMismatch)),
        }
    } else if amount == 0 {
        SettleOut { post: pre, result: Err(LedgerError::Franco(FrancoError::InvalidAmount)) }
    } else if reference.len() > MAX_REF_BYTES {
        SettleOut { post: pre, result: Err(LedgerError::Franco(FrancoError::ReferenceTooLong)) }
    } else if pre.treasury is None {
        SettleOut { post: pre, result: Err(LedgerError::AccountNotInitialized) }
    } else {
        let t = pre.treasury->Some_0;
        if t.usdc_mint != ctx.usdc_mint {
            SettleOut { post: pre, result: Err(LedgerError::Franco(FrancoError::InvalidMint)) }
        } else if t.treasury_token_account != ctx.treasury_token_account {
            SettleOut {
                post: pre,
                result: Err(LedgerError::Franco(FrancoError::InvalidTreasuryTokenAccount)),
            }
        } else if !has_student(pre.students, ctx.owner) {
            SettleOut { post: pre, result: Err(LedgerError::AccountNotInitialized) }
        } else {
            let si = student_idx(pre.students, ctx.owner);
            let s = pre.students[si];
            if s.is_frozen {
                SettleOut {
                    post: pre,
                    result: Err(LedgerError::Franco(FrancoError::StudentFrozen)),
                }
            } else if has_record(pre.records, claimed) {
                SettleOut { post: pre, result: Ok(None) }
            } else if s.total_volume + amount > u64::MAX {
                SettleOut {
                    post: pre,
                    result: Err(LedgerError::Franco(FrancoError::MathOverflow)),
                }
            } else {
                let s2 = StudentView { total_volume: (s.total_volume + amount) as u64, ..s };
                let rec = RecordView {
                    initialized: true,
                    sender: ctx.owner,
                    receiver: treasury_id(),
                    amount: amount,
                    timestamp: now,
                    kotani_reference: reference,
                    fraud_score: 0,
                    is_flagged: false,
                    bump: LAYOUT_VERSION,
                };
                let ev = EventView::OffRamp {
                    student: ctx.owner,
                    amount: amount,
                    reference: reference,
                    timestamp: now,
                };
                let action = ActionView {
                    from: ctx.student_ata,
                    to: t.treasury_token_account,
                    mint: t.usdc_mint,
                    amount: amount,
                    authority: ctx.owner,
                };
                SettleOut {
                    post: LedgerView {
                        students: pre.students.update(si, s2),
                        records: pre.records.push(
                            RecordEntryView { key: claimed, record: rec },
                        ),
                        events: pre.events.push(ev),
                        ..pre
                    },
                    result: Ok(Some(action)),
                }
            }
        }
    }
}

/// Fraud scoring: authority-gated; writes the score into the existing
/// settlement record. A score strictly above the threshold also flags the
/// record and the named participant and emits exactly one notification; a
/// score at or below it updates silently and clears nothing.
pub open spec fn fraud_step(
    pre: LedgerView,
    ctx: UpdateFraudScoreView,
    claimed: Seq<u8>,
    reference: Seq<u8>,
    score: u8,
    now: i64,
) -> PlainOut {
    if claimed != digest_of(reference) {
        PlainOut {
            post: pre,
            result: Err(LedgerError::Franco(FrancoError::ReferenceHashMismatch)),
        }
    } else if reference.len() == 0 {
        PlainOut { post: pre, result: Err(LedgerError::Franco(FrancoError::InvalidReference)) }
    } else if reference.len() > MAX_REF_BYTES {
        PlainOut { post: pre, result: Err(LedgerError::Franco(FrancoError::ReferenceTooLong)) }
    } else if pre.treasury is None {
        PlainOut { post: pre, result: Err(LedgerError::AccountNotInitialized) }
    } else if pre.treasury->Some_0.authority != ctx.authority {
        PlainOut { post: pre, result: Err(LedgerError::Franco(FrancoError::Unauthorized)) }
    } else if !has_record(pre.records, claimed) {
        PlainOut { post: pre, result: Err(LedgerError::AccountNotInitialized) }
    } else if !has_student(pre.students, ctx.student_owner) {
        PlainOut { post: pre, result: Err(LedgerError::AccountNotInitialized) }
    } else {
        let ki = record_idx(pre.records, claimed);
        let e = pre.records[ki];
        let flag = score > FRAUD_THRESHOLD;
        let rec2 = RecordView {
            fraud_score: score,
            is_flagged: e.record.is_flagged || flag,
            ..e.record
        };
        let records2 = pre.records.update(ki, (RecordEntryView { key: e.key, record: rec2 }));
        if flag {
            let si = student_idx(pre.students, ctx.student_owner);
            let s = pre.students[si];
            let s2 = StudentView { flagged: true, ..s };
            let ev = EventView::Fraud {
                student: ctx.student_owner,
                amount: e.record.amount,
                reference: e.record.kotani_reference,
                score: score,
                timestamp: now,
            };
            PlainOut {
                post: LedgerView {
                    students: pre.students.update(si, s2),
                    records: records2,
                    events: pre.events.push(ev),
                    ..pre
                },
                result: Ok(()),
            }
        } else {
            PlainOut { post: LedgerView { records: records2, ..pre }, result: Ok(()) }
        }
    }
}

/// Freezing: authority-gated; sets the one-way frozen flag and emits a
/// notification. No operation clears it.
pub open spec fn freeze_step(
    pre: LedgerView,
    ctx: FreezeStudentView,
    now: i64,
) -> PlainOut {
    if pre.treasury is None {
        PlainOut { post: pre, result: Err(LedgerError::AccountNotInitialized) }
    } else if pre.treasury->Some_0.authority != ctx.authority {
        PlainOut { post: pre, result: Err(LedgerError::Franco(FrancoError::Unauthorized)) }
    } else if !has_student(pre.students, ctx.student_owner) {
        PlainOut { post: pre, result: Err(LedgerError::AccountNotInitialized) }
    } else {
        let si = student_idx(pre.students, ctx.student_owner);
        let s = pre.students[si];
        let s2 = StudentView { is_frozen: true, ..s };
        let ev = EventView::Frozen { student: ctx.student_owner, timestamp: now };
        PlainOut {
            post: LedgerView {
                students: pre.students.update(si, s2),
                events: pre.events.push(ev),
                ..pre
            },
            result: Ok(()),
        }
    }
}

} // verus!
