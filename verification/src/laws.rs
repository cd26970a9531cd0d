//! System-wide laws, proved over the transition functions: digest
//! integrity, replay suppression and idempotency, freeze enforcement,
//! overflow safety, the fraud threshold, and volume monotonicity.

use vstd::prelude::*;

use crate::commitment::digest_of;
use crate::context::{
    FreezeStudentView, SendUsdcView, SettleOfframpView, SettleOnrampView, UpdateFraudScoreView,
};
use crate::errors::{FrancoError, LedgerError};
use crate::state::{
    fraud_step, has_record, has_student, offramp_step, onramp_step, record_idx, send_step,
    student_idx, unique_owners, wf_ledger, LedgerView, FRAUD_THRESHOLD,
};
use crate::MAX_REF_BYTES;

verus! {

/// The checks of inbound settlement that precede the freeze check and the
/// idempotency gate: digest integrity, a positive amount, a bounded
/// reference, and a treasury whose authority, token descriptor and pool
/// account match the call, with the participant registered.
pub open spec fn onramp_admissible(
    pre: LedgerView,
    ctx: SettleOnrampView,
    claimed: Seq<u8>,
    amount: u64,
    reference: Seq<u8>,
) -> bool {
    &&& claimed == digest_of(reference)
    &&& amount > 0
    &&& reference.len() <= MAX_REF_BYTES
    &&& pre.treasury is Some
    &&& pre.treasury->Some_0.authority == ctx.authority
    &&& pre.treasury->Some_0.usdc_mint == ctx.usdc_mint
    &&& pre.treasury->Some_0.treasury_token_account == ctx.treasury_token_account
    &&& has_student(pre.students, ctx.student_owner)
}

/// The corresponding checks of a peer transfer: digest integrity, a
/// positive amount, a non-empty bounded reference, and both participants
/// registered.
pub open spec fn send_admissible(
    pre: LedgerView,
    ctx: SendUsdcView,
    claimed: Seq<u8>,
    amount: u64,
    reference: Seq<u8>,
) -> bool {
    &&& claimed == digest_of(reference)
    &&& amount > 0
    &&& 0 < reference.len() <= MAX_REF_BYTES
    &&& has_student(pre.students, ctx.sender)
    &&& has_student(pre.students, ctx.receiver)
}

/// The corresponding checks of outbound settlement.
pub open spec fn offramp_admissible(
    pre: LedgerView,
    ctx: SettleOfframpView,
    claimed: Seq<u8>,
    amount: u64,
    reference: Seq<u8>,
) -> bool {
    &&& claimed == digest_of(reference)
    &&& amount > 0
    &&& reference.len() <= MAX_REF_BYTES
    &&& pre.treasury is Some
    &&& pre.treasury->Some_0.usdc_mint == ctx.usdc_mint
    &&& pre.treasury->Some_0.treasury_token_account == ctx.treasury_token_account
    &&& has_student(pre.students, ctx.owner)
}

/// The checks of fraud scoring that precede the record update: digest
/// integrity, a non-empty bounded reference, the controlling authority,
/// an existing record under the digest, and a registered participant.
pub open spec fn fraud_admissible(
    pre: LedgerView,
    ctx: UpdateFraudScoreView,
    claimed: Seq<u8>,
    reference: Seq<u8>,
) -> bool {
    &&& claimed == digest_of(reference)
    &&& 0 < reference.len() <= MAX_REF_BYTES
    &&& pre.treasury is Some
    &&& pre.treasury->Some_0.authority == ctx.authority
    &&& has_record(pre.records, claimed)
    &&& has_student(pre.students, ctx.student_owner)
}

/// Digest integrity: a claimed digest that differs from the recomputed
/// digest of the supplied reference fails every settlement and scoring
/// operation with `ReferenceHashMismatch`, before any other check, with no
/// state change — whatever the other inputs are.
pub proof fn lemma_digest_gate(
    pre: LedgerView,
    on_ctx: SettleOnrampView,
    send_ctx: SendUsdcView,
    off_ctx: SettleOfframpView,
    fraud_ctx: UpdateFraudScoreView,
    claimed: Seq<u8>,
    amount: u64,
    reference: Seq<u8>,
    score: u8,
    now: i64,
)
    requires
        claimed != digest_of(reference),
    ensures
        onramp_step(pre, on_ctx, claimed, amount, reference, now).post == pre,
        onramp_step(pre, on_ctx, claimed, amount, reference, now).result == Err::<
            Option<crate::context::ActionView>,
            LedgerError,
        >(LedgerError::Franco(FrancoError::ReferenceHashMismatch)),
        send_step(pre, send_ctx, claimed, amount, reference, now).post == pre,
        send_step(pre, send_ctx, claimed, amount, reference, now).result == Err::<
            Option<crate::context::ActionView>,
            LedgerError,
        >(LedgerError::Franco(FrancoError::ReferenceHashMismatch)),
        offramp_step(pre, off_ctx, claimed, amount, reference, now).post == pre,
        offramp_step(pre, off_ctx, claimed, amount, reference, now).result == Err::<
            Option<crate::context::ActionView>,
            LedgerError,
        >(LedgerError::Franco(FrancoError::ReferenceHashMismatch)),
        fraud_step(pre, fraud_ctx, claimed, reference, score, now).post == pre,
        fraud_step(pre, fraud_ctx, claimed, reference, score, now).result == Err::<
            (),
            LedgerError,
        >(LedgerError::Franco(FrancoError::ReferenceHashMismatch)),
{
}

/// Replay suppression, inbound: once a record sits under the digest, an
/// admissible inbound settlement of that reference succeeds with no
/// transfer and no state change.
pub proof fn lemma_onramp_replay(
    pre: LedgerView,
    ctx: SettleOnrampView,
    claimed: Seq<u8>,
    amount: u64,
    reference: Seq<u8>,
    now: i64,
)
    requires
        onramp_admissible(pre, ctx, claimed, amount, reference),
        !pre.students[student_idx(pre.students, ctx.student_owner)].is_frozen,
        has_record(pre.records, claimed),
    ensures
        onramp_step(pre, ctx, claimed, amount, reference, now).post == pre,
        onramp_step(pre, ctx, claimed, amount, reference, now).result == Ok::<
            Option<crate::context::ActionView>,
            LedgerError,
        >(None),
{
}

/// Replay suppression, peer transfer.
pub proof fn lemma_send_replay(
    pre: LedgerView,
    ctx: SendUsdcView,
    claimed: Seq<u8>,
    amount: u64,
    reference: Seq<u8>,
    now: i64,
)
    requires
        send_admissible(pre, ctx, claimed, amount, reference),
        !pre.students[student_idx(pre.students, ctx.sender)].is_frozen,
        !pre.students[student_idx(pre.students, ctx.receiver)].is_frozen,
        has_record(pre.records, claimed),
    ensures
        send_step(pre, ctx, claimed, amount, reference, now).post == pre,
        send_step(pre, ctx, claimed, amount, reference, now).result == Ok::<
            Option<crate::context::ActionView>,
            LedgerError,
        >(None),
{
}

/// Replay suppression, outbound.
pub proof fn lemma_offramp_replay(
    pre: LedgerView,
    ctx: SettleOfframpView,
    claimed: Seq<u8>,
    amount: u64,
    reference: Seq<u8>,
    now: i64,
)
    requires
        offramp_admissible(pre, ctx, claimed, amount, reference),
        !pre.students[student_idx(pre.students, ctx.owner)].is_frozen,
        has_record(pre.records, claimed),
    ensures
        offramp_step(pre, ctx, claimed, amount, reference, now).post == pre,
        offramp_step(pre, ctx, claimed, amount, reference, now).result == Ok::<
            Option<crate::context::ActionView>,
            LedgerError,
        >(None),
{
}

/// Freeze enforcement: an admissible settlement of any flow that names a
/// frozen participant fails with `StudentFrozen` and changes nothing,
/// whatever the amount and reference are (within the validity the earlier
/// checks demand).
pub proof fn lemma_freeze_blocks_onramp(
    pre: LedgerView,
    ctx: SettleOnrampView,
    claimed: Seq<u8>,
    amount: u64,
    reference: Seq<u8>,
    now: i64,
)
    requires
        onramp_admissible(pre, ctx, claimed, amount, reference),
        pre.students[student_idx(pre.students, ctx.student_owner)].is_frozen,
    ensures
        onramp_step(pre, ctx, claimed, amount, reference, now).post == pre,
        onramp_step(pre, ctx, claimed, amount, reference, now).result == Err::<
            Option<crate::context::ActionView>,
            LedgerError,
        >(LedgerError::Franco(FrancoError::StudentFrozen)),
{
}

/// Freeze enforcement for a peer transfer: either end frozen blocks it.
pub proof fn lemma_freeze_blocks_send(
    pre: LedgerView,
    ctx: SendUsdcView,
    claimed: Seq<u8>,
    amount: u64,
    reference: Seq<u8>,
    now: i64,
)
    requires
        send_admissible(pre, ctx, claimed, amount, reference),
        pre.students[student_idx(pre.students, ctx.sender)].is_frozen || pre.students[student_idx(
            pre.students,
            ctx.receiver,
        )].is_frozen,
    ensures
        send_step(pre, ctx, claimed, amount, reference, now).post == pre,
        send_step(pre, ctx, claimed, amount, reference, now).result == Err::<
            Option<crate::context::ActionView>,
            LedgerError,
        >(LedgerError::Franco(FrancoError::StudentFrozen)),
{
}

/// Freeze enforcement, outbound.
pub proof fn lemma_freeze_blocks_offramp(
    pre: LedgerView,
    ctx: SettleOfframpView,
    claimed: Seq<u8>,
    amount: u64,
    reference: Seq<u8>,
    now: i64,
)
    requires
        offramp_admissible(pre, ctx, claimed, amount, reference),
        pre.students[student_idx(pre.students, ctx.owner)].is_frozen,
    ensures
        offramp_step(pre, ctx, claimed, amount, reference, now).post == pre,
        offramp_step(pre, ctx, claimed, amount, reference, now).result == Err::<
            Option<crate::context::ActionView>,
            LedgerError,
        >(LedgerError::Franco(FrancoError::StudentFrozen)),
{
}

/// Overflow safety, inbound: a participant whose volume would pass
/// `u64::MAX` must fail settlement with `MathOverflow` and keep its volume
/// — the whole state — unchanged.
pub proof fn lemma_onramp_overflow(
    pre: LedgerView,
    ctx: SettleOnrampView,
    claimed: Seq<u8>,
    amount: u64,
    reference: Seq<u8>,
    now: i64,
)
    requires
        onramp_admissible(pre, ctx, claimed, amount, reference),
        !pre.students[student_idx(pre.students, ctx.student_owner)].is_frozen,
        !has_record(pre.records, claimed),
        pre.students[student_idx(pre.students, ctx.student_owner)].total_volume + amount
            > u64::MAX,
    ensures
        onramp_step(pre, ctx, claimed, amount, reference, now).post == pre,
        onramp_step(pre, ctx, claimed, amount, reference, now).result == Err::<
            Option<crate::context::ActionView>,
            LedgerError,
        >(LedgerError::Franco(FrancoError::MathOverflow)),
{
}

/// Overflow safety, outbound.
pub proof fn lemma_offramp_overflow(
    pre: LedgerView,
    ctx: SettleOfframpView,
    claimed: Seq<u8>,
    amount: u64,
    reference: Seq<u8>,
    now: i64,
)
    requires
        offramp_admissible(pre, ctx, claimed, amount, reference),
        !pre.students[student_idx(pre.students, ctx.owner)].is_frozen,
        !has_record(pre.records, claimed),
        pre.students[student_idx(pre.students, ctx.owner)].total_volume + amount > u64::MAX,
    ensures
        offramp_step(pre, ctx, claimed, amount, reference, now).post == pre,
        offramp_step(pre, ctx, claimed, amount, reference, now).result == Err::<
            Option<crate::context::ActionView>,
            LedgerError,
        >(LedgerError::Franco(FrancoError::MathOverflow)),
{
}

/// The fraud threshold: an admissible scoring at or below the threshold
/// records the score and neither flags nor notifies; one strictly above
/// flags the record and the named participant and emits exactly one
/// notification. The score alone is overwritten; an earlier flag is never
/// cleared.
pub proof fn lemma_fraud_threshold(
    pre: LedgerView,
    ctx: UpdateFraudScoreView,
    claimed: Seq<u8>,
    reference: Seq<u8>,
    score: u8,
    now: i64,
)
    requires
        wf_ledger(pre),
        fraud_admissible(pre, ctx, claimed, reference),
    ensures
        ({
            let out = fraud_step(pre, ctx, claimed, reference, score, now);
            let ki = record_idx(pre.records, claimed);
            let si = student_idx(pre.students, ctx.student_owner);
            &&& out.result == Ok::<(), LedgerError>(())
            &&& out.post.records[ki].record.fraud_score == score
            &&& out.post.records.len() == pre.records.len()
            &&& (score <= FRAUD_THRESHOLD ==> {
                &&& out.post.events == pre.events
                &&& out.post.students == pre.students
                &&& out.post.records[ki].record.is_flagged == pre.records[ki].record.is_flagged
            })
            &&& (score > FRAUD_THRESHOLD ==> {
                &&& out.post.records[ki].record.is_flagged
                &&& out.post.students[si].flagged
                &&& out.post.events.len() == pre.events.len() + 1
                &&& out.post.events.last() == (crate::events::EventView::Fraud {
                    student: ctx.student_owner,
                    amount: pre.records[ki].record.amount,
                    reference: pre.records[ki].record.kotani_reference,
                    score: score,
                    timestamp: now,
                })
            })
        }),
{
}

/// Overflow safety, peer transfer: overflow of either volume counter —
/// the sender's, or the receiver's after the sender's increment — fails
/// the whole transfer with `MathOverflow` and changes nothing.
pub proof fn lemma_send_overflow(
    pre: LedgerView,
    ctx: SendUsdcView,
    claimed: Seq<u8>,
    amount: u64,
    reference: Seq<u8>,
    now: i64,
)
    requires
        wf_ledger(pre),
        send_admissible(pre, ctx, claimed, amount, reference),
        !pre.students[student_idx(pre.students, ctx.sender)].is_frozen,
        !pre.students[student_idx(pre.students, ctx.receiver)].is_frozen,
        !has_record(pre.records, claimed),
        pre.students[student_idx(pre.students, ctx.sender)].total_volume + amount > u64::MAX || (
        if ctx.receiver == ctx.sender {
            pre.students[student_idx(pre.students, ctx.sender)].total_volume + amount + amount
        } else {
            pre.students[student_idx(pre.students, ctx.receiver)].total_volume + amount
        }) > u64::MAX,
    ensures
        send_step(pre, ctx, claimed, amount, reference, now).post == pre,
        send_step(pre, ctx, claimed, amount, reference, now).result == Err::<
            Option<crate::context::ActionView>,
            LedgerError,
        >(LedgerError::Franco(FrancoError::MathOverflow)),
{
    let si = student_idx(pre.students, ctx.sender);
    let ri = student_idx(pre.students, ctx.receiver);
    if ri == si {
        assert(pre.students[ri].owner == ctx.receiver);
        assert(pre.students[si].owner == ctx.sender);
    }
    if pre.students[si].total_volume + amount <= u64::MAX {
        let snd = pre.students[si];
        let mid = pre.students.update(
            si,
            (crate::accounts::StudentView {
                total_volume: (snd.total_volume + amount) as u64,
                ..snd
            }),
        );
        if ctx.receiver == ctx.sender {
            lemma_student_idx_unique_eq(pre.students, ctx.sender, ctx.receiver);
        }
        assert(mid[ri].total_volume + amount > u64::MAX);
    }
}

/// Under unique owners, equal owner identities name the same position.
proof fn lemma_student_idx_unique_eq(
    students: Seq<crate::accounts::StudentView>,
    a: Seq<u8>,
    b: Seq<u8>,
)
    requires
        unique_owners(students),
        has_student(students, a),
        a == b,
    ensures
        student_idx(students, a) == student_idx(students, b),
{
}

/// Idempotency, inbound: a settlement that commits binds its reference;
/// resubmitting the same call against the new state — at any later time —
/// succeeds with no transfer, no volume change, no new record and no new
/// notification.
pub proof fn lemma_onramp_idempotent(
    pre: LedgerView,
    ctx: SettleOnrampView,
    claimed: Seq<u8>,
    amount: u64,
    reference: Seq<u8>,
    now: i64,
    now2: i64,
)
    requires
        wf_ledger(pre),
        onramp_step(pre, ctx, claimed, amount, reference, now).result matches Ok(Some(_)),
    ensures
        ({
            let post = onramp_step(pre, ctx, claimed, amount, reference, now).post;
            &&& onramp_step(post, ctx, claimed, amount, reference, now2).post == post
            &&& onramp_step(post, ctx, claimed, amount, reference, now2).result == Ok::<
                Option<crate::context::ActionView>,
                LedgerError,
            >(None)
        }),
{
    let post = onramp_step(pre, ctx, claimed, amount, reference, now).post;
    let si = student_idx(pre.students, ctx.student_owner);
    assert(post.students[si].owner == ctx.student_owner);
    assert(has_student(post.students, ctx.student_owner));
    assert(unique_owners(post.students));
    crate::state::lemma_student_idx_is(post.students, ctx.student_owner, si);
    assert(!post.students[si].is_frozen);
    assert(post.records[pre.records.len() as int].key == claimed);
    assert(has_record(post.records, claimed));
    lemma_onramp_replay(post, ctx, claimed, amount, reference, now2);
}

/// Idempotency, peer transfer.
pub proof fn lemma_send_idempotent(
    pre: LedgerView,
    ctx: SendUsdcView,
    claimed: Seq<u8>,
    amount: u64,
    reference: Seq<u8>,
    now: i64,
    now2: i64,
)
    requires
        wf_ledger(pre),
        send_step(pre, ctx, claimed, amount, reference, now).result matches Ok(Some(_)),
    ensures
        ({
            let post = send_step(pre, ctx, claimed, amount, reference, now).post;
            &&& send_step(post, ctx, claimed, amount, reference, now2).post == post
            &&& send_step(post, ctx, claimed, amount, reference, now2).result == Ok::<
                Option<crate::context::ActionView>,
                LedgerError,
            >(None)
        }),
{
    let post = send_step(pre, ctx, claimed, amount, reference, now).post;
    let si = student_idx(pre.students, ctx.sender);
    let ri = student_idx(pre.students, ctx.receiver);
    assert(post.students[si].owner == ctx.sender);
    assert(post.students[ri].owner == ctx.receiver);
    assert(has_student(post.students, ctx.sender));
    assert(has_student(post.students, ctx.receiver));
    assert(unique_owners(post.students));
    crate::state::lemma_student_idx_is(post.students, ctx.sender, si);
    crate::state::lemma_student_idx_is(post.students, ctx.receiver, ri);
    assert(!post.students[si].is_frozen);
    assert(!post.students[ri].is_frozen);
    assert(post.records[pre.records.len() as int].key == claimed);
    assert(has_record(post.records, claimed));
    lemma_send_replay(post, ctx, claimed, amount, reference, now2);
}

/// Idempotency, outbound.
pub proof fn lemma_offramp_idempotent(
    pre: LedgerView,
    ctx: SettleOfframpView,
    claimed: Seq<u8>,
    amount: u64,
    reference: Seq<u8>,
    now: i64,
    now2: i64,
)
    requires
        wf_ledger(pre),
        offramp_step(pre, ctx, claimed, amount, reference, now).result matches Ok(Some(_)),
    ensures
        ({
            let post = offramp_step(pre, ctx, claimed, amount, reference, now).post;
            &&& offramp_step(post, ctx, claimed, amount, reference, now2).post == post
            &&& offramp_step(post, ctx, claimed, amount, reference, now2).result == Ok::<
                Option<crate::context::ActionView>,
                LedgerError,
            >(None)
        }),
{
    let post = offramp_step(pre, ctx, claimed, amount, reference, now).post;
    let si = student_idx(pre.students, ctx.owner);
    assert(post.students[si].owner == ctx.owner);
    assert(has_student(post.students, ctx.owner));
    assert(unique_owners(post.students));
    crate::state::lemma_student_idx_is(post.students, ctx.owner, si);
    assert(!post.students[si].is_frozen);
    assert(post.records[pre.records.len() as int].key == claimed);
    assert(has_record(post.records, claimed));
    lemma_offramp_replay(post, ctx, claimed, amount, reference, now2);
}

/// Key uniqueness across flows: all three settlement flows contend for the
/// one record slot of a reference, so once an inbound settlement commits a
/// reference, an admissible outbound settlement or peer transfer of the
/// same reference is suppressed too.
pub proof fn lemma_cross_flow_suppressed(
    pre: LedgerView,
    ctx: SettleOnrampView,
    off_ctx: SettleOfframpView,
    send_ctx: SendUsdcView,
    claimed: Seq<u8>,
    amount: u64,
    amount2: u64,
    reference: Seq<u8>,
    now: i64,
    now2: i64,
)
    requires
        wf_ledger(pre),
        onramp_step(pre, ctx, claimed, amount, reference, now).result matches Ok(Some(_)),
        ({
            let post = onramp_step(pre, ctx, claimed, amount, reference, now).post;
            &&& offramp_admissible(post, off_ctx, claimed, amount2, reference)
            &&& !post.students[student_idx(post.students, off_ctx.owner)].is_frozen
            &&& send_admissible(post, send_ctx, claimed, amount2, reference)
            &&& !post.students[student_idx(post.students, send_ctx.sender)].is_frozen
            &&& !post.students[student_idx(post.students, send_ctx.receiver)].is_frozen
        }),
    ensures
        ({
            let post = onramp_step(pre, ctx, claimed, amount, reference, now).post;
            &&& offramp_step(post, off_ctx, claimed, amount2, reference, now2).post == post
            &&& offramp_step(post, off_ctx, claimed, amount2, reference, now2).result == Ok::<
                Option<crate::context::ActionView>,
                LedgerError,
            >(None)
            &&& send_step(post, send_ctx, claimed, amount2, reference, now2).post == post
            &&& send_step(post, send_ctx, claimed, amount2, reference, now2).result == Ok::<
                Option<crate::context::ActionView>,
                LedgerError,
            >(None)
        }),
{
    let post = onramp_step(pre, ctx, claimed, amount, reference, now).post;
    assert(post.records[pre.records.len() as int].key == claimed);
    assert(has_record(post.records, claimed));
    lemma_offramp_replay(post, off_ctx, claimed, amount2, reference, now2);
    lemma_send_replay(post, send_ctx, claimed, amount2, reference, now2);
}

/// Volume monotonicity, inbound: no participant's cumulative volume ever
/// decreases, and no identity changes, whatever the inputs.
pub proof fn lemma_onramp_volume_monotonic(
    pre: LedgerView,
    ctx: SettleOnrampView,
    claimed: Seq<u8>,
    amount: u64,
    reference: Seq<u8>,
    now: i64,
)
    ensures
        ({
            let post = onramp_step(pre, ctx, claimed, amount, reference, now).post;
            &&& post.students.len() == pre.students.len()
            &&& forall|i: int|
                0 <= i < pre.students.len() ==> (#[trigger] post.students[i]).owner
                    == pre.students[i].owner && post.students[i].total_volume
                    >= pre.students[i].total_volume
        }),
{
}

/// Volume monotonicity, peer transfer.
pub proof fn lemma_send_volume_monotonic(
    pre: LedgerView,
    ctx: SendUsdcView,
    claimed: Seq<u8>,
    amount: u64,
    reference: Seq<u8>,
    now: i64,
)
    ensures
        ({
            let post = send_step(pre, ctx, claimed, amount, reference, now).post;
            &&& post.students.len() == pre.students.len()
            &&& forall|i: int|
                0 <= i < pre.students.len() ==> (#[trigger] post.students[i]).owner
                    == pre.students[i].owner && post.students[i].total_volume
                    >= pre.students[i].total_volume
        }),
{
}

/// Volume monotonicity, outbound.
pub proof fn lemma_offramp_volume_monotonic(
    pre: LedgerView,
    ctx: SettleOfframpView,
    claimed: Seq<u8>,
    amount: u64,
    reference: Seq<u8>,
    now: i64,
)
    ensures
        ({
            let post = offramp_step(pre, ctx, claimed, amount, reference, now).post;
            &&& post.students.len() == pre.students.len()
            &&& forall|i: int|
                0 <= i < pre.students.len() ==> (#[trigger] post.students[i]).owner
                    == pre.students[i].owner && post.students[i].total_volume
                    >= pre.students[i].total_volume
        }),
{
}

/// Scoring and freezing write flags only: they never touch a volume
/// counter.
pub proof fn lemma_controls_keep_volumes(
    pre: LedgerView,
    fraud_ctx: UpdateFraudScoreView,
    freeze_ctx: FreezeStudentView,
    claimed: Seq<u8>,
    reference: Seq<u8>,
    score: u8,
    now: i64,
)
    ensures
        ({
            let fpost = fraud_step(pre, fraud_ctx, claimed, reference, score, now).post;
            let zpost = crate::state::freeze_step(pre, freeze_ctx, now).post;
            &&& fpost.students.len() == pre.students.len()
            &&& forall|i: int|
                0 <= i < pre.students.len() ==> (#[trigger] fpost.students[i]).owner
                    == pre.students[i].owner && fpost.students[i].total_volume
                    == pre.students[i].total_volume
            &&& zpost.students.len() == pre.students.len()
            &&& forall|i: int|
                0 <= i < pre.students.len() ==> (#[trigger] zpost.students[i]).owner
                    == pre.students[i].owner && zpost.students[i].total_volume
                    == pre.students[i].total_volume
        }),
{
}

} // verus!
