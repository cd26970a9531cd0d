//! The executable ledger. Each operation performs exactly the transition
//! its step function in `state` gives: checks first, in order, with no
//! state change on failure; then the idempotency gate; then the commit,
//! which hands the host the external transfer to perform.

use vstd::prelude::*;

use crate::accounts::{StudentAccount, TransactionRecord, TreasuryAccount, LAYOUT_VERSION};
use crate::commitment::digest_matches;
use crate::context::{
    FreezeStudent, InitializeTreasury, RegisterStudent, SendUsdc, SettleOfframp, SettleOnramp,
    TransferAction, UpdateFraudScore,
};
use crate::errors::{FrancoError, LedgerError};
use crate::events::{
    Event, FraudFlagged, OffRampSettled, OnRampSettled, StudentFrozen, StudentRegistered,
    TransferExecuted,
};
use crate::state::{
    freeze_step, fraud_step, has_record, has_student, init_treasury_step, lemma_record_idx_is,
    lemma_student_idx_is, offramp_step, onramp_step, record_idx, register_step, send_step,
    student_idx, treasury_id, wf_ledger, LedgerView, RecordEntryView,
};
use crate::{bytes_eq, clone_bytes, MAX_COUNTRY_BYTES, MAX_REF_BYTES};

verus! {

/// One stored settlement record with its storage key, the digest of its
/// reference.
#[derive(Clone, Debug)]
pub struct RecordEntry {
    pub key: Vec<u8>,
    pub record: TransactionRecord,
}

impl View for RecordEntry {
    type V = RecordEntryView;

    open spec fn view(&self) -> RecordEntryView {
        RecordEntryView { key: self.key@, record: self.record@ }
    }
}

/// The fixed well-known key of the treasury singleton.
pub fn treasury_key() -> (r: Vec<u8>)
    ensures
        r@ == treasury_id(),
{
    let mut v: Vec<u8> = Vec::new();
    v.push(116u8);
    v.push(114u8);
    v.push(101u8);
    v.push(97u8);
    v.push(115u8);
    v.push(117u8);
    v.push(114u8);
    v.push(121u8);
    proof {
        assert(v@ =~= treasury_id());
    }
    v
}

/// The whole system state: the treasury singleton, the participant
/// registry, the settlement records keyed by reference digest, and the
/// append-only event log.
#[derive(Debug)]
pub struct Ledger {
    pub treasury: Option<TreasuryAccount>,
    pub students: Vec<StudentAccount>,
    pub records: Vec<RecordEntry>,
    pub events: Vec<Event>,
}

impl View for Ledger {
    type V = LedgerView;

    open spec fn view(&self) -> LedgerView {
        LedgerView {
            treasury: match self.treasury {
                Some(t) => Some(t@),
                None => None,
            },
            students: self.students@.map_values(|s: StudentAccount| s@),
            records: self.records@.map_values(|e: RecordEntry| e@),
            events: self.events@.map_values(|e: Event| e@),
        }
    }
}

/// The view of a settlement result, for stating contracts.
pub open spec fn settle_result_view(
    r: Result<Option<TransferAction>, LedgerError>,
) -> Result<Option<crate::context::ActionView>, LedgerError> {
    match r {
        Ok(None) => Ok(None),
        Ok(Some(a)) => Ok(Some(a@)),
        Err(e) => Err(e),
    }
}

impl Ledger {
    /// The ledger's invariant; established by `new` and preserved by every
    /// operation.
    pub open spec fn wf(&self) -> bool {
        wf_ledger(self@)
    }

    /// An empty ledger: no treasury, no participants, no records, no
    /// events.
    pub fn new() -> (r: Ledger)
        ensures
            r.wf(),
            r@.treasury is None,
            r@.students == Seq::<crate::accounts::StudentView>::empty(),
            r@.records == Seq::<RecordEntryView>::empty(),
            r@.events == Seq::<crate::events::EventView>::empty(),
    {
        let r = Ledger {
            treasury: None,
            students: Vec::new(),
            records: Vec::new(),
            events: Vec::new(),
        };
        proof {
            assert(r@.students =~= Seq::<crate::accounts::StudentView>::empty());
            assert(r@.records =~= Seq::<RecordEntryView>::empty());
            assert(r@.events =~= Seq::<crate::events::EventView>::empty());
        }
        r
    }

    /// Position of the participant owned by `owner`, if registered.
    fn find_student(&self, owner: &Vec<u8>) -> (r: Option<usize>)
        ensures
            match r {
                Some(i) => i < self@.students.len() && self@.students[i as int].owner == owner@,
                None => !has_student(self@.students, owner@),
            },
    {
        let mut i: usize = 0;
        while i < self.students.len()
            invariant
                0 <= i <= self.students.len(),
                forall|j: int| 0 <= j < i ==> self@.students[j].owner != owner@,
            decreases self.students.len() - i,
        {
            if bytes_eq(&self.students[i].owner, owner) {
                return Some(i);
            }
            i += 1;
        }
        None
    }

    /// Position of the settlement record stored under `key`, if any.
    fn find_record(&self, key: &Vec<u8>) -> (r: Option<usize>)
        ensures
            match r {
                Some(i) => i < self@.records.len() && self@.records[i as int].key == key@,
                None => !has_record(self@.records, key@),
            },
    {
        let mut i: usize = 0;
        while i < self.records.len()
            invariant
                0 <= i <= self.records.len(),
                forall|j: int| 0 <= j < i ==> self@.records[j].key != key@,
            decreases self.records.len() - i,
        {
            if bytes_eq(&self.records[i].key, key) {
                return Some(i);
            }
            i += 1;
        }
        None
    }

    /// Creates the treasury singleton. Fails if it already exists (the
    /// fixed key collides) or if the fee is above 10000 basis points.
    pub fn initialize_treasury(&mut self, ctx: &InitializeTreasury, fee_bps: u16) -> (r: Result<
        (),
        LedgerError,
    >)
        requires
            old(self).wf(),
        ensures
            final(self).wf(),
            final(self)@ == init_treasury_step(old(self)@, ctx@, fee_bps).post,
            r == init_treasury_step(old(self)@, ctx@, fee_bps).result,
    {
        if self.treasury.is_some() {
            return Err(LedgerError::AccountAlreadyInUse);
        }
        if fee_bps > 10000 {
            return Err(LedgerError::Franco(FrancoError::InvalidFeeBps));
        }
        let t = TreasuryAccount {
            authority: clone_bytes(&ctx.authority),
            usdc_mint: clone_bytes(&ctx.usdc_mint),
            treasury_token_account: clone_bytes(&ctx.treasury_token_account),
            fee_bps: fee_bps,
            bump: LAYOUT_VERSION,
        };
        self.treasury = Some(t);
        proof {
            assert(self@ =~= init_treasury_step(old(self)@, ctx@, fee_bps).post);
        }
        Ok(())
    }

    /// Registers a participant. Fails if the identity is already
    /// registered (create-if-absent collides) or the country code is over
    /// `MAX_COUNTRY_BYTES` bytes; otherwise appends the new participant
    /// and a registration notification.
    pub fn register_student(
        &mut self,
        ctx: &RegisterStudent,
        country: &Vec<u8>,
        now: i64,
    ) -> (r: Result<(), LedgerError>)
        requires
            old(self).wf(),
        ensures
            final(self).wf(),
            final(self)@ == register_step(old(self)@, ctx@, country@, now).post,
            r == register_step(old(self)@, ctx@, country@, now).result,
    {
        match self.find_student(&ctx.owner) {
            Some(i) => {
                proof {
                    assert(has_student(self@.students, ctx.owner@));
                }
                return Err(LedgerError::AccountAlreadyInUse);
            },
            None => {},
        }
        if country.len() > MAX_COUNTRY_BYTES {
            return Err(LedgerError::Franco(FrancoError::CountryTooLong));
        }
        let s = StudentAccount {
            owner: clone_bytes(&ctx.owner),
            country: clone_bytes(country),
            is_frozen: false,
            total_volume: 0,
            flagged: false,
            bump: LAYOUT_VERSION,
        };
        self.students.push(s);
        self.events.push(
            Event::Registered(
                StudentRegistered {
                    owner: clone_bytes(&ctx.owner),
                    country: clone_bytes(country),
                    timestamp: now,
                },
            ),
        );
        proof {
            let step = register_step(old(self)@, ctx@, country@, now);
            assert(self@.students =~= step.post.students);
            assert(self@.events =~= step.post.events);
            assert(self@.records =~= step.post.records);
            assert(self@ =~= step.post);
        }
        Ok(())
    }

    /// Inbound settlement: credits a participant from the custodial pool.
    /// On a fresh reference it increments the participant's volume,
    /// persists the settlement record under the digest, emits a
    /// notification, and returns the transfer the host must perform; on a
    /// replayed reference it succeeds with no transfer and no change.
    pub fn settle_onramp(
        &mut self,
        ctx: &SettleOnramp,
        reference_hash: &Vec<u8>,
        amount: u64,
        kotani_reference: &Vec<u8>,
        now: i64,
    ) -> (r: Result<Option<TransferAction>, LedgerError>)
        requires
            old(self).wf(),
        ensures
            final(self).wf(),
            final(self)@ == onramp_step(
                old(self)@,
                ctx@,
                reference_hash@,
                amount,
                kotani_reference@,
                now,
            ).post,
            settle_result_view(r) == onramp_step(
                old(self)@,
                ctx@,
                reference_hash@,
                amount,
                kotani_reference@,
                now,
            ).result,
    {
        if !digest_matches(reference_hash, kotani_reference) {
            return Err(LedgerError::Franco(FrancoError::ReferenceHashMismatch));
        }
        if amount == 0 {
            return Err(LedgerError::Franco(FrancoError::InvalidAmount));
        }
        if kotani_reference.len() > MAX_REF_BYTES {
            return Err(LedgerError::Franco(FrancoError::ReferenceTooLong));
        }
        let (pool, mint) = match &self.treasury {
            None => {
                return Err(LedgerError::AccountNotInitialized);
            },
            Some(t) => {
                if !bytes_eq(&t.authority, &ctx.authority) {
                    return Err(LedgerError::Franco(FrancoError::Unauthorized));
                }
                if !bytes_eq(&t.usdc_mint, &ctx.usdc_mint) {
                    return Err(LedgerError::Franco(FrancoError::InvalidMint));
                }
                if !bytes_eq(&t.treasury_token_account, &ctx.treasury_token_account) {
                    return Err(LedgerError::Franco(FrancoError::InvalidTreasuryTokenAccount));
                }
                (clone_bytes(&t.treasury_token_account), clone_bytes(&t.usdc_mint))
            },
        };
        let si = match self.find_student(&ctx.student_owner) {
            None => {
                return Err(LedgerError::AccountNotInitialized);
            },
            Some(i) => i,
        };
        proof {
            lemma_student_idx_is(self@.students, ctx.student_owner@, si as int);
        }
        if self.students[si].is_frozen {
            return Err(LedgerError::Franco(FrancoError::StudentFrozen));
        }
        match self.find_record(reference_hash) {
            Some(ki) => {
                proof {
                    assert(has_record(self@.records, reference_hash@));
                }
                return Ok(None);
            },
            None => {},
        }
        let vol = self.students[si].total_volume;
        if amount > u64::MAX - vol {
            return Err(LedgerError::Franco(FrancoError::MathOverflow));
        }
        self.students[si].total_volume = vol + amount;
        let rec = TransactionRecord {
            initialized: true,
            sender: treasury_key(),
            receiver: clone_bytes(&ctx.student_owner),
            amount: amount,
            timestamp: now,
            kotani_reference: clone_bytes(kotani_reference),
            fraud_score: 0,
            is_flagged: false,
            bump: LAYOUT_VERSION,
        };
        self.records.push(RecordEntry { key: clone_bytes(reference_hash), record: rec });
        self.events.push(
            Event::OnRamp(
                OnRampSettled {
                    student: clone_bytes(&ctx.student_owner),
                    amount: amount,
                    reference: clone_bytes(kotani_reference),
                    timestamp: now,
                },
            ),
        );
        let action = TransferAction {
            from: pool,
            to: clone_bytes(&ctx.student_ata),
            mint: mint,
            amount: amount,
            authority: treasury_key(),
        };
        proof {
            let step = onramp_step(
                old(self)@,
                ctx@,
                reference_hash@,
                amount,
                kotani_reference@,
                now,
            );
            assert(self@.students =~= step.post.students);
            assert(self@.records =~= step.post.records);
            assert(self@.events =~= step.post.events);
            assert(self@ =~= step.post);
        }
        Ok(Some(action))
    }

    /// Outbound settlement: moves a participant's funds to the custodial
    /// pool, authorized by the participant. Fresh references commit and
    /// return the transfer to perform; replays succeed with no change.
    pub fn settle_offramp(
        &mut self,
        ctx: &SettleOfframp,
        reference_hash: &Vec<u8>,
        amount: u64,
        kotani_reference: &Vec<u8>,
        now: i64,
    ) -> (r: Result<Option<TransferAction>, LedgerError>)
        requires
            old(self).wf(),
        ensures
            final(self).wf(),
            final(self)@ == offramp_step(
                old(self)@,
                ctx@,
                reference_hash@,
                amount,
                kotani_reference@,
                now,
            ).post,
            settle_result_view(r) == offramp_step(
                old(self)@,
                ctx@,
                reference_hash@,
                amount,
                kotani_reference@,
                now,
            ).result,
    {
        if !digest_matches(reference_hash, kotani_reference) {
            return Err(LedgerError::Franco(FrancoError::ReferenceHashMismatch));
        }
        if amount == 0 {
            return Err(LedgerError::Franco(FrancoError::InvalidAmount));
        }
        if kotani_reference.len() > MAX_REF_BYTES {
            return Err(LedgerError::Franco(FrancoError::ReferenceTooLong));
        }
        let (pool, mint) = match &self.treasury {
            None => {
                return Err(LedgerError::AccountNotInitialized);
            },
            Some(t) => {
                if !bytes_eq(&t.usdc_mint, &ctx.usdc_mint) {
                    return Err(LedgerError::Franco(FrancoError::InvalidMint));
                }
                if !bytes_eq(&t.treasury_token_account, &ctx.treasury_token_account) {
                    return Err(LedgerError::Franco(FrancoError::InvalidTreasuryTokenAccount));
                }
                (clone_bytes(&t.treasury_token_account), clone_bytes(&t.usdc_mint))
            },
        };
        let si = match self.find_student(&ctx.owner) {
            None => {
                return Err(LedgerError::AccountNotInitialized);
            },
            Some(i) => i,
        };
        proof {
            lemma_student_idx_is(self@.students, ctx.owner@, si as int);
        }
        if self.students[si].is_frozen {
            return Err(LedgerError::Franco(FrancoError::StudentFrozen));
        }
        match self.find_record(reference_hash) {
            Some(ki) => {
                proof {
                    assert(has_record(self@.records, reference_hash@));
                }
                return Ok(None);
            },
            None => {},
        }
        let vol = self.students[si].total_volume;
        if amount > u64::MAX - vol {
            return Err(LedgerError::Franco(FrancoError::MathOverflow));
        }
        self.students[si].total_volume = vol + amount;
        let rec = TransactionRecord {
            initialized: true,
            sender: clone_bytes(&ctx.owner),
            receiver: treasury_key(),
            amount: amount,
            timestamp: now,
            kotani_reference: clone_bytes(kotani_reference),
            fraud_score: 0,
            is_flagged: false,
            bump: LAYOUT_VERSION,
        };
        self.records.push(RecordEntry { key: clone_bytes(reference_hash), record: rec });
        self.events.push(
            Event::OffRamp(
                OffRampSettled {
                    student: clone_bytes(&ctx.owner),
                    amount: amount,
                    reference: clone_bytes(kotani_reference),
                    timestamp: now,
                },
            ),
        );
        let action = TransferAction {
            from: clone_bytes(&ctx.student_ata),
            to: pool,
            mint: mint,
            amount: amount,
            authority: clone_bytes(&ctx.owner),
        };
        proof {
            let step = offramp_step(
                old(self)@,
                ctx@,
                reference_hash@,
                amount,
                kotani_reference@,
                now,
            );
            assert(self@.students =~= step.post.students);
            assert(self@.records =~= step.post.records);
            assert(self@.events =~= step.post.events);
            assert(self@ =~= step.post);
        }
        Ok(Some(action))
    }

    /// Peer transfer: moves funds between two participants, authorized by
    /// the sender. Both volume counters grow by the amount, each under its
    /// own overflow check; a self-transfer counts the amount twice. Fresh
    /// references commit and return the transfer to perform; replays
    /// succeed with no change.
    pub fn send_usdc(
        &mut self,
        ctx: &SendUsdc,
        reference_hash: &Vec<u8>,
        amount: u64,
        reference: &Vec<u8>,
        now: i64,
    ) -> (r: Result<Option<TransferAction>, LedgerError>)
        requires
            old(self).wf(),
        ensures
            final(self).wf(),
            final(self)@ == send_step(
                old(self)@,
                ctx@,
                reference_hash@,
                amount,
                reference@,
                now,
            ).post,
            settle_result_view(r) == send_step(
                old(self)@,
                ctx@,
                reference_hash@,
                amount,
                reference@,
                now,
            ).result,
    {
        if !digest_matches(reference_hash, reference) {
            return Err(LedgerError::Franco(FrancoError::ReferenceHashMismatch));
        }
        if amount == 0 {
            return Err(LedgerError::Franco(FrancoError::InvalidAmount));
        }
        if reference.len() > MAX_REF_BYTES {
            return Err(LedgerError::Franco(FrancoError::ReferenceTooLong));
        }
        let si = match self.find_student(&ctx.sender) {
            None => {
                return Err(LedgerError::AccountNotInitialized);
            },
            Some(i) => i,
        };
        let ri = match self.find_student(&ctx.receiver) {
            None => {
                return Err(LedgerError::AccountNotInitialized);
            },
            Some(i) => i,
        };
        proof {
            lemma_student_idx_is(self@.students, ctx.sender@, si as int);
            lemma_student_idx_is(self@.students, ctx.receiver@, ri as int);
        }
        if self.students[si].is_frozen || self.students[ri].is_frozen {
            return Err(LedgerError::Franco(FrancoError::StudentFrozen));
        }
        if reference.len() == 0 {
            return Err(LedgerError::Franco(FrancoError::InvalidReference));
        }
        match self.find_record(reference_hash) {
            Some(ki) => {
                proof {
                    assert(has_record(self@.records, reference_hash@));
                }
                return Ok(None);
            },
            None => {},
        }
        let svol = self.students[si].total_volume;
        if amount > u64::MAX - svol {
            return Err(LedgerError::Franco(FrancoError::MathOverflow));
        }
        self.students[si].total_volume = svol + amount;
        let rvol = self.students[ri].total_volume;
        if amount > u64::MAX - rvol {
            // Undo the sender's increment: the operation fails as a whole.
            self.students[si].total_volume = svol;
            proof {
                let step = send_step(
                    old(self)@,
                    ctx@,
                    reference_hash@,
                    amount,
                    reference@,
                    now,
                );
                assert(self@.students =~= old(self)@.students);
                assert(self@ =~= step.post);
            }
            return Err(LedgerError::Franco(FrancoError::MathOverflow));
        }
        self.students[ri].total_volume = rvol + amount;
        let rec = TransactionRecord {
            initialized: true,
            sender: clone_bytes(&ctx.sender),
            receiver: clone_bytes(&ctx.receiver),
            amount: amount,
            timestamp: now,
            kotani_reference: clone_bytes(reference),
            fraud_score: 0,
            is_flagged: false,
            bump: LAYOUT_VERSION,
        };
        self.records.push(RecordEntry { key: clone_bytes(reference_hash), record: rec });
        self.events.push(
            Event::Transfer(
                TransferExecuted {
                    sender: clone_bytes(&ctx.sender),
                    receiver: clone_bytes(&ctx.receiver),
                    amount: amount,
                    reference: clone_bytes(reference),
                    timestamp: now,
                },
            ),
        );
        let action = TransferAction {
            from: clone_bytes(&ctx.sender_ata),
            to: clone_bytes(&ctx.receiver_ata),
            mint: clone_bytes(&ctx.usdc_mint),
            amount: amount,
            authority: clone_bytes(&ctx.sender),
        };
        proof {
            let step = send_step(old(self)@, ctx@, reference_hash@, amount, reference@, now);
            assert(self@.students =~= step.post.students);
            assert(self@.records =~= step.post.records);
            assert(self@.events =~= step.post.events);
            assert(self@ =~= step.post);
        }
        Ok(Some(action))
    }

    /// Applies an externally supplied fraud score to an existing
    /// settlement record; controlling-authority-only. A score strictly
    /// above the threshold flags the record and the named participant and
    /// emits one notification; lower scores update silently. The flags are
    /// never cleared.
    pub fn update_fraud_score(
        &mut self,
        ctx: &UpdateFraudScore,
        reference_hash: &Vec<u8>,
        reference: &Vec<u8>,
        score: u8,
        now: i64,
    ) -> (r: Result<(), LedgerError>)
        requires
            old(self).wf(),
        ensures
            final(self).wf(),
            final(self)@ == fraud_step(
                old(self)@,
                ctx@,
                reference_hash@,
                reference@,
                score,
                now,
            ).post,
            r == fraud_step(old(self)@, ctx@, reference_hash@, reference@, score, now).result,
    {
        if !digest_matches(reference_hash, reference) {
            return Err(LedgerError::Franco(FrancoError::ReferenceHashMismatch));
        }
        if reference.len() == 0 {
            return Err(LedgerError::Franco(FrancoError::InvalidReference));
        }
        if reference.len() > MAX_REF_BYTES {
            return Err(LedgerError::Franco(FrancoError::ReferenceTooLong));
        }
        match &self.treasury {
            None => {
                return Err(LedgerError::AccountNotInitialized);
            },
            Some(t) => {
                if !bytes_eq(&t.authority, &ctx.authority) {
                    return Err(LedgerError::Franco(FrancoError::Unauthorized));
                }
            },
        }
        let ki = match self.find_record(reference_hash) {
            None => {
                return Err(LedgerError::AccountNotInitialized);
            },
            Some(i) => i,
        };
        let si = match self.find_student(&ctx.student_owner) {
            None => {
                return Err(LedgerError::AccountNotInitialized);
            },
            Some(i) => i,
        };
        proof {
            lemma_record_idx_is(self@.records, reference_hash@, ki as int);
            lemma_student_idx_is(self@.students, ctx.student_owner@, si as int);
        }
        self.records[ki].record.fraud_score = score;
        if score > crate::state::FRAUD_THRESHOLD {
            self.records[ki].record.is_flagged = true;
            self.students[si].flagged = true;
            let amount = self.records[ki].record.amount;
            let audit_reference = clone_bytes(&self.records[ki].record.kotani_reference);
            self.events.push(
                Event::Fraud(
                    FraudFlagged {
                        student: clone_bytes(&ctx.student_owner),
                        amount: amount,
                        reference: audit_reference,
                        score: score,
                        timestamp: now,
                    },
                ),
            );
        }
        proof {
            let step = fraud_step(old(self)@, ctx@, reference_hash@, reference@, score, now);
            assert(self@.records =~= step.post.records);
            assert(self@.students =~= step.post.students);
            assert(self@.events =~= step.post.events);
            assert(self@ =~= step.post);
        }
        Ok(())
    }

    /// Freezes a participant; controlling-authority-only. One-way: no
    /// operation unfreezes.
    pub fn freeze_student(&mut self, ctx: &FreezeStudent, now: i64) -> (r: Result<
        (),
        LedgerError,
    >)
        requires
            old(self).wf(),
        ensures
            final(self).wf(),
            final(self)@ == freeze_step(old(self)@, ctx@, now).post,
            r == freeze_step(old(self)@, ctx@, now).result,
    {
        match &self.treasury {
            None => {
                return Err(LedgerError::AccountNotInitialized);
            },
            Some(t) => {
                if !bytes_eq(&t.authority, &ctx.authority) {
                    return Err(LedgerError::Franco(FrancoError::Unauthorized));
                }
            },
        }
        let si = match self.find_student(&ctx.student_owner) {
            None => {
                return Err(LedgerError::AccountNotInitialized);
            },
            Some(i) => i,
        };
        proof {
            lemma_student_idx_is(self@.students, ctx.student_owner@, si as int);
        }
        self.students[si].is_frozen = true;
        self.events.push(
            Event::Frozen(
                StudentFrozen { student: clone_bytes(&ctx.student_owner), timestamp: now },
            ),
        );
        proof {
            let step = freeze_step(old(self)@, ctx@, now);
            assert(self@.students =~= step.post.students);
            assert(self@.events =~= step.post.events);
            assert(self@.records =~= step.post.records);
            assert(self@ =~= step.post);
        }
        Ok(())
    }

    /// Cumulative settled volume of a registered participant.
    pub fn student_volume(&self, owner: &Vec<u8>) -> (r: Option<u64>)
        requires
            self.wf(),
        ensures
            match r {
                Some(v) => has_student(self@.students, owner@) && v == self@.students[student_idx(
                    self@.students,
                    owner@,
                )].total_volume,
                None => !has_student(self@.students, owner@),
            },
    {
        match self.find_student(owner) {
            None => None,
            Some(i) => {
                proof {
                    lemma_student_idx_is(self@.students, owner@, i as int);
                }
                Some(self.students[i].total_volume)
            },
        }
    }

    /// Whether a registered participant is frozen.
    pub fn student_frozen(&self, owner: &Vec<u8>) -> (r: Option<bool>)
        requires
            self.wf(),
        ensures
            match r {
                Some(b) => has_student(self@.students, owner@) && b == self@.students[student_idx(
                    self@.students,
                    owner@,
                )].is_frozen,
                None => !has_student(self@.students, owner@),
            },
    {
        match self.find_student(owner) {
            None => None,
            Some(i) => {
                proof {
                    lemma_student_idx_is(self@.students, owner@, i as int);
                }
                Some(self.students[i].is_frozen)
            },
        }
    }

    /// Whether a registered participant is fraud-flagged.
    pub fn student_flagged(&self, owner: &Vec<u8>) -> (r: Option<bool>)
        requires
            self.wf(),
        ensures
            match r {
                Some(b) => has_student(self@.students, owner@) && b == self@.students[student_idx(
                    self@.students,
                    owner@,
                )].flagged,
                None => !has_student(self@.students, owner@),
            },
    {
        match self.find_student(owner) {
            None => None,
            Some(i) => {
                proof {
                    lemma_student_idx_is(self@.students, owner@, i as int);
                }
                Some(self.students[i].flagged)
            },
        }
    }

    /// The settlement record stored under a reference digest, if any.
    pub fn record_for(&self, reference_hash: &Vec<u8>) -> (r: Option<&TransactionRecord>)
        requires
            self.wf(),
        ensures
            match r {
                Some(rec) => has_record(self@.records, reference_hash@) && rec@ == self@.records[
                    record_idx(self@.records, reference_hash@)
                ].record,
                None => !has_record(self@.records, reference_hash@),
            },
    {
        match self.find_record(reference_hash) {
            None => None,
            Some(i) => {
                proof {
                    lemma_record_idx_is(self@.records, reference_hash@, i as int);
                }
                Some(&self.records[i].record)
            },
        }
    }
}

} // verus!
