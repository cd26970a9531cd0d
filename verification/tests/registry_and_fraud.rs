use franco_student_pay::commitment::commit;
use franco_student_pay::context::{
    InitializeTreasury, RegisterStudent, SendUsdc, SettleOnramp, UpdateFraudScore,
};
use franco_student_pay::errors::{FrancoError, LedgerError};
use franco_student_pay::events::Event;
use franco_student_pay::ledger::Ledger;

fn id(b: u8) -> Vec<u8> {
    vec![b; 32]
}

const AUTHORITY: u8 = 10;
const MINT: u8 = 11;
const POOL: u8 = 12;
const ALICE: u8 = 1;
const ALICE_ATA: u8 = 21;
const BOB: u8 = 2;

fn setup() -> Ledger {
    let mut l = Ledger::new();
    l.initialize_treasury(
        &InitializeTreasury {
            authority: id(AUTHORITY),
            usdc_mint: id(MINT),
            treasury_token_account: id(POOL),
        },
        50,
    )
    .unwrap();
    l.register_student(&RegisterStudent { owner: id(ALICE) }, &b"KE".to_vec(), 1)
        .unwrap();
    l.register_student(&RegisterStudent { owner: id(BOB) }, &b"UG".to_vec(), 2)
        .unwrap();
    l
}

fn settle(l: &mut Ledger, reference: &[u8], amount: u64) -> Vec<u8> {
    let r = reference.to_vec();
    let d = commit(&r);
    let ctx = SettleOnramp {
        authority: id(AUTHORITY),
        usdc_mint: id(MINT),
        treasury_token_account: id(POOL),
        student_owner: id(ALICE),
        student_ata: id(ALICE_ATA),
    };
    l.settle_onramp(&ctx, &d, amount, &r, 5).unwrap().unwrap();
    d
}

fn fraud_ctx() -> UpdateFraudScore {
    UpdateFraudScore { authority: id(AUTHORITY), student_owner: id(ALICE) }
}

#[test]
fn treasury_is_a_singleton_with_bounded_fee() {
    let mut l = Ledger::new();
    let ctx = InitializeTreasury {
        authority: id(AUTHORITY),
        usdc_mint: id(MINT),
        treasury_token_account: id(POOL),
    };
    assert_eq!(
        l.initialize_treasury(&ctx, 10001),
        Err(LedgerError::Franco(FrancoError::InvalidFeeBps))
    );
    l.initialize_treasury(&ctx, 10000).unwrap();
    let t = l.treasury.as_ref().unwrap();
    assert_eq!(t.authority, id(AUTHORITY));
    assert_eq!(t.fee_bps, 10000);
    // The fixed key collides: even a valid second call is rejected.
    assert_eq!(
        l.initialize_treasury(&ctx, 5),
        Err(LedgerError::AccountAlreadyInUse)
    );
}

#[test]
fn registration_is_idempotent_by_collision() {
    let mut l = Ledger::new();
    l.initialize_treasury(
        &InitializeTreasury {
            authority: id(AUTHORITY),
            usdc_mint: id(MINT),
            treasury_token_account: id(POOL),
        },
        50,
    )
    .unwrap();
    let ctx = RegisterStudent { owner: id(ALICE) };
    l.register_student(&ctx, &b"KE".to_vec(), 1).unwrap();
    assert_eq!(l.student_volume(&id(ALICE)), Some(0));
    assert_eq!(l.student_frozen(&id(ALICE)), Some(false));
    assert_eq!(l.student_flagged(&id(ALICE)), Some(false));
    match l.events.last() {
        Some(Event::Registered(e)) => {
            assert_eq!(e.owner, id(ALICE));
            assert_eq!(e.country, b"KE".to_vec());
            assert_eq!(e.timestamp, 1);
        },
        other => panic!("expected a registration event, got {:?}", other),
    }
    assert_eq!(
        l.register_student(&ctx, &b"KE".to_vec(), 2),
        Err(LedgerError::AccountAlreadyInUse)
    );
    assert_eq!(l.students.len(), 1);
}

#[test]
fn country_length_is_bounded() {
    let mut l = Ledger::new();
    let at_bound = vec![65u8; 32];
    l.register_student(&RegisterStudent { owner: id(ALICE) }, &at_bound, 1)
        .unwrap();
    let too_long = vec![65u8; 33];
    assert_eq!(
        l.register_student(&RegisterStudent { owner: id(BOB) }, &too_long, 1),
        Err(LedgerError::Franco(FrancoError::CountryTooLong))
    );
}

#[test]
fn score_at_threshold_updates_silently() {
    let mut l = setup();
    let d = settle(&mut l, b"watched", 700);
    let events = l.events.len();
    let r = b"watched".to_vec();
    l.update_fraud_score(&fraud_ctx(), &d, &r, 75, 9).unwrap();
    let rec = l.record_for(&d).unwrap();
    assert_eq!(rec.fraud_score, 75);
    assert!(!rec.is_flagged);
    assert_eq!(l.student_flagged(&id(ALICE)), Some(false));
    assert_eq!(l.events.len(), events, "no notification at or below the threshold");
}

#[test]
fn score_above_threshold_flags_and_notifies_once() {
    let mut l = setup();
    let d = settle(&mut l, b"suspicious", 700);
    let events = l.events.len();
    let r = b"suspicious".to_vec();
    l.update_fraud_score(&fraud_ctx(), &d, &r, 76, 9).unwrap();
    let rec = l.record_for(&d).unwrap();
    assert_eq!(rec.fraud_score, 76);
    assert!(rec.is_flagged);
    assert_eq!(l.student_flagged(&id(ALICE)), Some(true));
    assert_eq!(l.events.len(), events + 1, "exactly one notification");
    match l.events.last() {
        Some(Event::Fraud(e)) => {
            assert_eq!(e.student, id(ALICE));
            assert_eq!(e.amount, 700);
            assert_eq!(e.reference, b"suspicious".to_vec());
            assert_eq!(e.score, 76);
            assert_eq!(e.timestamp, 9);
        },
        other => panic!("expected a fraud event, got {:?}", other),
    }
}

#[test]
fn maximum_score_behaves_like_any_score_above_threshold() {
    let mut l = setup();
    let d = settle(&mut l, b"worst", 50);
    let events = l.events.len();
    let r = b"worst".to_vec();
    l.update_fraud_score(&fraud_ctx(), &d, &r, 255, 9).unwrap();
    let rec = l.record_for(&d).unwrap();
    assert_eq!(rec.fraud_score, 255);
    assert!(rec.is_flagged);
    assert_eq!(l.student_flagged(&id(ALICE)), Some(true));
    assert_eq!(l.events.len(), events + 1);
}

#[test]
fn flag_is_terminal_even_when_rescored_lower() {
    let mut l = setup();
    let d = settle(&mut l, b"rescored", 50);
    let r = b"rescored".to_vec();
    l.update_fraud_score(&fraud_ctx(), &d, &r, 90, 9).unwrap();
    l.update_fraud_score(&fraud_ctx(), &d, &r, 10, 10).unwrap();
    let rec = l.record_for(&d).unwrap();
    assert_eq!(rec.fraud_score, 10, "the score itself is overwritten");
    assert!(rec.is_flagged, "the flag is never cleared");
    assert_eq!(l.student_flagged(&id(ALICE)), Some(true));
}

#[test]
fn scoring_is_gated_like_settlement() {
    let mut l = setup();
    let d = settle(&mut l, b"gated", 50);
    let r = b"gated".to_vec();

    let wrong = commit(&b"other".to_vec());
    assert_eq!(
        l.update_fraud_score(&fraud_ctx(), &wrong, &r, 80, 9),
        Err(LedgerError::Franco(FrancoError::ReferenceHashMismatch))
    );

    let empty = Vec::new();
    let d_empty = commit(&empty);
    assert_eq!(
        l.update_fraud_score(&fraud_ctx(), &d_empty, &empty, 80, 9),
        Err(LedgerError::Franco(FrancoError::InvalidReference))
    );

    let long = vec![3u8; 65];
    let d_long = commit(&long);
    assert_eq!(
        l.update_fraud_score(&fraud_ctx(), &d_long, &long, 80, 9),
        Err(LedgerError::Franco(FrancoError::ReferenceTooLong))
    );

    let mut ctx = fraud_ctx();
    ctx.authority = id(99);
    assert_eq!(
        l.update_fraud_score(&ctx, &d, &r, 80, 9),
        Err(LedgerError::Franco(FrancoError::Unauthorized))
    );

    // The record must already exist: scoring never creates one.
    let fresh = b"never-settled".to_vec();
    let d_fresh = commit(&fresh);
    assert_eq!(
        l.update_fraud_score(&fraud_ctx(), &d_fresh, &fresh, 80, 9),
        Err(LedgerError::AccountNotInitialized)
    );
    assert!(l.record_for(&d_fresh).is_none());
}

#[test]
fn self_transfer_counts_volume_twice() {
    let mut l = setup();
    let r = b"self".to_vec();
    let d = commit(&r);
    let ctx = SendUsdc {
        sender: id(ALICE),
        usdc_mint: id(MINT),
        sender_ata: id(ALICE_ATA),
        receiver: id(ALICE),
        receiver_ata: id(ALICE_ATA),
    };
    l.send_usdc(&ctx, &d, 30, &r, 1).unwrap().unwrap();
    assert_eq!(l.student_volume(&id(ALICE)), Some(60));
}
