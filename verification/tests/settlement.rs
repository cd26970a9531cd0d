use franco_student_pay::commitment::commit;
use franco_student_pay::context::{
    FreezeStudent, InitializeTreasury, RegisterStudent, SendUsdc, SettleOfframp, SettleOnramp,
};
use franco_student_pay::errors::{FrancoError, LedgerError};
use franco_student_pay::events::Event;
use franco_student_pay::ledger::{treasury_key, Ledger};

fn id(b: u8) -> Vec<u8> {
    vec![b; 32]
}

const AUTHORITY: u8 = 10;
const MINT: u8 = 11;
const POOL: u8 = 12;
const ALICE: u8 = 1;
const ALICE_ATA: u8 = 21;
const BOB: u8 = 2;
const BOB_ATA: u8 = 22;

fn init_ctx() -> InitializeTreasury {
    InitializeTreasury {
        authority: id(AUTHORITY),
        usdc_mint: id(MINT),
        treasury_token_account: id(POOL),
    }
}

fn onramp_ctx(student: u8, ata: u8) -> SettleOnramp {
    SettleOnramp {
        authority: id(AUTHORITY),
        usdc_mint: id(MINT),
        treasury_token_account: id(POOL),
        student_owner: id(student),
        student_ata: id(ata),
    }
}

fn offramp_ctx(student: u8, ata: u8) -> SettleOfframp {
    SettleOfframp {
        owner: id(student),
        usdc_mint: id(MINT),
        treasury_token_account: id(POOL),
        student_ata: id(ata),
    }
}

fn send_ctx() -> SendUsdc {
    SendUsdc {
        sender: id(ALICE),
        usdc_mint: id(MINT),
        sender_ata: id(ALICE_ATA),
        receiver: id(BOB),
        receiver_ata: id(BOB_ATA),
    }
}

fn setup() -> Ledger {
    let mut l = Ledger::new();
    l.initialize_treasury(&init_ctx(), 50).unwrap();
    l.register_student(&RegisterStudent { owner: id(ALICE) }, &b"KE".to_vec(), 1)
        .unwrap();
    l.register_student(&RegisterStudent { owner: id(BOB) }, &b"UG".to_vec(), 2)
        .unwrap();
    l
}

fn onramp(l: &mut Ledger, student: u8, ata: u8, reference: &[u8], amount: u64, now: i64) -> Result<
    Option<franco_student_pay::context::TransferAction>,
    LedgerError,
> {
    let r = reference.to_vec();
    let digest = commit(&r);
    l.settle_onramp(&onramp_ctx(student, ata), &digest, amount, &r, now)
}

#[test]
fn scenario_onramp_send_and_replay() {
    let mut l = setup();

    let action = onramp(&mut l, ALICE, ALICE_ATA, b"r1", 1000, 100)
        .unwrap()
        .expect("fresh settlement must request a transfer");
    assert_eq!(action.from, id(POOL));
    assert_eq!(action.to, id(ALICE_ATA));
    assert_eq!(action.mint, id(MINT));
    assert_eq!(action.amount, 1000);
    assert_eq!(action.authority, treasury_key());
    assert_eq!(l.student_volume(&id(ALICE)), Some(1000));

    let r2 = b"r2".to_vec();
    let d2 = commit(&r2);
    let action2 = l
        .send_usdc(&send_ctx(), &d2, 400, &r2, 101)
        .unwrap()
        .expect("fresh transfer must request a transfer");
    assert_eq!(action2.from, id(ALICE_ATA));
    assert_eq!(action2.to, id(BOB_ATA));
    assert_eq!(action2.amount, 400);
    assert_eq!(action2.authority, id(ALICE));
    assert_eq!(l.student_volume(&id(ALICE)), Some(1400));
    assert_eq!(l.student_volume(&id(BOB)), Some(400));

    let events_before = l.events.len();
    let records_before = l.records.len();
    let replay = onramp(&mut l, ALICE, ALICE_ATA, b"r1", 1000, 102).unwrap();
    assert!(replay.is_none(), "replay must perform no transfer");
    assert_eq!(l.student_volume(&id(ALICE)), Some(1400));
    assert_eq!(l.student_volume(&id(BOB)), Some(400));
    assert_eq!(l.events.len(), events_before, "replay emits no notification");
    assert_eq!(l.records.len(), records_before);
}

#[test]
fn replay_is_suppressed_across_flows() {
    let mut l = setup();
    onramp(&mut l, ALICE, ALICE_ATA, b"shared-ref", 500, 100)
        .unwrap()
        .unwrap();
    let volume = l.student_volume(&id(ALICE)).unwrap();
    let events = l.events.len();

    let r = b"shared-ref".to_vec();
    let d = commit(&r);
    let off = l
        .settle_offramp(&offramp_ctx(ALICE, ALICE_ATA), &d, 500, &r, 101)
        .unwrap();
    assert!(off.is_none(), "the same reference contends for the same slot");
    let send = l.send_usdc(&send_ctx(), &d, 500, &r, 102).unwrap();
    assert!(send.is_none());
    assert_eq!(l.student_volume(&id(ALICE)), Some(volume));
    assert_eq!(l.events.len(), events);
}

#[test]
fn offramp_settles_and_records() {
    let mut l = setup();
    let r = b"cashout".to_vec();
    let d = commit(&r);
    let action = l
        .settle_offramp(&offramp_ctx(ALICE, ALICE_ATA), &d, 250, &r, 7)
        .unwrap()
        .unwrap();
    assert_eq!(action.from, id(ALICE_ATA));
    assert_eq!(action.to, id(POOL));
    assert_eq!(action.amount, 250);
    assert_eq!(action.authority, id(ALICE));
    assert_eq!(l.student_volume(&id(ALICE)), Some(250));

    let rec = l.record_for(&d).expect("record must exist");
    assert!(rec.initialized);
    assert_eq!(rec.sender, id(ALICE));
    assert_eq!(rec.receiver, treasury_key());
    assert_eq!(rec.amount, 250);
    assert_eq!(rec.timestamp, 7);
    assert_eq!(rec.kotani_reference, r);
    assert_eq!(rec.fraud_score, 0);
    assert!(!rec.is_flagged);
}

#[test]
fn digest_mismatch_fails_before_any_other_check() {
    let mut l = setup();
    // Amount zero and an over-long reference as well: the digest check
    // still reports first.
    let reference = vec![7u8; 65];
    let wrong_digest = commit(&b"something else".to_vec());
    let r = l.settle_onramp(&onramp_ctx(ALICE, ALICE_ATA), &wrong_digest, 0, &reference, 1);
    assert_eq!(
        r,
        Err(LedgerError::Franco(FrancoError::ReferenceHashMismatch))
    );
    let r = l.send_usdc(&send_ctx(), &wrong_digest, 0, &reference, 1);
    assert_eq!(
        r,
        Err(LedgerError::Franco(FrancoError::ReferenceHashMismatch))
    );
    let r = l.settle_offramp(&offramp_ctx(ALICE, ALICE_ATA), &wrong_digest, 0, &reference, 1);
    assert_eq!(
        r,
        Err(LedgerError::Franco(FrancoError::ReferenceHashMismatch))
    );
    assert_eq!(l.student_volume(&id(ALICE)), Some(0));
    assert_eq!(l.records.len(), 0);
}

#[test]
fn zero_amount_is_invalid() {
    let mut l = setup();
    let r = b"zero".to_vec();
    let d = commit(&r);
    assert_eq!(
        l.settle_onramp(&onramp_ctx(ALICE, ALICE_ATA), &d, 0, &r, 1),
        Err(LedgerError::Franco(FrancoError::InvalidAmount))
    );
}

#[test]
fn reference_length_is_bounded() {
    let mut l = setup();
    let at_bound = vec![9u8; 64];
    let d = commit(&at_bound);
    assert!(l
        .settle_onramp(&onramp_ctx(ALICE, ALICE_ATA), &d, 5, &at_bound, 1)
        .unwrap()
        .is_some());

    let too_long = vec![9u8; 65];
    let d = commit(&too_long);
    assert_eq!(
        l.settle_onramp(&onramp_ctx(ALICE, ALICE_ATA), &d, 5, &too_long, 1),
        Err(LedgerError::Franco(FrancoError::ReferenceTooLong))
    );
}

#[test]
fn peer_transfer_rejects_empty_reference() {
    let mut l = setup();
    let empty = Vec::new();
    let d = commit(&empty);
    assert_eq!(
        l.send_usdc(&send_ctx(), &d, 5, &empty, 1),
        Err(LedgerError::Franco(FrancoError::InvalidReference))
    );
}

#[test]
fn onramp_requires_treasury_authority() {
    let mut l = setup();
    let r = b"x".to_vec();
    let d = commit(&r);
    let mut ctx = onramp_ctx(ALICE, ALICE_ATA);
    ctx.authority = id(99);
    assert_eq!(
        l.settle_onramp(&ctx, &d, 5, &r, 1),
        Err(LedgerError::Franco(FrancoError::Unauthorized))
    );
}

#[test]
fn settlement_checks_mint_and_pool_account() {
    let mut l = setup();
    let r = b"x".to_vec();
    let d = commit(&r);

    let mut ctx = onramp_ctx(ALICE, ALICE_ATA);
    ctx.usdc_mint = id(99);
    assert_eq!(
        l.settle_onramp(&ctx, &d, 5, &r, 1),
        Err(LedgerError::Franco(FrancoError::InvalidMint))
    );

    let mut ctx = offramp_ctx(ALICE, ALICE_ATA);
    ctx.treasury_token_account = id(99);
    assert_eq!(
        l.settle_offramp(&ctx, &d, 5, &r, 1),
        Err(LedgerError::Franco(FrancoError::InvalidTreasuryTokenAccount))
    );
}

#[test]
fn settlement_requires_initialized_accounts() {
    let mut uninit = Ledger::new();
    let r = b"x".to_vec();
    let d = commit(&r);
    assert_eq!(
        uninit.settle_onramp(&onramp_ctx(ALICE, ALICE_ATA), &d, 5, &r, 1),
        Err(LedgerError::AccountNotInitialized)
    );

    let mut l = setup();
    assert_eq!(
        l.settle_onramp(&onramp_ctx(77, ALICE_ATA), &d, 5, &r, 1),
        Err(LedgerError::AccountNotInitialized)
    );
    let mut ctx = send_ctx();
    ctx.receiver = id(77);
    assert_eq!(
        l.send_usdc(&ctx, &d, 5, &r, 1),
        Err(LedgerError::AccountNotInitialized)
    );
}

#[test]
fn frozen_participant_blocks_every_flow() {
    let mut l = setup();
    onramp(&mut l, ALICE, ALICE_ATA, b"before-freeze", 100, 1)
        .unwrap()
        .unwrap();
    l.freeze_student(
        &FreezeStudent { authority: id(AUTHORITY), student_owner: id(ALICE) },
        2,
    )
    .unwrap();
    assert_eq!(l.student_frozen(&id(ALICE)), Some(true));
    assert!(matches!(l.events.last(), Some(Event::Frozen(_))));

    let r = b"after-freeze".to_vec();
    let d = commit(&r);
    assert_eq!(
        l.settle_onramp(&onramp_ctx(ALICE, ALICE_ATA), &d, 5, &r, 3),
        Err(LedgerError::Franco(FrancoError::StudentFrozen))
    );
    assert_eq!(
        l.settle_offramp(&offramp_ctx(ALICE, ALICE_ATA), &d, 5, &r, 3),
        Err(LedgerError::Franco(FrancoError::StudentFrozen))
    );
    // As sender.
    assert_eq!(
        l.send_usdc(&send_ctx(), &d, 5, &r, 3),
        Err(LedgerError::Franco(FrancoError::StudentFrozen))
    );
    // As receiver.
    let mut ctx = send_ctx();
    ctx.sender = id(BOB);
    ctx.sender_ata = id(BOB_ATA);
    ctx.receiver = id(ALICE);
    ctx.receiver_ata = id(ALICE_ATA);
    assert_eq!(
        l.send_usdc(&ctx, &d, 5, &r, 3),
        Err(LedgerError::Franco(FrancoError::StudentFrozen))
    );
    assert_eq!(l.student_volume(&id(ALICE)), Some(100));
}

#[test]
fn freeze_requires_authority() {
    let mut l = setup();
    assert_eq!(
        l.freeze_student(
            &FreezeStudent { authority: id(99), student_owner: id(ALICE) },
            2,
        ),
        Err(LedgerError::Franco(FrancoError::Unauthorized))
    );
    assert_eq!(l.student_frozen(&id(ALICE)), Some(false));
}

#[test]
fn volume_overflow_fails_and_changes_nothing() {
    let mut l = setup();
    onramp(&mut l, ALICE, ALICE_ATA, b"big", u64::MAX - 5, 1)
        .unwrap()
        .unwrap();
    assert_eq!(l.student_volume(&id(ALICE)), Some(u64::MAX - 5));

    // Settling 6 more must overflow; settling 5 more exactly fills up.
    let r = onramp(&mut l, ALICE, ALICE_ATA, b"overflow", 6, 2);
    assert_eq!(r, Err(LedgerError::Franco(FrancoError::MathOverflow)));
    assert_eq!(l.student_volume(&id(ALICE)), Some(u64::MAX - 5));

    onramp(&mut l, ALICE, ALICE_ATA, b"fills", 5, 3).unwrap().unwrap();
    assert_eq!(l.student_volume(&id(ALICE)), Some(u64::MAX));
}

#[test]
fn receiver_overflow_undoes_sender_increment() {
    let mut l = setup();
    onramp(&mut l, BOB, BOB_ATA, b"fund-bob", u64::MAX - 3, 1)
        .unwrap()
        .unwrap();
    let r = b"p2p".to_vec();
    let d = commit(&r);
    assert_eq!(
        l.send_usdc(&send_ctx(), &d, 4, &r, 2),
        Err(LedgerError::Franco(FrancoError::MathOverflow))
    );
    assert_eq!(l.student_volume(&id(ALICE)), Some(0));
    assert_eq!(l.student_volume(&id(BOB)), Some(u64::MAX - 3));
    assert!(l.record_for(&d).is_none());
}
