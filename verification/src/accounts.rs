//! The three persisted record types: participant accounts, the singleton
//! treasury configuration, and per-reference settlement records. Each has a
//! mathematical view over which all contracts are stated.

use vstd::prelude::*;

verus! {

/// Storage-layout version tag written into every record this library
/// creates.
pub const LAYOUT_VERSION: u8 = 1;

/// One registered participant.
#[derive(Clone, Debug)]
pub struct StudentAccount {
    /// Owning identity; unique across all participants.
    pub owner: Vec<u8>,
    /// Opaque country code, at most `MAX_COUNTRY_BYTES` bytes.
    pub country: Vec<u8>,
    /// Once true, every settlement naming this participant fails.
    pub is_frozen: bool,
    /// Cumulative settled volume; never decreases.
    pub total_volume: u64,
    /// Set when a fraud score above the threshold touches this participant.
    pub flagged: bool,
    /// Storage-layout version tag.
    pub bump: u8,
}

/// Mathematical view of a participant.
#[verifier::ext_equal]
pub struct StudentView {
    pub owner: Seq<u8>,
    pub country: Seq<u8>,
    pub is_frozen: bool,
    pub total_volume: u64,
    pub flagged: bool,
    pub bump: u8,
}

impl View for StudentAccount {
    type V = StudentView;

    open spec fn view(&self) -> StudentView {
        StudentView {
            owner: self.owner@,
            country: self.country@,
            is_frozen: self.is_frozen,
            total_volume: self.total_volume,
            flagged: self.flagged,
            bump: self.bump,
        }
    }
}

/// The singleton custodial-pool configuration.
#[derive(Clone, Debug)]
pub struct TreasuryAccount {
    /// Controlling authority; the only identity allowed to run inbound
    /// settlement, fraud scoring and freezing.
    pub authority: Vec<u8>,
    /// Accepted value-token descriptor.
    pub usdc_mint: Vec<u8>,
    /// Custodial pool token account.
    pub treasury_token_account: Vec<u8>,
    /// Fee in basis points, at most 10000.
    pub fee_bps: u16,
    /// Storage-layout version tag.
    pub bump: u8,
}

/// Mathematical view of the treasury configuration.
#[verifier::ext_equal]
pub struct TreasuryView {
    pub authority: Seq<u8>,
    pub usdc_mint: Seq<u8>,
    pub treasury_token_account: Seq<u8>,
    pub fee_bps: u16,
    pub bump: u8,
}

impl View for TreasuryAccount {
    type V = TreasuryView;

    open spec fn view(&self) -> TreasuryView {
        TreasuryView {
            authority: self.authority@,
            usdc_mint: self.usdc_mint@,
            treasury_token_account: self.treasury_token_account@,
            fee_bps: self.fee_bps,
            bump: self.bump,
        }
    }
}

/// The idempotency and audit record for one external reference.
#[derive(Clone, Debug)]
pub struct TransactionRecord {
    /// True for every stored record: a record is only persisted together
    /// with the settlement that produced it.
    pub initialized: bool,
    /// Sending identity (a participant, or the treasury key).
    pub sender: Vec<u8>,
    /// Receiving identity (a participant, or the treasury key).
    pub receiver: Vec<u8>,
    /// Settled amount; always positive.
    pub amount: u64,
    /// Ledger time at which the settlement committed.
    pub timestamp: i64,
    /// The verified external reference, kept for audit.
    pub kotani_reference: Vec<u8>,
    /// Externally supplied risk score; zero until scored.
    pub fraud_score: u8,
    /// Set once a score above the threshold is applied; never cleared.
    pub is_flagged: bool,
    /// Storage-layout version tag.
    pub bump: u8,
}

/// Mathematical view of a settlement record.
#[verifier::ext_equal]
pub struct RecordView {
    pub initialized: bool,
    pub sender: Seq<u8>,
    pub receiver: Seq<u8>,
    pub amount: u64,
    pub timestamp: i64,
    pub kotani_reference: Seq<u8>,
    pub fraud_score: u8,
    pub is_flagged: bool,
    pub bump: u8,
}

impl View for TransactionRecord {
    type V = RecordView;

    open spec fn view(&self) -> RecordView {
        RecordView {
            initialized: self.initialized,
            sender: self.sender@,
            receiver: self.receiver@,
            amount: self.amount,
            timestamp: self.timestamp,
            kotani_reference: self.kotani_reference@,
            fraud_score: self.fraud_score,
            is_flagged: self.is_flagged,
            bump: self.bump,
        }
    }
}

} // verus!
