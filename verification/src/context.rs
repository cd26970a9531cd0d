//! Per-operation account contexts: the identities the host runtime resolved
//! for one call, handed to the library as plain values. Also the transfer
//! action an operation hands back to the host for execution.

use vstd::prelude::*;

verus! {

/// Accounts for treasury initialization.
#[derive(Clone, Debug)]
pub struct InitializeTreasury {
    /// The caller; becomes the controlling authority.
    pub authority: Vec<u8>,
    /// Value-token descriptor the treasury will accept.
    pub usdc_mint: Vec<u8>,
    /// Custodial pool token account.
    pub treasury_token_account: Vec<u8>,
}

#[verifier::ext_equal]
pub struct InitializeTreasuryView {
    pub authority: Seq<u8>,
    pub usdc_mint: Seq<u8>,
    pub treasury_token_account: Seq<u8>,
}

impl View for InitializeTreasury {
    type V = InitializeTreasuryView;

    open spec fn view(&self) -> InitializeTreasuryView {
        InitializeTreasuryView {
            authority: self.authority@,
            usdc_mint: self.usdc_mint@,
            treasury_token_account: self.treasury_token_account@,
        }
    }
}

/// Accounts for participant registration.
#[derive(Clone, Debug)]
pub struct RegisterStudent {
    /// The caller; becomes the participant's owning identity.
    pub owner: Vec<u8>,
}

#[verifier::ext_equal]
pub struct RegisterStudentView {
    pub owner: Seq<u8>,
}

impl View for RegisterStudent {
    type V = RegisterStudentView;

    open spec fn view(&self) -> RegisterStudentView {
        RegisterStudentView { owner: self.owner@ }
    }
}

/// Accounts for inbound settlement (external funds to participant).
#[derive(Clone, Debug)]
pub struct SettleOnramp {
    /// The caller; must be the treasury's controlling authority.
    pub authority: Vec<u8>,
    /// Must match the treasury's value-token descriptor.
    pub usdc_mint: Vec<u8>,
    /// Must match the treasury's custodial pool token account.
    pub treasury_token_account: Vec<u8>,
    /// The credited participant's owning identity.
    pub student_owner: Vec<u8>,
    /// The participant's token account, destination of the transfer.
    pub student_ata: Vec<u8>,
}

#[verifier::ext_equal]
pub struct SettleOnrampView {
    pub authority: Seq<u8>,
    pub usdc_mint: Seq<u8>,
    pub treasury_token_account: Seq<u8>,
    pub student_owner: Seq<u8>,
    pub student_ata: Seq<u8>,
}

impl View for SettleOnramp {
    type V = SettleOnrampView;

    open spec fn view(&self) -> SettleOnrampView {
        SettleOnrampView {
            authority: self.authority@,
            usdc_mint: self.usdc_mint@,
            treasury_token_account: self.treasury_token_account@,
            student_owner: self.student_owner@,
            student_ata: self.student_ata@,
        }
    }
}

/// Accounts for a peer transfer (participant to participant).
#[derive(Clone, Debug)]
pub struct SendUsdc {
    /// The caller; the sending participant's owning identity.
    pub sender: Vec<u8>,
    /// Value-token descriptor of both token accounts.
    pub usdc_mint: Vec<u8>,
    /// The sender's token account, source of the transfer.
    pub sender_ata: Vec<u8>,
    /// The receiving participant's owning identity.
    pub receiver: Vec<u8>,
    /// The receiver's token account, destination of the transfer.
    pub receiver_ata: Vec<u8>,
}

#[verifier::ext_equal]
pub struct SendUsdcView {
    pub sender: Seq<u8>,
    pub usdc_mint: Seq<u8>,
    pub sender_ata: Seq<u8>,
    pub receiver: Seq<u8>,
    pub receiver_ata: Seq<u8>,
}

impl View for SendUsdc {
    type V = SendUsdcView;

    open spec fn view(&self) -> SendUsdcView {
        SendUsdcView {
            sender: self.sender@,
            usdc_mint: self.usdc_mint@,
            sender_ata: self.sender_ata@,
            receiver: self.receiver@,
            receiver_ata: self.receiver_ata@,
        }
    }
}

/// Accounts for outbound settlement (participant to external funds).
#[derive(Clone, Debug)]
pub struct SettleOfframp {
    /// The caller; the settled participant's owning identity.
    pub owner: Vec<u8>,
    /// Must match the treasury's value-token descriptor.
    pub usdc_mint: Vec<u8>,
    /// Must match the treasury's custodial pool token account.
    pub treasury_token_account: Vec<u8>,
    /// The participant's token account, source of the transfer.
    pub student_ata: Vec<u8>,
}

#[verifier::ext_equal]
pub struct SettleOfframpView {
    pub owner: Seq<u8>,
    pub usdc_mint: Seq<u8>,
    pub treasury_token_account: Seq<u8>,
    pub student_ata: Seq<u8>,
}

impl View for SettleOfframp {
    type V = SettleOfframpView;

    open spec fn view(&self) -> SettleOfframpView {
        SettleOfframpView {
            owner: self.owner@,
            usdc_mint: self.usdc_mint@,
            treasury_token_account: self.treasury_token_account@,
            student_ata: self.student_ata@,
        }
    }
}

/// Accounts for fraud scoring.
#[derive(Clone, Debug)]
pub struct UpdateFraudScore {
    /// The caller; must be the treasury's controlling authority.
    pub authority: Vec<u8>,
    /// Owning identity of the participant the score is applied to.
    pub student_owner: Vec<u8>,
}

#[verifier::ext_equal]
pub struct UpdateFraudScoreView {
    pub authority: Seq<u8>,
    pub student_owner: Seq<u8>,
}

impl View for UpdateFraudScore {
    type V = UpdateFraudScoreView;

    open spec fn view(&self) -> UpdateFraudScoreView {
        UpdateFraudScoreView {
            authority: self.authority@,
            student_owner: self.student_owner@,
        }
    }
}

/// Accounts for freezing a participant.
#[derive(Clone, Debug)]
pub struct FreezeStudent {
    /// The caller; must be the treasury's controlling authority.
    pub authority: Vec<u8>,
    /// Owning identity of the participant to freeze.
    pub student_owner: Vec<u8>,
}

#[verifier::ext_equal]
pub struct FreezeStudentView {
    pub authority: Seq<u8>,
    pub student_owner: Seq<u8>,
}

impl View for FreezeStudent {
    type V = FreezeStudentView;

    open spec fn view(&self) -> FreezeStudentView {
        FreezeStudentView {
            authority: self.authority@,
            student_owner: self.student_owner@,
        }
    }
}

/// The external value transfer a fresh settlement asks the host to perform.
/// The host must execute it and commit the new ledger state only if the
/// transfer succeeds; on failure it discards the whole operation.
#[derive(Clone, Debug, PartialEq, Eq)]
pub struct TransferAction {
    /// Source token account.
    pub from: Vec<u8>,
    /// Destination token account.
    pub to: Vec<u8>,
    /// Value-token descriptor of the transfer.
    pub mint: Vec<u8>,
    /// Amount to move.
    pub amount: u64,
    /// Identity that authorizes the transfer.
    pub authority: Vec<u8>,
}

/// Mathematical view of a requested transfer.
#[verifier::ext_equal]
pub struct ActionView {
    pub from: Seq<u8>,
    pub to: Seq<u8>,
    pub mint: Seq<u8>,
    pub amount: u64,
    pub authority: Seq<u8>,
}

impl View for TransferAction {
    type V = ActionView;

    open spec fn view(&self) -> ActionView {
        ActionView {
            from: self.from@,
            to: self.to@,
            mint: self.mint@,
            amount: self.amount,
            authority: self.authority@,
        }
    }
}

} // verus!
