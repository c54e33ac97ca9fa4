use vstd::prelude::*;

verus! {

/// The kind of a ledger operation, as its encoding tags it.
#[derive(Clone, Copy, Debug, PartialEq, Eq, Structural)]
pub enum OperationType {
    CreateAccount,
    Payment,
    PathPaymentStrictReceive,
    ManageSellOffer,
    CreatePassiveSellOffer,
    SetOptions,
    ChangeTrust,
    AllowTrust,
    AccountMerge,
    Inflation,
    ManageData,
    BumpSequence,
    ManageBuyOffer,
    PathPaymentStrictSend,
    CreateClaimableBalance,
    ClaimClaimableBalance,
    BeginSponsoringFutureReserves,
    EndSponsoringFutureReserves,
    RevokeSponsorship,
    Clawback,
    ClawbackClaimableBalance,
    SetTrustLineFlags,
    LiquidityPoolDeposit,
    LiquidityPoolWithdraw,
    InvokeHostFunction,
    ExtendFootprintTtl,
    RestoreFootprint,
}

impl OperationType {
    /// The name of the kind, as it is spelled in the encoding's schema.
    pub open spec fn spec_name(self) -> Seq<char> {
        match self {
            OperationType::CreateAccount => "CreateAccount"@,
            OperationType::Payment => "Payment"@,
            OperationType::PathPaymentStrictReceive => "PathPaymentStrictReceive"@,
            OperationType::ManageSellOffer => "ManageSellOffer"@,
            OperationType::CreatePassiveSellOffer => "CreatePassiveSellOffer"@,
            OperationType::SetOptions => "SetOptions"@,
            OperationType::ChangeTrust => "ChangeTrust"@,
            OperationType::AllowTrust => "AllowTrust"@,
            OperationType::AccountMerge => "AccountMerge"@,
            OperationType::Inflation => "Inflation"@,
            OperationType::ManageData => "ManageData"@,
            OperationType::BumpSequence => "BumpSequence"@,
            OperationType::ManageBuyOffer => "ManageBuyOffer"@,
            OperationType::PathPaymentStrictSend => "PathPaymentStrictSend"@,
            OperationType::CreateClaimableBalance => "CreateClaimableBalance"@,
            OperationType::ClaimClaimableBalance => "ClaimClaimableBalance"@,
            OperationType::BeginSponsoringFutureReserves => "BeginSponsoringFutureReserves"@,
            OperationType::EndSponsoringFutureReserves => "EndSponsoringFutureReserves"@,
            OperationType::RevokeSponsorship => "RevokeSponsorship"@,
            OperationType::Clawback => "Clawback"@,
            OperationType::ClawbackClaimableBalance => "ClawbackClaimableBalance"@,
            OperationType::SetTrustLineFlags => "SetTrustLineFlags"@,
            OperationType::LiquidityPoolDeposit => "LiquidityPoolDeposit"@,
            OperationType::LiquidityPoolWithdraw => "LiquidityPoolWithdraw"@,
            OperationType::InvokeHostFunction => "InvokeHostFunction"@,
            OperationType::ExtendFootprintTtl => "ExtendFootprintTtl"@,
            OperationType::RestoreFootprint => "RestoreFootprint"@,
        }
    }

    /// The name of the kind; never empty.
    pub fn name(&self) -> (r: &'static str)
        ensures
            r@ == self.spec_name(),
            r@.len() > 0,
    {
        let r = match self {
            OperationType::CreateAccount => "CreateAccount",
            OperationType::Payment => "Payment",
            OperationType::PathPaymentStrictReceive => "PathPaymentStrictReceive",
            OperationType::ManageSellOffer => "ManageSellOffer",
            OperationType::CreatePassiveSellOffer => "CreatePassiveSellOffer",
            OperationType::SetOptions => "SetOptions",
            OperationType::ChangeTrust => "ChangeTrust",
            OperationType::AllowTrust => "AllowTrust",
            OperationType::AccountMerge => "AccountMerge",
            OperationType::Inflation => "Inflation",
            OperationType::ManageData => "ManageData",
            OperationType::BumpSequence => "BumpSequence",
            OperationType::ManageBuyOffer => "ManageBuyOffer",
            OperationType::PathPaymentStrictSend => "PathPaymentStrictSend",
            OperationType::CreateClaimableBalance => "CreateClaimableBalance",
            OperationType::ClaimClaimableBalance => "ClaimClaimableBalance",
            OperationType::BeginSponsoringFutureReserves => "BeginSponsoringFutureReserves",
            OperationType::EndSponsoringFutureReserves => "EndSponsoringFutureReserves",
            OperationType::RevokeSponsorship => "RevokeSponsorship",
            OperationType::Clawback => "Clawback",
            OperationType::ClawbackClaimableBalance => "ClawbackClaimableBalance",
            OperationType::SetTrustLineFlags => "SetTrustLineFlags",
            OperationType::LiquidityPoolDeposit => "LiquidityPoolDeposit",
            OperationType::LiquidityPoolWithdraw => "LiquidityPoolWithdraw",
            OperationType::InvokeHostFunction => "InvokeHostFunction",
            OperationType::ExtendFootprintTtl => "ExtendFootprintTtl",
            OperationType::RestoreFootprint => "RestoreFootprint",
        };
        proof {
            reveal_strlit("CreateAccount");
            reveal_strlit("Payment");
            reveal_strlit("PathPaymentStrictReceive");
            reveal_strlit("ManageSellOffer");
            reveal_strlit("CreatePassiveSellOffer");
            reveal_strlit("SetOptions");
            reveal_strlit("ChangeTrust");
            reveal_strlit("AllowTrust");
            reveal_strlit("AccountMerge");
            reveal_strlit("Inflation");
            reveal_strlit("ManageData");
            reveal_strlit("BumpSequence");
            reveal_strlit("ManageBuyOffer");
            reveal_strlit("PathPaymentStrictSend");
            reveal_strlit("CreateClaimableBalance");
            reveal_strlit("ClaimClaimableBalance");
            reveal_strlit("BeginSponsoringFutureReserves");
            reveal_strlit("EndSponsoringFutureReserves");
            reveal_strlit("RevokeSponsorship");
            reveal_strlit("Clawback");
            reveal_strlit("ClawbackClaimableBalance");
            reveal_strlit("SetTrustLineFlags");
            reveal_strlit("LiquidityPoolDeposit");
            reveal_strlit("LiquidityPoolWithdraw");
            reveal_strlit("InvokeHostFunction");
            reveal_strlit("ExtendFootprintTtl");
            reveal_strlit("RestoreFootprint");
        }
        r
    }
}

/// A caller-input error: the call returns a record that carries its message.
#[derive(Clone, Copy, Debug, PartialEq, Eq, Structural)]
pub enum PreflightError {
    /// The footprint path got an operation other than extend-TTL or restore.
    UnsupportedOperation(OperationType),
    /// The instruction leeway does not fit in 32 bits.
    LeewayOutOfRange(u64),
    /// The authorization-mode selector is not one of the three known values.
    InvalidAuthMode(u32),
}

impl PreflightError {
    pub open spec fn spec_message(self) -> Seq<char> {
        match self {
            PreflightError::UnsupportedOperation(t) => "encountered unsupported operation type: '"@
                + t.spec_name()
                + "', instead of 'ExtendFootprintTtl' or 'RestoreFootprint' operations."@,
            PreflightError::LeewayOutOfRange(_) => "out of range integral type conversion attempted"@,
            PreflightError::InvalidAuthMode(_) => "invalid AuthMode value"@,
        }
    }

    /// The human-readable message of the error; never empty.
    pub fn message(&self) -> (r: String)
        ensures
            r@ == self.spec_message(),
            r@.len() > 0,
    {
        match self {
            PreflightError::UnsupportedOperation(t) => {
                let mut s = String::from_str("encountered unsupported operation type: '");
                s.append(t.name());
                s.append("', instead of 'ExtendFootprintTtl' or 'RestoreFootprint' operations.");
                proof {
                    reveal_strlit("encountered unsupported operation type: '");
                }
                s
            },
            PreflightError::LeewayOutOfRange(_) => {
                let s = String::from_str("out of range integral type conversion attempted");
                proof {
                    reveal_strlit("out of range integral type conversion attempted");
                }
                s
            },
            PreflightError::InvalidAuthMode(_) => {
                let s = String::from_str("invalid AuthMode value");
                proof {
                    reveal_strlit("invalid AuthMode value");
                }
                s
            },
        }
    }
}

} // verus!
