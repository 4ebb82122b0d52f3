//! Why the contract refuses a call.

use vstd::prelude::*;

verus! {

/// The errors with which the contract refuses a call; a refused call changes nothing.
#[derive(Clone, Copy, Debug, PartialEq, Eq, Structural)]
pub enum CasPayError {
    /// Unauthorized access attempt: the caller is not authorized.
    Unauthorized,
    /// Invalid merchant: the merchant does not exist or is inactive.
    InvalidMerchant,
    /// A merchant is already registered with this identifier.
    MerchantAlreadyExists,
    /// Invalid product: the product does not exist or is inactive.
    InvalidProduct,
    /// A product already exists with this identifier.
    ProductAlreadyExists,
    /// Invalid subscription plan.
    InvalidSubscriptionPlan,
    /// The subscription plan already exists.
    SubscriptionPlanAlreadyExists,
    /// Invalid payment: amount, token or merchant mismatch.
    InvalidPayment,
    /// A payment is already recorded with this transaction hash.
    PaymentAlreadyRecorded,
    /// Invalid subscription: the subscription does not exist or has expired.
    InvalidSubscription,
    /// A subscription already exists with this identifier.
    SubscriptionAlreadyActive,
    /// The balance is too small for the withdrawal.
    InsufficientBalance,
    /// Invalid token address.
    InvalidToken,
    /// The contract is paused: operations are disabled.
    ContractPaused,
    /// Invalid timestamp: it must be in the future.
    InvalidTimestamp,
    /// Invalid amount: it must be greater than zero.
    InvalidAmount,
    /// Invalid merchant status.
    InvalidMerchantStatus,
    /// The entity cannot be deleted: others depend on it.
    HasDependencies,
    /// Storage overflow: too many entities.
    StorageOverflow,
    /// Invalid signature.
    InvalidSignature,
    /// The operation has expired.
    OperationExpired,
}

impl CasPayError {
    /// The number with which the contract reverts for this error.
    pub open spec fn spec_code(self) -> u16 {
        match self {
            CasPayError::Unauthorized => 1000,
            CasPayError::InvalidMerchant => 1001,
            CasPayError::MerchantAlreadyExists => 1002,
            CasPayError::InvalidProduct => 1003,
            CasPayError::ProductAlreadyExists => 1004,
            CasPayError::InvalidSubscriptionPlan => 1005,
            CasPayError::SubscriptionPlanAlreadyExists => 1006,
            CasPayError::InvalidPayment => 1007,
            CasPayError::PaymentAlreadyRecorded => 1008,
            CasPayError::InvalidSubscription => 1009,
            CasPayError::SubscriptionAlreadyActive => 1010,
            CasPayError::InsufficientBalance => 1011,
            CasPayError::InvalidToken => 1012,
            CasPayError::ContractPaused => 1013,
            CasPayError::InvalidTimestamp => 1014,
            CasPayError::InvalidAmount => 1015,
            CasPayError::InvalidMerchantStatus => 1018,
            CasPayError::HasDependencies => 1019,
            CasPayError::StorageOverflow => 1020,
            CasPayError::InvalidSignature => 1021,
            CasPayError::OperationExpired => 1022,
        }
    }

    /// The number with which the contract reverts for this error.
    pub fn code(&self) -> (r: u16)
        ensures
            r == self.spec_code(),
    {
        match self {
            CasPayError::Unauthorized => 1000,
            CasPayError::InvalidMerchant => 1001,
            CasPayError::MerchantAlreadyExists => 1002,
            CasPayError::InvalidProduct => 1003,
            CasPayError::ProductAlreadyExists => 1004,
            CasPayError::InvalidSubscriptionPlan => 1005,
            CasPayError::SubscriptionPlanAlreadyExists => 1006,
            CasPayError::InvalidPayment => 1007,
            CasPayError::PaymentAlreadyRecorded => 1008,
            CasPayError::InvalidSubscription => 1009,
            CasPayError::SubscriptionAlreadyActive => 1010,
            CasPayError::InsufficientBalance => 1011,
            CasPayError::InvalidToken => 1012,
            CasPayError::ContractPaused => 1013,
            CasPayError::InvalidTimestamp => 1014,
            CasPayError::InvalidAmount => 1015,
            CasPayError::InvalidMerchantStatus => 1018,
            CasPayError::HasDependencies => 1019,
            CasPayError::StorageOverflow => 1020,
            CasPayError::InvalidSignature => 1021,
            CasPayError::OperationExpired => 1022,
        }
    }
}

} // verus!
