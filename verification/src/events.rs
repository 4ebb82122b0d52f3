//! The events the contract emits when a call succeeds.

use vstd::prelude::*;
use crate::address::Address;
use crate::amount::U256;

verus! {

/// A merchant was registered.
#[derive(Debug)]
pub struct MerchantRegistered {
    pub merchant_id: String,
    pub wallet_address: Address,
    pub timestamp: u64,
}

/// A merchant's status changed; the statuses are given by their numbers.
#[derive(Debug)]
pub struct MerchantStatusChanged {
    pub merchant_id: String,
    pub old_status: u8,
    pub new_status: u8,
    pub timestamp: u64,
}

/// A product was created.
#[derive(Debug)]
pub struct ProductCreated {
    pub merchant_id: String,
    pub product_id: String,
    pub price: U256,
    pub timestamp: u64,
}

/// A product was switched on or off.
#[derive(Debug)]
pub struct ProductUpdated {
    pub merchant_id: String,
    pub product_id: String,
    pub timestamp: u64,
}

/// A subscription plan was created.
#[derive(Debug)]
pub struct SubscriptionPlanCreated {
    pub merchant_id: String,
    pub plan_id: String,
    pub price: U256,
    /// The plan's interval: 0 weekly, 1 monthly, 2 yearly. Plans have no
    /// daily interval, so no number stands for a day.
    pub interval: u8,
    pub trial_days: u32,
    pub timestamp: u64,
}

/// A subscription plan was switched on or off.
#[derive(Debug)]
pub struct SubscriptionPlanUpdated {
    pub merchant_id: String,
    pub plan_id: String,
    pub timestamp: u64,
}

/// A payment was recorded.
#[derive(Debug)]
pub struct PaymentReceived {
    pub payer: Address,
    pub product_id: Option<String>,
    pub subscription_plan_id: Option<String>,
    pub timestamp: u64,
}

/// A subscription was started.
#[derive(Debug)]
pub struct SubscriptionStarted {
    pub merchant_id: String,
    pub subscriber: Address,
    pub plan_id: String,
    pub subscription_id: String,
    pub period_start: u64,
    pub period_end: u64,
    pub trial_end: Option<u64>,
    pub timestamp: u64,
}

/// A subscription was charged for a period.
#[derive(Debug)]
pub struct SubscriptionCharged {
    pub merchant_id: String,
    pub subscriber: Address,
    pub plan_id: String,
    pub amount: U256,
    pub token_address: String,
    pub period_start: u64,
    pub period_end: u64,
    pub success: bool,
    pub timestamp: u64,
}

/// A subscription's status changed; the statuses are given by their numbers.
#[derive(Debug)]
pub struct SubscriptionStatusChanged {
    pub merchant_id: String,
    pub subscriber: Address,
    pub plan_id: String,
    pub old_status: u8,
    pub new_status: u8,
    pub timestamp: u64,
}

/// Funds were withdrawn from a merchant's balance.
#[derive(Debug)]
pub struct Withdrawal {
    pub merchant_id: String,
    pub recipient: Address,
    pub amount: U256,
    pub token_address: String,
    pub timestamp: u64,
}

/// The platform's configuration was set.
#[derive(Debug)]
pub struct ConfigurationUpdated {
    pub admin: Address,
    pub config_type: String,
    pub timestamp: u64,
}

} // verus!
