//! The records the contract keeps: merchants, products, plans, subscriptions,
//! payments, balances and the platform's configuration.

use vstd::prelude::*;
use crate::address::Address;
use crate::amount::U256;

verus! {

/// A copy of a string with the same text.
pub fn copy_string(s: &String) -> (r: String)
    ensures
        r == *s,
{
    s.clone()
}

/// A copy of an optional string.
pub fn copy_optional_string(s: &Option<String>) -> (r: Option<String>)
    ensures
        r == *s,
{
    match s {
        Some(t) => Some(t.clone()),
        None => None,
    }
}

/// Where a merchant stands with the platform.
#[derive(Clone, Copy, Debug, PartialEq, Eq, Structural)]
pub enum MerchantStatus {
    Pending,
    Active,
    Suspended,
    Closed,
}

impl MerchantStatus {
    /// The number that stands for the status in events.
    pub open spec fn spec_code(self) -> u8 {
        match self {
            MerchantStatus::Pending => 0,
            MerchantStatus::Active => 1,
            MerchantStatus::Suspended => 2,
            MerchantStatus::Closed => 3,
        }
    }

    /// The number that stands for the status in events.
    pub fn code(&self) -> (r: u8)
        ensures
            r == self.spec_code(),
    {
        match self {
            MerchantStatus::Pending => 0,
            MerchantStatus::Active => 1,
            MerchantStatus::Suspended => 2,
            MerchantStatus::Closed => 3,
        }
    }
}

/// A merchant registered with the platform.
#[derive(Debug)]
pub struct MerchantConfig {
    pub merchant_id: String,
    pub wallet_address: Address,
    pub status: MerchantStatus,
    pub created_at: u64,
    pub updated_at: u64,
    pub active: bool,
}

impl Clone for MerchantConfig {
    fn clone(&self) -> (r: Self)
        ensures
            r == *self,
    {
        MerchantConfig {
            merchant_id: copy_string(&self.merchant_id),
            wallet_address: self.wallet_address,
            status: self.status,
            created_at: self.created_at,
            updated_at: self.updated_at,
            active: self.active,
        }
    }
}

/// A product that a merchant sells at a fixed price.
#[derive(Debug)]
pub struct Product {
    pub product_id: String,
    pub merchant_id: String,
    pub price: U256,
    pub active: bool,
    pub created_at: u64,
    pub updated_at: u64,
}

impl Clone for Product {
    fn clone(&self) -> (r: Self)
        ensures
            r == *self,
    {
        Product {
            product_id: copy_string(&self.product_id),
            merchant_id: copy_string(&self.merchant_id),
            price: self.price,
            active: self.active,
            created_at: self.created_at,
            updated_at: self.updated_at,
        }
    }
}

/// The unit of a subscription plan's billing interval: a week, a month or a
/// year. There is no daily interval.
#[derive(Clone, Copy, Debug, PartialEq, Eq, Structural)]
pub enum SubscriptionInterval {
    Weekly,
    Monthly,
    Yearly,
}

impl SubscriptionInterval {
    /// The number that stands for the interval in events: 0 weekly, 1 monthly,
    /// 2 yearly.
    pub open spec fn spec_code(self) -> u8 {
        match self {
            SubscriptionInterval::Weekly => 0,
            SubscriptionInterval::Monthly => 1,
            SubscriptionInterval::Yearly => 2,
        }
    }

    /// The number that stands for the interval in events: 0 weekly, 1 monthly,
    /// 2 yearly.
    pub fn code(&self) -> (r: u8)
        ensures
            r == self.spec_code(),
    {
        match self {
            SubscriptionInterval::Weekly => 0,
            SubscriptionInterval::Monthly => 1,
            SubscriptionInterval::Yearly => 2,
        }
    }
}

/// A recurring plan that a merchant offers.
#[derive(Debug)]
pub struct SubscriptionPlan {
    pub plan_id: String,
    pub merchant_id: String,
    pub price: U256,
    pub interval: SubscriptionInterval,
    pub interval_count: u32,
    pub trial_days: u32,
    pub active: bool,
    pub created_at: u64,
    pub updated_at: u64,
}

impl Clone for SubscriptionPlan {
    fn clone(&self) -> (r: Self)
        ensures
            r == *self,
    {
        SubscriptionPlan {
            plan_id: copy_string(&self.plan_id),
            merchant_id: copy_string(&self.merchant_id),
            price: self.price,
            interval: self.interval,
            interval_count: self.interval_count,
            trial_days: self.trial_days,
            active: self.active,
            created_at: self.created_at,
            updated_at: self.updated_at,
        }
    }
}

/// Where a subscription stands.
#[derive(Clone, Copy, Debug, PartialEq, Eq, Structural)]
pub enum SubscriptionStatus {
    Active,
    Trialing,
    Paused,
    Cancelled,
    PastDue,
    Expired,
}

impl SubscriptionStatus {
    /// The number that stands for the status in events.
    pub open spec fn spec_code(self) -> u8 {
        match self {
            SubscriptionStatus::Active => 0,
            SubscriptionStatus::Trialing => 1,
            SubscriptionStatus::Paused => 2,
            SubscriptionStatus::Cancelled => 3,
            SubscriptionStatus::PastDue => 4,
            SubscriptionStatus::Expired => 5,
        }
    }

    /// The number that stands for the status in events.
    pub fn code(&self) -> (r: u8)
        ensures
            r == self.spec_code(),
    {
        match self {
            SubscriptionStatus::Active => 0,
            SubscriptionStatus::Trialing => 1,
            SubscriptionStatus::Paused => 2,
            SubscriptionStatus::Cancelled => 3,
            SubscriptionStatus::PastDue => 4,
            SubscriptionStatus::Expired => 5,
        }
    }
}

/// A subscriber's subscription to a plan.
#[derive(Debug)]
pub struct Subscription {
    pub merchant_id: String,
    pub subscriber: Address,
    pub plan_id: String,
    pub status: SubscriptionStatus,
    pub current_period_start: u64,
    pub current_period_end: u64,
    pub next_charge_date: Option<u64>,
    pub trial_start: Option<u64>,
    pub trial_end: Option<u64>,
    pub cancel_at_period_end: bool,
    pub cancelled_at: Option<u64>,
    pub created_at: u64,
    pub updated_at: u64,
}

impl Clone for Subscription {
    fn clone(&self) -> (r: Self)
        ensures
            r == *self,
    {
        Subscription {
            merchant_id: copy_string(&self.merchant_id),
            subscriber: self.subscriber,
            plan_id: copy_string(&self.plan_id),
            status: self.status,
            current_period_start: self.current_period_start,
            current_period_end: self.current_period_end,
            next_charge_date: self.next_charge_date,
            trial_start: self.trial_start,
            trial_end: self.trial_end,
            cancel_at_period_end: self.cancel_at_period_end,
            cancelled_at: self.cancelled_at,
            created_at: self.created_at,
            updated_at: self.updated_at,
        }
    }
}

/// A payment as recorded on the chain: who paid, for what, and when.
#[derive(Debug)]
pub struct PaymentRecord {
    pub payer: Address,
    pub product_id: Option<String>,
    pub subscription_plan_id: Option<String>,
    pub timestamp: u64,
}

impl Clone for PaymentRecord {
    fn clone(&self) -> (r: Self)
        ensures
            r == *self,
    {
        PaymentRecord {
            payer: self.payer,
            product_id: copy_optional_string(&self.product_id),
            subscription_plan_id: copy_optional_string(&self.subscription_plan_id),
            timestamp: self.timestamp,
        }
    }
}

/// A merchant's balance of one token.
#[derive(Clone, Copy, Debug)]
pub struct MerchantBalance {
    pub available: U256,
    pub pending: U256,
    pub total_received: U256,
    pub total_withdrawn: U256,
}

impl MerchantBalance {
    /// The balance with every amount zero.
    pub open spec fn spec_empty() -> MerchantBalance {
        MerchantBalance {
            available: U256::from_value(0),
            pending: U256::from_value(0),
            total_received: U256::from_value(0),
            total_withdrawn: U256::from_value(0),
        }
    }
}

impl Default for MerchantBalance {
    fn default() -> (r: Self)
        ensures
            r == MerchantBalance::spec_empty(),
    {
        MerchantBalance {
            available: U256::zero(),
            pending: U256::zero(),
            total_received: U256::zero(),
            total_withdrawn: U256::zero(),
        }
    }
}

/// Who administers the platform, and whether it is paused.
#[derive(Clone, Copy, Debug)]
pub struct PlatformConfig {
    pub admin: Address,
    pub paused: bool,
}

} // verus!
