//! The CasPay contract: merchants, products, subscription plans, payments,
//! subscriptions and withdrawals, administered by one admin.
//!
//! Each entry point takes the caller and the block time as plain values. A call
//! that is refused returns the error and leaves the contract as it was; a call
//! that succeeds returns the events to emit.

use vstd::prelude::*;
use crate::address::Address;
use crate::amount::{U256, amount_bound};
use crate::errors::CasPayError;
use crate::events::{
    ConfigurationUpdated, MerchantRegistered, MerchantStatusChanged, PaymentReceived,
    ProductCreated, ProductUpdated, SubscriptionPlanCreated, SubscriptionPlanUpdated,
    SubscriptionStarted, SubscriptionStatusChanged, Withdrawal,
};
use crate::storage::{CasPayStorage, StorageView};
use crate::text::{balance_key, balance_key_text, payment_key, payment_key_text};
use crate::types::{
    copy_optional_string, copy_string, MerchantBalance, MerchantConfig, MerchantStatus,
    PaymentRecord, PlatformConfig, Product, Subscription, SubscriptionInterval, SubscriptionPlan,
    SubscriptionStatus,
};

verus! {

/// What the contract adds to the block time for each day of a trial: the
/// number of seconds in a day.
pub const SECONDS_PER_DAY: u64 = 86400;

/// What the contract adds to the block time for the length of a subscription
/// period: thirty times `SECONDS_PER_DAY`.
pub const PERIOD_LENGTH: u64 = 2592000;

// ==================== CHECKS ====================

/// The first of two checks that fails.
pub open spec fn first_error(a: Option<CasPayError>, b: Option<CasPayError>) -> Option<CasPayError> {
    if a is Some {
        a
    } else {
        b
    }
}

/// `Some(e)` when `cond` holds.
pub open spec fn error_if(cond: bool, e: CasPayError) -> Option<CasPayError> {
    if cond {
        Some(e)
    } else {
        None
    }
}

/// The check that the caller is the admin: it fails with `Unauthorized` when the
/// contract has no configuration or the caller is someone else.
pub open spec fn admin_error(v: StorageView, caller: Address) -> Option<CasPayError> {
    match v.platform_config {
        None => Some(CasPayError::Unauthorized),
        Some(c) => error_if(c.admin != caller, CasPayError::Unauthorized),
    }
}

/// The check that the contract is not paused: it fails with `Unauthorized` when
/// the contract has no configuration and with `ContractPaused` when it is paused.
pub open spec fn paused_error(v: StorageView) -> Option<CasPayError> {
    match v.platform_config {
        None => Some(CasPayError::Unauthorized),
        Some(c) => error_if(c.paused, CasPayError::ContractPaused),
    }
}

/// The checks of the operations that an admin makes while the contract runs.
pub open spec fn running_admin_error(v: StorageView, caller: Address) -> Option<CasPayError> {
    first_error(paused_error(v), admin_error(v, caller))
}

// ==================== THE OPERATIONS, STATED ====================

/// The storage after the contract is initialized with `admin`; a contract that
/// has a configuration already stays as it is.
pub open spec fn initialized(v: StorageView, admin: Address) -> StorageView {
    if v.platform_config is None {
        StorageView {
            platform_config: Some(PlatformConfig { admin, paused: false }),
            total_platform_revenue: Some(U256::from_value(0)),
            ..v
        }
    } else {
        v
    }
}

/// The event of an initialization by `admin` at `block_time`.
pub open spec fn is_initial_setup_event(e: ConfigurationUpdated, admin: Address, block_time: u64) -> bool {
    &&& e.admin == admin
    &&& e.config_type@ == "initial_setup"@
    &&& e.timestamp == block_time
}

/// Why registering a merchant fails, after the contract is initialized with the caller.
pub open spec fn register_merchant_error(v: StorageView, caller: Address, merchant_id: Seq<char>) -> Option<CasPayError> {
    let w = initialized(v, caller);
    first_error(
        running_admin_error(w, caller),
        error_if(w.merchants.contains_key(merchant_id), CasPayError::MerchantAlreadyExists),
    )
}

/// A newly registered merchant.
pub open spec fn new_merchant(merchant_id: String, wallet_address: Address, block_time: u64) -> MerchantConfig {
    MerchantConfig {
        merchant_id,
        wallet_address,
        status: MerchantStatus::Active,
        created_at: block_time,
        updated_at: block_time,
        active: true,
    }
}

/// Why changing a merchant's status fails.
pub open spec fn update_merchant_status_error(v: StorageView, caller: Address, merchant_id: Seq<char>) -> Option<CasPayError> {
    first_error(
        admin_error(v, caller),
        error_if(!v.merchants.contains_key(merchant_id), CasPayError::InvalidMerchant),
    )
}

/// Why creating a product fails.
pub open spec fn create_product_error(
    v: StorageView,
    caller: Address,
    merchant_id: Seq<char>,
    product_id: Seq<char>,
    price: U256,
) -> Option<CasPayError> {
    first_error(
        running_admin_error(v, caller),
        first_error(
            error_if(!v.merchants.contains_key(merchant_id), CasPayError::InvalidMerchant),
            first_error(
                error_if(price@ == 0, CasPayError::InvalidAmount),
                error_if(v.products.contains_key(product_id), CasPayError::ProductAlreadyExists),
            ),
        ),
    )
}

/// A newly created product.
pub open spec fn new_product(merchant_id: String, product_id: String, price: U256, block_time: u64) -> Product {
    Product { product_id, merchant_id, price, active: true, created_at: block_time, updated_at: block_time }
}

/// Why switching a product on or off fails.
pub open spec fn update_product_status_error(v: StorageView, caller: Address, product_id: Seq<char>) -> Option<CasPayError> {
    first_error(
        admin_error(v, caller),
        error_if(!v.products.contains_key(product_id), CasPayError::InvalidProduct),
    )
}

/// Why creating a subscription plan fails.
pub open spec fn create_subscription_plan_error(
    v: StorageView,
    caller: Address,
    merchant_id: Seq<char>,
    plan_id: Seq<char>,
    price: U256,
) -> Option<CasPayError> {
    first_error(
        running_admin_error(v, caller),
        first_error(
            error_if(!v.merchants.contains_key(merchant_id), CasPayError::InvalidMerchant),
            first_error(
                error_if(price@ == 0, CasPayError::InvalidAmount),
                error_if(
                    v.subscription_plans.contains_key(plan_id),
                    CasPayError::SubscriptionPlanAlreadyExists,
                ),
            ),
        ),
    )
}

/// A newly created subscription plan.
pub open spec fn new_plan(
    merchant_id: String,
    plan_id: String,
    price: U256,
    interval: SubscriptionInterval,
    interval_count: u32,
    trial_days: u32,
    block_time: u64,
) -> SubscriptionPlan {
    SubscriptionPlan {
        plan_id,
        merchant_id,
        price,
        interval,
        interval_count,
        trial_days,
        active: true,
        created_at: block_time,
        updated_at: block_time,
    }
}

/// Why switching a subscription plan on or off fails.
pub open spec fn update_plan_status_error(v: StorageView, caller: Address, plan_id: Seq<char>) -> Option<CasPayError> {
    first_error(
        admin_error(v, caller),
        error_if(!v.subscription_plans.contains_key(plan_id), CasPayError::InvalidSubscriptionPlan),
    )
}

/// Why starting a subscription fails.
pub open spec fn create_subscription_error(
    v: StorageView,
    caller: Address,
    subscription_id: Seq<char>,
    plan_id: Seq<char>,
) -> Option<CasPayError> {
    first_error(
        running_admin_error(v, caller),
        first_error(
            error_if(
                !v.subscription_plans.contains_key(plan_id) || !v.subscription_plans[plan_id].active,
                CasPayError::InvalidSubscriptionPlan,
            ),
            error_if(
                v.subscriptions.contains_key(subscription_id),
                CasPayError::SubscriptionAlreadyActive,
            ),
        ),
    )
}

/// The times of a subscription started at `block_time` with `trial_days` of
/// trial fit in 64 bits.
pub open spec fn subscription_times_fit(block_time: u64, trial_days: u32) -> bool {
    &&& block_time + PERIOD_LENGTH <= u64::MAX
    &&& block_time + trial_days * SECONDS_PER_DAY <= u64::MAX
}

/// The end of the trial of a subscription started at `block_time`, if the plan has one.
pub open spec fn trial_end_of(trial_days: u32, block_time: u64) -> Option<u64> {
    if trial_days > 0 {
        Some((block_time + trial_days * SECONDS_PER_DAY) as u64)
    } else {
        None
    }
}

/// A subscription started at `block_time` on a plan with `trial_days` of trial:
/// it is trialing until the trial ends when there is a trial, active otherwise,
/// and its first period ends `PERIOD_LENGTH` after it starts.
pub open spec fn new_subscription(
    trial_days: u32,
    merchant_id: String,
    subscriber: Address,
    plan_id: String,
    block_time: u64,
) -> Subscription {
    let period_end = (block_time + PERIOD_LENGTH) as u64;
    let trial_end = trial_end_of(trial_days, block_time);
    Subscription {
        merchant_id,
        subscriber,
        plan_id,
        status: if trial_days > 0 {
            SubscriptionStatus::Trialing
        } else {
            SubscriptionStatus::Active
        },
        current_period_start: block_time,
        current_period_end: period_end,
        next_charge_date: if trial_days > 0 {
            trial_end
        } else {
            Some(period_end)
        },
        trial_start: if trial_days > 0 {
            Some(block_time)
        } else {
            None
        },
        trial_end,
        cancel_at_period_end: false,
        cancelled_at: None,
        created_at: block_time,
        updated_at: block_time,
    }
}

/// Whether a subscription grants access at `block_time`: it is active or
/// trialing and its period has not ended.
pub open spec fn subscription_live(s: Subscription, block_time: u64) -> bool {
    &&& (s.status == SubscriptionStatus::Active || s.status == SubscriptionStatus::Trialing)
    &&& s.current_period_end >= block_time
}

/// Whether the subscription stored under the identifier grants access at `block_time`.
pub open spec fn check_subscription_result(v: StorageView, subscription_id: Seq<char>, block_time: u64) -> bool {
    v.subscriptions.contains_key(subscription_id) && subscription_live(
        v.subscriptions[subscription_id],
        block_time,
    )
}

/// Why cancelling a subscription fails: only the admin and the subscriber may cancel.
pub open spec fn cancel_subscription_error(v: StorageView, caller: Address, subscription_id: Seq<char>) -> Option<CasPayError> {
    first_error(
        paused_error(v),
        first_error(
            error_if(!v.subscriptions.contains_key(subscription_id), CasPayError::InvalidSubscription),
            error_if(
                v.platform_config.unwrap().admin != caller && v.subscriptions[subscription_id].subscriber
                    != caller,
                CasPayError::Unauthorized,
            ),
        ),
    )
}

/// A subscription after it is cancelled at `block_time`: at the end of its
/// period, or at once.
pub open spec fn cancelled(s: Subscription, cancel_at_period_end: bool, block_time: u64) -> Subscription {
    if cancel_at_period_end {
        Subscription { cancel_at_period_end: true, cancelled_at: Some(block_time), updated_at: block_time, ..s }
    } else {
        Subscription {
            status: SubscriptionStatus::Cancelled,
            cancelled_at: Some(block_time),
            updated_at: block_time,
            ..s
        }
    }
}

/// Why a withdrawal fails.
pub open spec fn withdraw_error(
    v: StorageView,
    caller: Address,
    merchant_id: Seq<char>,
    token_address: Seq<char>,
    amount: U256,
) -> Option<CasPayError> {
    first_error(
        running_admin_error(v, caller),
        first_error(
            error_if(amount@ == 0, CasPayError::InvalidAmount),
            error_if(
                v.balance_at(balance_key_text(merchant_id, token_address)).available@ < amount@,
                CasPayError::InsufficientBalance,
            ),
        ),
    )
}

/// A balance after `amount` is withdrawn from it.
pub open spec fn withdrawn(b: MerchantBalance, amount: U256) -> MerchantBalance {
    MerchantBalance {
        available: U256::from_value((b.available@ - amount@) as nat),
        total_withdrawn: U256::from_value(b.total_withdrawn@ + amount@),
        ..b
    }
}

/// The storage with the configuration's pause flag set to `paused`.
pub open spec fn with_paused(v: StorageView, paused: bool) -> StorageView {
    StorageView { platform_config: Some(PlatformConfig { paused, ..v.platform_config.unwrap() }), ..v }
}

// ==================== THE STORAGE AFTER A CALL THAT SUCCEEDS ====================

/// The storage after the caller registers a merchant.
pub open spec fn register_merchant_after(
    v: StorageView,
    caller: Address,
    merchant_id: String,
    wallet_address: Address,
    block_time: u64,
) -> StorageView {
    let w = initialized(v, caller);
    StorageView {
        merchants: w.merchants.insert(merchant_id@, new_merchant(merchant_id, wallet_address, block_time)),
        ..w
    }
}

/// The storage after a merchant's status changes.
pub open spec fn update_merchant_status_after(
    v: StorageView,
    merchant_id: String,
    new_status: MerchantStatus,
    block_time: u64,
) -> StorageView {
    StorageView {
        merchants: v.merchants.insert(
            merchant_id@,
            MerchantConfig { status: new_status, updated_at: block_time, ..v.merchants[merchant_id@] },
        ),
        ..v
    }
}

/// The storage after a product is created.
pub open spec fn create_product_after(
    v: StorageView,
    merchant_id: String,
    product_id: String,
    price: U256,
    block_time: u64,
) -> StorageView {
    StorageView {
        products: v.products.insert(product_id@, new_product(merchant_id, product_id, price, block_time)),
        ..v
    }
}

/// The storage after a product is switched on or off.
pub open spec fn update_product_status_after(
    v: StorageView,
    product_id: String,
    active: bool,
    block_time: u64,
) -> StorageView {
    StorageView {
        products: v.products.insert(
            product_id@,
            Product { active, updated_at: block_time, ..v.products[product_id@] },
        ),
        ..v
    }
}

/// The storage after a subscription plan is created.
pub open spec fn create_subscription_plan_after(
    v: StorageView,
    merchant_id: String,
    plan_id: String,
    price: U256,
    interval: SubscriptionInterval,
    interval_count: u32,
    trial_days: u32,
    block_time: u64,
) -> StorageView {
    StorageView {
        subscription_plans: v.subscription_plans.insert(
            plan_id@,
            new_plan(merchant_id, plan_id, price, interval, interval_count, trial_days, block_time),
        ),
        ..v
    }
}

/// The storage after a subscription plan is switched on or off.
pub open spec fn update_plan_status_after(
    v: StorageView,
    plan_id: String,
    active: bool,
    block_time: u64,
) -> StorageView {
    StorageView {
        subscription_plans: v.subscription_plans.insert(
            plan_id@,
            SubscriptionPlan { active, updated_at: block_time, ..v.subscription_plans[plan_id@] },
        ),
        ..v
    }
}

/// The storage after a payment is recorded.
pub open spec fn record_payment_after(
    v: StorageView,
    payer: Address,
    product_id: Option<String>,
    subscription_plan_id: Option<String>,
    block_time: u64,
) -> StorageView {
    StorageView {
        payments: v.payments.insert(
            payment_key_text(payer, block_time),
            PaymentRecord { payer, product_id, subscription_plan_id, timestamp: block_time },
        ),
        ..v
    }
}

/// The storage after a subscription is started.
pub open spec fn create_subscription_after(
    v: StorageView,
    subscription_id: String,
    merchant_id: String,
    subscriber: Address,
    plan_id: String,
    block_time: u64,
) -> StorageView {
    StorageView {
        subscriptions: v.subscriptions.insert(
            subscription_id@,
            new_subscription(
                v.subscription_plans[plan_id@].trial_days,
                merchant_id,
                subscriber,
                plan_id,
                block_time,
            ),
        ),
        ..v
    }
}

/// The storage after a subscription is cancelled.
pub open spec fn cancel_subscription_after(
    v: StorageView,
    subscription_id: String,
    cancel_at_period_end: bool,
    block_time: u64,
) -> StorageView {
    StorageView {
        subscriptions: v.subscriptions.insert(
            subscription_id@,
            cancelled(v.subscriptions[subscription_id@], cancel_at_period_end, block_time),
        ),
        ..v
    }
}

/// The storage after an amount is withdrawn from a merchant's balance of a token.
pub open spec fn withdraw_after(
    v: StorageView,
    merchant_id: String,
    token_address: String,
    amount: U256,
) -> StorageView {
    let key = balance_key_text(merchant_id@, token_address@);
    StorageView {
        merchant_balances: v.merchant_balances.insert(key, withdrawn(v.balance_at(key), amount)),
        ..v
    }
}

// ==================== THE CONTRACT ====================

/// The CasPay contract, holding its storage.
pub struct CasPay {
    storage: CasPayStorage,
}

impl View for CasPay {
    type V = StorageView;

    closed spec fn view(&self) -> StorageView {
        self.storage@
    }
}

impl CasPay {
    /// A contract with empty storage, as deployed before `init` runs.
    pub fn new() -> (c: Self)
        ensures
            c@.platform_config is None,
            c@.merchants == Map::<Seq<char>, MerchantConfig>::empty(),
            c@.products == Map::<Seq<char>, Product>::empty(),
            c@.subscription_plans == Map::<Seq<char>, SubscriptionPlan>::empty(),
            c@.subscriptions == Map::<Seq<char>, Subscription>::empty(),
            c@.payments == Map::<Seq<char>, PaymentRecord>::empty(),
            c@.merchant_balances == Map::<Seq<char>, MerchantBalance>::empty(),
            c@.total_platform_revenue is None,
    {
        CasPay { storage: CasPayStorage::new() }
    }

    /// A contract over the given storage.
    pub fn from_storage(storage: CasPayStorage) -> (c: Self)
        ensures
            c@ == storage@,
    {
        CasPay { storage }
    }

    /// The contract's storage.
    pub fn storage(&self) -> (s: &CasPayStorage)
        ensures
            s@ == self@,
    {
        &self.storage
    }

    /// The contract's storage, taken out of it.
    pub fn into_storage(self) -> (s: CasPayStorage)
        ensures
            s@ == self@,
    {
        self.storage
    }

    /// Sets the configuration on first use: `admin` becomes the admin, the
    /// contract runs, the revenue is zero, and the setup event is returned.
    fn ensure_initialized(&mut self, admin: Address, block_time: u64) -> (r: Option<ConfigurationUpdated>)
        ensures
            final(self)@ == initialized(old(self)@, admin),
            r is Some <==> old(self)@.platform_config is None,
            r matches Some(e) ==> is_initial_setup_event(e, admin, block_time),
    {
        if self.storage.platform_config.is_none() {
            let config = PlatformConfig { admin, paused: false };
            self.storage.platform_config = Some(config);
            self.storage.init();
            Some(ConfigurationUpdated { admin, config_type: String::from_str("initial_setup"), timestamp: block_time })
        } else {
            None
        }
    }

    /// The configuration; a contract without one refuses with `Unauthorized`.
    fn get_platform_config(&self) -> (r: Result<PlatformConfig, CasPayError>)
        ensures
            match self@.platform_config {
                Some(c) => r == Ok::<PlatformConfig, CasPayError>(c),
                None => r == Err::<PlatformConfig, CasPayError>(CasPayError::Unauthorized),
            },
    {
        match self.storage.platform_config {
            Some(c) => Ok(c),
            None => Err(CasPayError::Unauthorized),
        }
    }

    /// Refuses a caller that is not the admin.
    fn require_admin(&self, caller: &Address) -> (r: Result<(), CasPayError>)
        ensures
            r is Ok <==> admin_error(self@, *caller) is None,
            r matches Err(e) ==> admin_error(self@, *caller) == Some(e),
    {
        let config = self.get_platform_config()?;
        if *caller != config.admin {
            return Err(CasPayError::Unauthorized);
        }
        Ok(())
    }

    /// Refuses every call while the contract is paused.
    fn require_not_paused(&self) -> (r: Result<(), CasPayError>)
        ensures
            r is Ok <==> paused_error(self@) is None,
            r matches Err(e) ==> paused_error(self@) == Some(e),
    {
        let config = self.get_platform_config()?;
        if config.paused {
            return Err(CasPayError::ContractPaused);
        }
        Ok(())
    }

    /// Refuses a call by anyone but the admin, and every call while paused.
    fn require_running_admin(&self, caller: &Address) -> (r: Result<(), CasPayError>)
        ensures
            r is Ok <==> running_admin_error(self@, *caller) is None,
            r matches Err(e) ==> running_admin_error(self@, *caller) == Some(e),
    {
        self.require_not_paused()?;
        self.require_admin(caller)
    }

    /// Initializes the contract with `admin`; does nothing once it has a configuration.
    pub fn init(&mut self, admin: Address, block_time: u64) -> (r: Option<ConfigurationUpdated>)
        ensures
            final(self)@ == initialized(old(self)@, admin),
            r is Some <==> old(self)@.platform_config is None,
            r matches Some(e) ==> is_initial_setup_event(e, admin, block_time),
    {
        self.ensure_initialized(admin, block_time)
    }

    // ==================== SUBSCRIPTION MANAGEMENT ====================

    /// The checks that starting a subscription makes before it computes the
    /// subscription's times: refused while paused, by anyone but the admin,
    /// for a missing or inactive plan, and for an identifier already in use.
    pub fn create_subscription_check(
        &self,
        caller: &Address,
        subscription_id: &String,
        plan_id: &String,
    ) -> (r: Result<(), CasPayError>)
        ensures
            match create_subscription_error(self@, *caller, subscription_id@, plan_id@) {
                Some(e) => r == Err::<(), CasPayError>(e),
                None => r is Ok,
            },
    {
        self.require_running_admin(caller)?;
        let plan = match self.storage.get_plan(plan_id) {
            Some(p) => p,
            None => return Err(CasPayError::InvalidSubscriptionPlan),
        };
        if !plan.active {
            return Err(CasPayError::InvalidSubscriptionPlan);
        }
        if self.storage.subscription_exists(subscription_id) {
            return Err(CasPayError::SubscriptionAlreadyActive);
        }
        Ok(())
    }

    /// Starts a subscription of `subscriber` to an active plan (admin only).
    /// With a trial, the subscription is trialing and is next charged when the
    /// trial ends; without one, it is active and is next charged when its
    /// first period ends.
    pub fn create_subscription(
        &mut self,
        caller: Address,
        block_time: u64,
        subscription_id: String,
        merchant_id: String,
        subscriber: Address,
        plan_id: String,
    ) -> (r: Result<SubscriptionStarted, CasPayError>)
        requires
            create_subscription_error(old(self)@, caller, subscription_id@, plan_id@) is None
                ==> subscription_times_fit(
                block_time,
                old(self)@.subscription_plans[plan_id@].trial_days,
            ),
        ensures
            match create_subscription_error(old(self)@, caller, subscription_id@, plan_id@) {
                Some(e) => {
                    &&& r == Err::<SubscriptionStarted, CasPayError>(e)
                    &&& final(self)@ == old(self)@
                },
                None => {
                    let trial_days = old(self)@.subscription_plans[plan_id@].trial_days;
                    let sub = new_subscription(trial_days, merchant_id, subscriber, plan_id, block_time);
                    &&& final(self)@ == create_subscription_after(
                        old(self)@,
                        subscription_id,
                        merchant_id,
                        subscriber,
                        plan_id,
                        block_time,
                    )
                    &&& r matches Ok(ev) && ev == (SubscriptionStarted {
                        merchant_id,
                        subscriber,
                        plan_id,
                        subscription_id,
                        period_start: block_time,
                        period_end: sub.current_period_end,
                        trial_end: sub.trial_end,
                        timestamp: block_time,
                    })
                },
            },
    {
        self.create_subscription_check(&caller, &subscription_id, &plan_id)?;
        let plan = match self.storage.get_plan(&plan_id) {
            Some(p) => p,
            None => return Err(CasPayError::InvalidSubscriptionPlan),
        };
        let timestamp = block_time;
        let trial_start = if plan.trial_days > 0 {
            Some(timestamp)
        } else {
            None
        };
        let trial_end = if plan.trial_days > 0 {
            Some(timestamp + (plan.trial_days as u64 * SECONDS_PER_DAY))
        } else {
            None
        };
        let period_start = timestamp;
        let period_end = period_start + PERIOD_LENGTH;
        let next_charge_date = if trial_end.is_some() {
            trial_end
        } else {
            Some(period_end)
        };
        let status = if plan.trial_days > 0 {
            SubscriptionStatus::Trialing
        } else {
            SubscriptionStatus::Active
        };
        let subscription = Subscription {
            merchant_id: copy_string(&merchant_id),
            subscriber,
            plan_id: copy_string(&plan_id),
            status,
            current_period_start: period_start,
            current_period_end: period_end,
            next_charge_date,
            trial_start,
            trial_end,
            cancel_at_period_end: false,
            cancelled_at: None,
            created_at: timestamp,
            updated_at: timestamp,
        };
        self.storage.set_subscription(copy_string(&subscription_id), subscription);
        Ok(
            SubscriptionStarted {
                merchant_id,
                subscriber,
                plan_id,
                subscription_id,
                period_start,
                period_end,
                trial_end,
                timestamp,
            },
        )
    }

    // ==================== MERCHANT MANAGEMENT ====================

    /// Registers a merchant (admin only). A contract without a configuration is
    /// first initialized with the caller as admin, and its setup event is
    /// returned beside the registration event.
    pub fn register_merchant(
        &mut self,
        caller: Address,
        block_time: u64,
        merchant_id: String,
        wallet_address: Address,
    ) -> (r: Result<(Option<ConfigurationUpdated>, MerchantRegistered), CasPayError>)
        ensures
            match register_merchant_error(old(self)@, caller, merchant_id@) {
                Some(e) => {
                    &&& r == Err::<(Option<ConfigurationUpdated>, MerchantRegistered), CasPayError>(e)
                    &&& final(self)@ == old(self)@
                },
                None => {
                    &&& final(self)@ == register_merchant_after(
                        old(self)@,
                        caller,
                        merchant_id,
                        wallet_address,
                        block_time,
                    )
                    &&& r matches Ok((setup, ev)) && {
                        &&& setup is Some <==> old(self)@.platform_config is None
                        &&& setup matches Some(e) ==> is_initial_setup_event(e, caller, block_time)
                        &&& ev == (MerchantRegistered { merchant_id, wallet_address, timestamp: block_time })
                    }
                },
            },
    {
        let configured = self.storage.platform_config.is_some();
        if configured {
            self.require_running_admin(&caller)?;
        }
        if self.storage.merchant_exists(&merchant_id) {
            return Err(CasPayError::MerchantAlreadyExists);
        }
        let setup = self.ensure_initialized(caller, block_time);
        let config = MerchantConfig {
            merchant_id: copy_string(&merchant_id),
            wallet_address,
            status: MerchantStatus::Active,
            created_at: block_time,
            updated_at: block_time,
            active: true,
        };
        self.storage.set_merchant(copy_string(&merchant_id), config);
        Ok((setup, MerchantRegistered { merchant_id, wallet_address, timestamp: block_time }))
    }

    /// Changes a merchant's status (admin only).
    pub fn update_merchant_status(
        &mut self,
        caller: Address,
        block_time: u64,
        merchant_id: String,
        new_status: MerchantStatus,
    ) -> (r: Result<MerchantStatusChanged, CasPayError>)
        ensures
            match update_merchant_status_error(old(self)@, caller, merchant_id@) {
                Some(e) => {
                    &&& r == Err::<MerchantStatusChanged, CasPayError>(e)
                    &&& final(self)@ == old(self)@
                },
                None => {
                    let m = old(self)@.merchants[merchant_id@];
                    &&& final(self)@ == update_merchant_status_after(
                        old(self)@,
                        merchant_id,
                        new_status,
                        block_time,
                    )
                    &&& r matches Ok(ev) && ev == (MerchantStatusChanged {
                        merchant_id,
                        old_status: m.status.spec_code(),
                        new_status: new_status.spec_code(),
                        timestamp: block_time,
                    })
                },
            },
    {
        self.require_admin(&caller)?;
        let mut merchant = match self.storage.get_merchant(&merchant_id) {
            Some(m) => m,
            None => return Err(CasPayError::InvalidMerchant),
        };
        let old_status = merchant.status;
        merchant.status = new_status;
        merchant.updated_at = block_time;
        self.storage.set_merchant(copy_string(&merchant_id), merchant);
        Ok(
            MerchantStatusChanged {
                merchant_id,
                old_status: old_status.code(),
                new_status: new_status.code(),
                timestamp: block_time,
            },
        )
    }

    /// The merchant registered under the identifier.
    pub fn get_merchant(&self, merchant_id: String) -> (r: Option<MerchantConfig>)
        ensures
            r == self@.merchants.get(merchant_id@),
    {
        self.storage.get_merchant(&merchant_id)
    }

    // ==================== PRODUCT MANAGEMENT ====================

    /// Creates a product of a registered merchant at a price above zero (admin only).
    pub fn create_product(
        &mut self,
        caller: Address,
        block_time: u64,
        merchant_id: String,
        product_id: String,
        price: U256,
    ) -> (r: Result<ProductCreated, CasPayError>)
        ensures
            match create_product_error(old(self)@, caller, merchant_id@, product_id@, price) {
                Some(e) => {
                    &&& r == Err::<ProductCreated, CasPayError>(e)
                    &&& final(self)@ == old(self)@
                },
                None => {
                    &&& final(self)@ == create_product_after(
                        old(self)@,
                        merchant_id,
                        product_id,
                        price,
                        block_time,
                    )
                    &&& r matches Ok(ev) && ev == (ProductCreated {
                        merchant_id,
                        product_id,
                        price,
                        timestamp: block_time,
                    })
                },
            },
    {
        self.require_running_admin(&caller)?;
        if !self.storage.merchant_exists(&merchant_id) {
            return Err(CasPayError::InvalidMerchant);
        }
        if price.is_zero() {
            return Err(CasPayError::InvalidAmount);
        }
        if self.storage.product_exists(&product_id) {
            return Err(CasPayError::ProductAlreadyExists);
        }
        let product = Product {
            product_id: copy_string(&product_id),
            merchant_id: copy_string(&merchant_id),
            price,
            active: true,
            created_at: block_time,
            updated_at: block_time,
        };
        self.storage.set_product(copy_string(&product_id), product);
        Ok(ProductCreated { merchant_id, product_id, price, timestamp: block_time })
    }

    /// Switches a product on or off (admin only).
    pub fn update_product_status(
        &mut self,
        caller: Address,
        block_time: u64,
        product_id: String,
        active: bool,
    ) -> (r: Result<ProductUpdated, CasPayError>)
        ensures
            match update_product_status_error(old(self)@, caller, product_id@) {
                Some(e) => {
                    &&& r == Err::<ProductUpdated, CasPayError>(e)
                    &&& final(self)@ == old(self)@
                },
                None => {
                    let p = old(self)@.products[product_id@];
                    &&& final(self)@ == update_product_status_after(
                        old(self)@,
                        product_id,
                        active,
                        block_time,
                    )
                    &&& r matches Ok(ev) && ev == (ProductUpdated {
                        merchant_id: p.merchant_id,
                        product_id,
                        timestamp: block_time,
                    })
                },
            },
    {
        self.require_admin(&caller)?;
        let mut product = match self.storage.get_product(&product_id) {
            Some(p) => p,
            None => return Err(CasPayError::InvalidProduct),
        };
        product.active = active;
        product.updated_at = block_time;
        let merchant_id = copy_string(&product.merchant_id);
        self.storage.set_product(copy_string(&product_id), product);
        Ok(ProductUpdated { merchant_id, product_id, timestamp: block_time })
    }

    /// The product stored under the identifier.
    pub fn get_product(&self, product_id: String) -> (r: Option<Product>)
        ensures
            r == self@.products.get(product_id@),
    {
        self.storage.get_product(&product_id)
    }

    // ==================== SUBSCRIPTION PLAN MANAGEMENT ====================

    /// Creates a subscription plan of a registered merchant at a price above
    /// zero (admin only).
    pub fn create_subscription_plan(
        &mut self,
        caller: Address,
        block_time: u64,
        merchant_id: String,
        plan_id: String,
        price: U256,
        interval: SubscriptionInterval,
        interval_count: u32,
        trial_days: u32,
    ) -> (r: Result<SubscriptionPlanCreated, CasPayError>)
        ensures
            match create_subscription_plan_error(old(self)@, caller, merchant_id@, plan_id@, price) {
                Some(e) => {
                    &&& r == Err::<SubscriptionPlanCreated, CasPayError>(e)
                    &&& final(self)@ == old(self)@
                },
                None => {
                    &&& final(self)@ == create_subscription_plan_after(
                        old(self)@,
                        merchant_id,
                        plan_id,
                        price,
                        interval,
                        interval_count,
                        trial_days,
                        block_time,
                    )
                    &&& r matches Ok(ev) && ev == (SubscriptionPlanCreated {
                        merchant_id,
                        plan_id,
                        price,
                        interval: interval.spec_code(),
                        trial_days,
                        timestamp: block_time,
                    })
                },
            },
    {
        self.require_running_admin(&caller)?;
        if !self.storage.merchant_exists(&merchant_id) {
            return Err(CasPayError::InvalidMerchant);
        }
        if price.is_zero() {
            return Err(CasPayError::InvalidAmount);
        }
        if self.storage.plan_exists(&plan_id) {
            return Err(CasPayError::SubscriptionPlanAlreadyExists);
        }
        let plan = SubscriptionPlan {
            plan_id: copy_string(&plan_id),
            merchant_id: copy_string(&merchant_id),
            price,
            interval,
            interval_count,
            trial_days,
            active: true,
            created_at: block_time,
            updated_at: block_time,
        };
        self.storage.set_plan(copy_string(&plan_id), plan);
        Ok(
            SubscriptionPlanCreated {
                merchant_id,
                plan_id,
                price,
                interval: interval.code(),
                trial_days,
                timestamp: block_time,
            },
        )
    }

    /// Switches a subscription plan on or off (admin only).
    pub fn update_plan_status(
        &mut self,
        caller: Address,
        block_time: u64,
        plan_id: String,
        active: bool,
    ) -> (r: Result<SubscriptionPlanUpdated, CasPayError>)
        ensures
            match update_plan_status_error(old(self)@, caller, plan_id@) {
                Some(e) => {
                    &&& r == Err::<SubscriptionPlanUpdated, CasPayError>(e)
                    &&& final(self)@ == old(self)@
                },
                None => {
                    let p = old(self)@.subscription_plans[plan_id@];
                    &&& final(self)@ == update_plan_status_after(
                        old(self)@,
                        plan_id,
                        active,
                        block_time,
                    )
                    &&& r matches Ok(ev) && ev == (SubscriptionPlanUpdated {
                        merchant_id: p.merchant_id,
                        plan_id,
                        timestamp: block_time,
                    })
                },
            },
    {
        self.require_admin(&caller)?;
        let mut plan = match self.storage.get_plan(&plan_id) {
            Some(p) => p,
            None => return Err(CasPayError::InvalidSubscriptionPlan),
        };
        plan.active = active;
        plan.updated_at = block_time;
        let merchant_id = copy_string(&plan.merchant_id);
        self.storage.set_plan(copy_string(&plan_id), plan);
        Ok(SubscriptionPlanUpdated { merchant_id, plan_id, timestamp: block_time })
    }

    /// The subscription plan stored under the identifier.
    pub fn get_subscription_plan(&self, plan_id: String) -> (r: Option<SubscriptionPlan>)
        ensures
            r == self@.subscription_plans.get(plan_id@),
    {
        self.storage.get_plan(&plan_id)
    }

    // ==================== PAYMENT PROCESSING ====================

    /// Records a payment (admin only) under the key made of the payer and the
    /// block time; a payment recorded earlier under the same key is replaced.
    pub fn record_payment(
        &mut self,
        caller: Address,
        block_time: u64,
        payer: Address,
        product_id: Option<String>,
        subscription_plan_id: Option<String>,
    ) -> (r: Result<PaymentReceived, CasPayError>)
        ensures
            match running_admin_error(old(self)@, caller) {
                Some(e) => {
                    &&& r == Err::<PaymentReceived, CasPayError>(e)
                    &&& final(self)@ == old(self)@
                },
                None => {
                    &&& final(self)@ == record_payment_after(
                        old(self)@,
                        payer,
                        product_id,
                        subscription_plan_id,
                        block_time,
                    )
                    &&& r matches Ok(ev) && ev == (PaymentReceived {
                        payer,
                        product_id,
                        subscription_plan_id,
                        timestamp: block_time,
                    })
                },
            },
    {
        self.require_running_admin(&caller)?;
        let key = payment_key(&payer, block_time);
        let payment = PaymentRecord {
            payer,
            product_id: copy_optional_string(&product_id),
            subscription_plan_id: copy_optional_string(&subscription_plan_id),
            timestamp: block_time,
        };
        self.storage.set_payment(key, payment);
        Ok(PaymentReceived { payer, product_id, subscription_plan_id, timestamp: block_time })
    }

    /// The payment recorded under the key.
    pub fn get_payment(&self, payment_key: String) -> (r: Option<PaymentRecord>)
        ensures
            r == self@.payments.get(payment_key@),
    {
        self.storage.get_payment(&payment_key)
    }

    /// Whether the subscription grants access at `block_time`: it exists, is
    /// active or trialing, and its period has not ended.
    pub fn check_subscription(&self, subscription_id: String, block_time: u64) -> (r: bool)
        ensures
            r == check_subscription_result(self@, subscription_id@, block_time),
    {
        if let Some(subscription) = self.storage.get_subscription(&subscription_id) {
            if subscription.status == SubscriptionStatus::Active || subscription.status
                == SubscriptionStatus::Trialing {
                return subscription.current_period_end >= block_time;
            }
        }
        false
    }

    /// The subscription stored under the identifier.
    pub fn get_subscription(&self, subscription_id: String) -> (r: Option<Subscription>)
        ensures
            r == self@.subscriptions.get(subscription_id@),
    {
        self.storage.get_subscription(&subscription_id)
    }

    /// Cancels a subscription, at the end of its period or at once; the admin
    /// and the subscriber may cancel.
    pub fn cancel_subscription(
        &mut self,
        caller: Address,
        block_time: u64,
        subscription_id: String,
        cancel_at_period_end: bool,
    ) -> (r: Result<SubscriptionStatusChanged, CasPayError>)
        ensures
            match cancel_subscription_error(old(self)@, caller, subscription_id@) {
                Some(e) => {
                    &&& r == Err::<SubscriptionStatusChanged, CasPayError>(e)
                    &&& final(self)@ == old(self)@
                },
                None => {
                    let s = old(self)@.subscriptions[subscription_id@];
                    let t = cancelled(s, cancel_at_period_end, block_time);
                    &&& final(self)@ == cancel_subscription_after(
                        old(self)@,
                        subscription_id,
                        cancel_at_period_end,
                        block_time,
                    )
                    &&& r matches Ok(ev) && ev == (SubscriptionStatusChanged {
                        merchant_id: s.merchant_id,
                        subscriber: s.subscriber,
                        plan_id: s.plan_id,
                        old_status: s.status.spec_code(),
                        new_status: t.status.spec_code(),
                        timestamp: block_time,
                    })
                },
            },
    {
        self.require_not_paused()?;
        let mut subscription = match self.storage.get_subscription(&subscription_id) {
            Some(s) => s,
            None => return Err(CasPayError::InvalidSubscription),
        };
        let config = self.get_platform_config()?;
        if caller != config.admin && caller != subscription.subscriber {
            return Err(CasPayError::Unauthorized);
        }
        let old_status = subscription.status;
        if cancel_at_period_end {
            subscription.cancel_at_period_end = true;
            subscription.cancelled_at = Some(block_time);
        } else {
            subscription.status = SubscriptionStatus::Cancelled;
            subscription.cancelled_at = Some(block_time);
        }
        subscription.updated_at = block_time;
        let event = SubscriptionStatusChanged {
            merchant_id: copy_string(&subscription.merchant_id),
            subscriber: subscription.subscriber,
            plan_id: copy_string(&subscription.plan_id),
            old_status: old_status.code(),
            new_status: subscription.status.code(),
            timestamp: block_time,
        };
        self.storage.set_subscription(subscription_id, subscription);
        Ok(event)
    }

    // ==================== BALANCE & WITHDRAWAL ====================

    /// A merchant's balance of a token; the empty balance when none is stored.
    pub fn get_merchant_balance(&self, merchant_id: String, token_address: String) -> (r: MerchantBalance)
        ensures
            r == self@.balance_at(balance_key_text(merchant_id@, token_address@)),
    {
        let key = balance_key(&merchant_id, &token_address);
        self.storage.get_merchant_balance(&key)
    }

    /// The checks that a withdrawal makes before it moves the amount: refused
    /// while paused, by anyone but the admin, for a zero amount, and for an
    /// amount above the available balance.
    pub fn withdraw_check(
        &self,
        caller: &Address,
        merchant_id: &String,
        token_address: &String,
        amount: &U256,
    ) -> (r: Result<(), CasPayError>)
        ensures
            match withdraw_error(self@, *caller, merchant_id@, token_address@, *amount) {
                Some(e) => r == Err::<(), CasPayError>(e),
                None => r is Ok,
            },
    {
        self.require_running_admin(caller)?;
        if amount.is_zero() {
            return Err(CasPayError::InvalidAmount);
        }
        let key = balance_key(merchant_id, token_address);
        let balance = self.storage.get_merchant_balance(&key);
        if balance.available.less_than(amount) {
            return Err(CasPayError::InsufficientBalance);
        }
        Ok(())
    }

    /// Withdraws an amount above zero from a merchant's available balance of a
    /// token (admin only); the withdrawn total grows by the same amount.
    pub fn withdraw(
        &mut self,
        caller: Address,
        block_time: u64,
        merchant_id: String,
        token_address: String,
        amount: U256,
        recipient: Address,
    ) -> (r: Result<Withdrawal, CasPayError>)
        requires
            withdraw_error(old(self)@, caller, merchant_id@, token_address@, amount) is None
                ==> old(self)@.balance_at(
                balance_key_text(merchant_id@, token_address@),
            ).total_withdrawn@ + amount@ < amount_bound(),
        ensures
            match withdraw_error(old(self)@, caller, merchant_id@, token_address@, amount) {
                Some(e) => {
                    &&& r == Err::<Withdrawal, CasPayError>(e)
                    &&& final(self)@ == old(self)@
                },
                None => {
                    &&& final(self)@ == withdraw_after(old(self)@, merchant_id, token_address, amount)
                    &&& r matches Ok(ev) && ev == (Withdrawal {
                        merchant_id,
                        recipient,
                        amount,
                        token_address,
                        timestamp: block_time,
                    })
                },
            },
    {
        self.withdraw_check(&caller, &merchant_id, &token_address, &amount)?;
        let key = balance_key(&merchant_id, &token_address);
        let mut balance = self.storage.get_merchant_balance(&key);
        balance.available = balance.available.sub(&amount);
        balance.total_withdrawn = balance.total_withdrawn.add(&amount);
        self.storage.set_merchant_balance(key, balance);
        Ok(Withdrawal { merchant_id, recipient, amount, token_address, timestamp: block_time })
    }

    // ==================== ADMIN FUNCTIONS ====================

    /// Pauses the contract (admin only): an emergency stop.
    pub fn pause_contract(&mut self, caller: Address) -> (r: Result<(), CasPayError>)
        ensures
            match admin_error(old(self)@, caller) {
                Some(e) => r == Err::<(), CasPayError>(e) && final(self)@ == old(self)@,
                None => r is Ok && final(self)@ == with_paused(old(self)@, true),
            },
    {
        self.require_admin(&caller)?;
        let mut config = self.get_platform_config()?;
        config.paused = true;
        self.storage.platform_config = Some(config);
        Ok(())
    }

    /// Lets the contract run again (admin only).
    pub fn unpause_contract(&mut self, caller: Address) -> (r: Result<(), CasPayError>)
        ensures
            match admin_error(old(self)@, caller) {
                Some(e) => r == Err::<(), CasPayError>(e) && final(self)@ == old(self)@,
                None => r is Ok && final(self)@ == with_paused(old(self)@, false),
            },
    {
        self.require_admin(&caller)?;
        let mut config = self.get_platform_config()?;
        config.paused = false;
        self.storage.platform_config = Some(config);
        Ok(())
    }

    /// The platform's revenue.
    pub fn get_platform_revenue(&self) -> (r: U256)
        ensures
            r@ == self@.revenue(),
    {
        self.storage.get_platform_revenue()
    }
}

} // verus!
