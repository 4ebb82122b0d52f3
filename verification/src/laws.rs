//! What holds of the contract across calls.

use vstd::prelude::*;
use crate::address::Address;
use crate::amount::{U256, amount_bound};
use crate::caspay::{
    admin_error, cancel_subscription_after, cancel_subscription_error, check_subscription_result,
    create_product_after, create_product_error, create_subscription_after,
    create_subscription_error, create_subscription_plan_after, create_subscription_plan_error,
    initialized, new_merchant, new_plan, new_product, new_subscription, record_payment_after,
    register_merchant_after, register_merchant_error, running_admin_error, subscription_live,
    subscription_times_fit, update_merchant_status_after, update_merchant_status_error,
    update_plan_status_after, update_plan_status_error, update_product_status_after,
    update_product_status_error, with_paused, withdraw_after, withdraw_error, PERIOD_LENGTH,
};
use crate::errors::CasPayError;
use crate::storage::StorageView;
use crate::text::{balance_key_text, lemma_payment_key_injective, payment_key_text};
use crate::types::{
    MerchantBalance, MerchantStatus, PaymentRecord, SubscriptionInterval, SubscriptionStatus,
};

verus! {

/// A merchant that is registered is read back as registered: active, with its
/// wallet and the time of registration; registering it again is refused.
pub proof fn law_registered_merchant_is_read_back(
    v: StorageView,
    caller: Address,
    merchant_id: String,
    wallet_address: Address,
    block_time: u64,
    later: u64,
)
    requires
        register_merchant_error(v, caller, merchant_id@) is None,
    ensures
        ({
            let w = register_merchant_after(v, caller, merchant_id, wallet_address, block_time);
            &&& w.merchants.get(merchant_id@) == Some(new_merchant(merchant_id, wallet_address, block_time))
            &&& register_merchant_error(w, caller, merchant_id@) == Some(CasPayError::MerchantAlreadyExists)
        }),
{
}

/// A product that is created is read back, active and at its price; creating
/// it again is refused.
pub proof fn law_created_product_is_read_back(
    v: StorageView,
    caller: Address,
    merchant_id: String,
    product_id: String,
    price: U256,
    block_time: u64,
)
    requires
        create_product_error(v, caller, merchant_id@, product_id@, price) is None,
    ensures
        ({
            let w = create_product_after(v, merchant_id, product_id, price, block_time);
            &&& w.products.get(product_id@) == Some(new_product(merchant_id, product_id, price, block_time))
            &&& create_product_error(w, caller, merchant_id@, product_id@, price) == Some(
                CasPayError::ProductAlreadyExists,
            )
        }),
{
}

/// A subscription plan that is created is read back, active and with its
/// terms; creating it again is refused.
pub proof fn law_created_plan_is_read_back(
    v: StorageView,
    caller: Address,
    merchant_id: String,
    plan_id: String,
    price: U256,
    interval: SubscriptionInterval,
    interval_count: u32,
    trial_days: u32,
    block_time: u64,
)
    requires
        create_subscription_plan_error(v, caller, merchant_id@, plan_id@, price) is None,
    ensures
        ({
            let w = create_subscription_plan_after(
                v,
                merchant_id,
                plan_id,
                price,
                interval,
                interval_count,
                trial_days,
                block_time,
            );
            &&& w.subscription_plans.get(plan_id@) == Some(
                new_plan(merchant_id, plan_id, price, interval, interval_count, trial_days, block_time),
            )
            &&& create_subscription_plan_error(w, caller, merchant_id@, plan_id@, price) == Some(
                CasPayError::SubscriptionPlanAlreadyExists,
            )
        }),
{
}

/// A change of a merchant's status, or of whether a product or a plan is
/// offered, is read back with the time of the change, and the rest of the
/// record is kept.
pub proof fn law_updates_are_read_back(
    v: StorageView,
    merchant_id: String,
    product_id: String,
    plan_id: String,
    status: MerchantStatus,
    active: bool,
    block_time: u64,
)
    requires
        v.merchants.contains_key(merchant_id@),
        v.products.contains_key(product_id@),
        v.subscription_plans.contains_key(plan_id@),
    ensures
        ({
            let m = update_merchant_status_after(v, merchant_id, status, block_time).merchants[merchant_id@];
            let p = update_product_status_after(v, product_id, active, block_time).products[product_id@];
            let q = update_plan_status_after(v, plan_id, active, block_time).subscription_plans[plan_id@];
            &&& m.status == status && m.updated_at == block_time
            &&& m.merchant_id == v.merchants[merchant_id@].merchant_id
            &&& m.wallet_address == v.merchants[merchant_id@].wallet_address
            &&& m.created_at == v.merchants[merchant_id@].created_at
            &&& m.active == v.merchants[merchant_id@].active
            &&& p.active == active && p.updated_at == block_time
            &&& p.price == v.products[product_id@].price
            &&& p.merchant_id == v.products[product_id@].merchant_id
            &&& p.created_at == v.products[product_id@].created_at
            &&& q.active == active && q.updated_at == block_time
            &&& q.price == v.subscription_plans[plan_id@].price
            &&& q.trial_days == v.subscription_plans[plan_id@].trial_days
            &&& q.interval == v.subscription_plans[plan_id@].interval
            &&& q.created_at == v.subscription_plans[plan_id@].created_at
        }),
{
}

/// A recorded payment is read back under the key of its payer and time, and a
/// payment of another payer, or of the same payer at another time, is kept
/// beside it: the key of a payment is unique to its payer and time.
pub proof fn law_recorded_payments_are_kept(
    v: StorageView,
    first_payer: Address,
    first_product: Option<String>,
    first_plan: Option<String>,
    first_time: u64,
    second_payer: Address,
    second_product: Option<String>,
    second_plan: Option<String>,
    second_time: u64,
)
    requires
        first_payer != second_payer || first_time != second_time,
    ensures
        ({
            let w = record_payment_after(v, first_payer, first_product, first_plan, first_time);
            let x = record_payment_after(w, second_payer, second_product, second_plan, second_time);
            &&& x.payments.get(payment_key_text(first_payer, first_time)) == Some(
                PaymentRecord {
                    payer: first_payer,
                    product_id: first_product,
                    subscription_plan_id: first_plan,
                    timestamp: first_time,
                },
            )
            &&& x.payments.get(payment_key_text(second_payer, second_time)) == Some(
                PaymentRecord {
                    payer: second_payer,
                    product_id: second_product,
                    subscription_plan_id: second_plan,
                    timestamp: second_time,
                },
            )
        }),
{
    if payment_key_text(first_payer, first_time) == payment_key_text(second_payer, second_time) {
        lemma_payment_key_injective(first_payer, first_time, second_payer, second_time);
    }
}

/// A subscription that is started grants access from its start to the end of
/// its first period, and not after; starting it again is refused.
pub proof fn law_started_subscription_grants_access(
    v: StorageView,
    caller: Address,
    subscription_id: String,
    merchant_id: String,
    subscriber: Address,
    plan_id: String,
    block_time: u64,
    query_time: u64,
)
    requires
        create_subscription_error(v, caller, subscription_id@, plan_id@) is None,
        subscription_times_fit(block_time, v.subscription_plans[plan_id@].trial_days),
    ensures
        ({
            let w = create_subscription_after(v, subscription_id, merchant_id, subscriber, plan_id, block_time);
            &&& w.subscriptions.get(subscription_id@) == Some(
                new_subscription(
                    v.subscription_plans[plan_id@].trial_days,
                    merchant_id,
                    subscriber,
                    plan_id,
                    block_time,
                ),
            )
            &&& check_subscription_result(w, subscription_id@, query_time) == (query_time
                <= block_time + PERIOD_LENGTH)
            &&& create_subscription_error(w, caller, subscription_id@, plan_id@) == Some(
                CasPayError::SubscriptionAlreadyActive,
            )
        }),
{
}

/// A subscription cancelled at once grants no access from then on; one
/// cancelled at the end of its period grants access exactly as before.
pub proof fn law_cancellation_ends_access(
    v: StorageView,
    subscription_id: String,
    cancel_at_period_end: bool,
    block_time: u64,
    query_time: u64,
)
    requires
        v.subscriptions.contains_key(subscription_id@),
    ensures
        ({
            let w = cancel_subscription_after(v, subscription_id, cancel_at_period_end, block_time);
            &&& !cancel_at_period_end ==> !check_subscription_result(w, subscription_id@, query_time)
            &&& cancel_at_period_end ==> check_subscription_result(w, subscription_id@, query_time)
                == check_subscription_result(v, subscription_id@, query_time)
        }),
{
}

/// The admin and the subscriber may cancel a subscription while the contract
/// runs; anyone else is refused.
pub proof fn law_who_may_cancel(v: StorageView, caller: Address, subscription_id: Seq<char>)
    requires
        v.platform_config matches Some(c) && !c.paused,
        v.subscriptions.contains_key(subscription_id),
    ensures
        cancel_subscription_error(v, caller, subscription_id) is None <==> (caller
            == v.platform_config.unwrap().admin || caller == v.subscriptions[subscription_id].subscriber),
        cancel_subscription_error(v, caller, subscription_id) is Some ==> cancel_subscription_error(
            v,
            caller,
            subscription_id,
        ) == Some(CasPayError::Unauthorized),
{
}

/// Once the contract is initialized, only its admin can manage it: every other
/// caller is refused, with `ContractPaused` by the operations that check the
/// pause first while it is paused, and with `Unauthorized` otherwise.
pub proof fn law_only_the_admin_manages(
    v: StorageView,
    caller: Address,
    merchant_id: Seq<char>,
    product_id: Seq<char>,
    plan_id: Seq<char>,
    subscription_id: Seq<char>,
    token_address: Seq<char>,
    price: U256,
)
    requires
        v.platform_config matches Some(c) && c.admin != caller,
    ensures
        ({
            let refusal = if v.platform_config.unwrap().paused {
                CasPayError::ContractPaused
            } else {
                CasPayError::Unauthorized
            };
            &&& admin_error(v, caller) == Some(CasPayError::Unauthorized)
            &&& running_admin_error(v, caller) == Some(refusal)
            &&& register_merchant_error(v, caller, merchant_id) == Some(refusal)
            &&& update_merchant_status_error(v, caller, merchant_id) == Some(CasPayError::Unauthorized)
            &&& create_product_error(v, caller, merchant_id, product_id, price) == Some(refusal)
            &&& update_product_status_error(v, caller, product_id) == Some(CasPayError::Unauthorized)
            &&& create_subscription_plan_error(v, caller, merchant_id, plan_id, price) == Some(refusal)
            &&& update_plan_status_error(v, caller, plan_id) == Some(CasPayError::Unauthorized)
            &&& create_subscription_error(v, caller, subscription_id, plan_id) == Some(refusal)
            &&& withdraw_error(v, caller, merchant_id, token_address, price) == Some(refusal)
        }),
{
}

/// While the contract is paused, every operation that checks the pause is
/// refused with `ContractPaused`, whoever calls.
pub proof fn law_pause_stops_operations(
    v: StorageView,
    caller: Address,
    merchant_id: Seq<char>,
    product_id: Seq<char>,
    plan_id: Seq<char>,
    subscription_id: Seq<char>,
    token_address: Seq<char>,
    price: U256,
)
    requires
        v.platform_config matches Some(c) && c.paused,
    ensures
        running_admin_error(v, caller) == Some(CasPayError::ContractPaused),
        register_merchant_error(v, caller, merchant_id) == Some(CasPayError::ContractPaused),
        create_product_error(v, caller, merchant_id, product_id, price) == Some(
            CasPayError::ContractPaused,
        ),
        create_subscription_plan_error(v, caller, merchant_id, plan_id, price) == Some(
            CasPayError::ContractPaused,
        ),
        create_subscription_error(v, caller, subscription_id, plan_id) == Some(
            CasPayError::ContractPaused,
        ),
        cancel_subscription_error(v, caller, subscription_id) == Some(CasPayError::ContractPaused),
        withdraw_error(v, caller, merchant_id, token_address, price) == Some(
            CasPayError::ContractPaused,
        ),
{
}

/// Pausing a running contract and letting it run again gives back the same
/// storage, and the admin may unpause the contract it paused.
pub proof fn law_unpause_undoes_pause(v: StorageView, admin: Address)
    requires
        v.platform_config matches Some(c) && !c.paused && c.admin == admin,
    ensures
        admin_error(with_paused(v, true), admin) is None,
        with_paused(with_paused(v, true), false) == v,
{
    assert(with_paused(with_paused(v, true), false).platform_config == v.platform_config);
}

/// The contract is initialized once: the first admin stays, and a later
/// initialization changes nothing.
pub proof fn law_initialization_happens_once(v: StorageView, first: Address, second: Address)
    ensures
        initialized(initialized(v, first), second) == initialized(v, first),
        v.platform_config is None ==> initialized(v, first).platform_config == Some(
            crate::types::PlatformConfig { admin: first, paused: false },
        ),
        v.platform_config is None ==> initialized(v, first).revenue() == 0,
        v.platform_config is Some ==> initialized(v, first) == v,
{
    if v.platform_config is None {
        U256::lemma_from_value(U256::from_value(0), 0);
    }
}

/// No call that succeeds on an initialized contract changes who the admin is
/// or whether it is paused, except pausing and unpausing, which change only the
/// pause flag.
pub proof fn law_configuration_is_kept(
    v: StorageView,
    caller: Address,
    merchant_id: String,
    product_id: String,
    plan_id: String,
    subscription_id: String,
    token_address: String,
    wallet_address: Address,
    status: MerchantStatus,
    active: bool,
    cancel_at_period_end: bool,
    price: U256,
    interval: SubscriptionInterval,
    interval_count: u32,
    trial_days: u32,
    payer: Address,
    product: Option<String>,
    plan: Option<String>,
    block_time: u64,
    paused: bool,
)
    requires
        v.platform_config is Some,
    ensures
        register_merchant_after(v, caller, merchant_id, wallet_address, block_time).platform_config
            == v.platform_config,
        update_merchant_status_after(v, merchant_id, status, block_time).platform_config
            == v.platform_config,
        create_product_after(v, merchant_id, product_id, price, block_time).platform_config
            == v.platform_config,
        update_product_status_after(v, product_id, active, block_time).platform_config
            == v.platform_config,
        create_subscription_plan_after(
            v,
            merchant_id,
            plan_id,
            price,
            interval,
            interval_count,
            trial_days,
            block_time,
        ).platform_config == v.platform_config,
        update_plan_status_after(v, plan_id, active, block_time).platform_config == v.platform_config,
        record_payment_after(v, payer, product, plan, block_time).platform_config == v.platform_config,
        create_subscription_after(v, subscription_id, merchant_id, payer, plan_id, block_time).platform_config
            == v.platform_config,
        cancel_subscription_after(v, subscription_id, cancel_at_period_end, block_time).platform_config
            == v.platform_config,
        withdraw_after(v, merchant_id, token_address, price).platform_config == v.platform_config,
        with_paused(v, paused).platform_config.unwrap().admin == v.platform_config.unwrap().admin,
        with_paused(v, paused).platform_config.unwrap().paused == paused,
{
}

/// A withdrawal moves the amount from the available balance to the withdrawn
/// total: their sum, the pending amount and the received total stay as they were.
pub proof fn law_withdrawal_moves_funds(
    v: StorageView,
    caller: Address,
    merchant_id: String,
    token_address: String,
    amount: U256,
)
    requires
        withdraw_error(v, caller, merchant_id@, token_address@, amount) is None,
        v.balance_at(balance_key_text(merchant_id@, token_address@)).total_withdrawn@ + amount@
            < amount_bound(),
    ensures
        ({
            let key = balance_key_text(merchant_id@, token_address@);
            let before = v.balance_at(key);
            let after = withdraw_after(v, merchant_id, token_address, amount).balance_at(key);
            &&& after.available@ == before.available@ - amount@
            &&& after.total_withdrawn@ == before.total_withdrawn@ + amount@
            &&& after.available@ + after.total_withdrawn@ == before.available@ + before.total_withdrawn@
            &&& after.pending == before.pending
            &&& after.total_received == before.total_received
        }),
{
    let key = balance_key_text(merchant_id@, token_address@);
    let before = v.balance_at(key);
    crate::amount::lemma_amount_value(before.available, before.available);
    U256::lemma_from_value(before.available, (before.available@ - amount@) as nat);
    U256::lemma_from_value(before.total_withdrawn, before.total_withdrawn@ + amount@);
}


/// A merchant that is registered is stored under its identifier with that
/// identifier, its wallet, status `Active`, the flag `active` set, and the time
/// of registration as both its creation and its update time; no other merchant
/// changes.
pub proof fn law_registration_stores_an_active_merchant(
    v: StorageView,
    caller: Address,
    merchant_id: String,
    wallet_address: Address,
    block_time: u64,
    other: Seq<char>,
)
    requires
        register_merchant_error(v, caller, merchant_id@) is None,
    ensures
        ({
            let w = register_merchant_after(v, caller, merchant_id, wallet_address, block_time);
            let m = w.merchants[merchant_id@];
            &&& w.merchants.contains_key(merchant_id@)
            &&& m.merchant_id == merchant_id
            &&& m.wallet_address == wallet_address
            &&& m.status == MerchantStatus::Active
            &&& m.active == true
            &&& m.created_at == block_time
            &&& m.updated_at == block_time
            &&& other != merchant_id@ ==> w.merchants.get(other) == v.merchants.get(other)
        }),
{
}

/// A product is created only under an identifier that no product has yet,
/// whichever merchant owns the product there: creating one over an existing
/// product is refused, with `ProductAlreadyExists` once the caller, the
/// merchant and the price pass; a product that is created is stored with the
/// given merchant, identifier and price, offered, and no other product changes.
pub proof fn law_products_are_never_overwritten(
    v: StorageView,
    caller: Address,
    merchant_id: String,
    product_id: String,
    price: U256,
    block_time: u64,
    other: Seq<char>,
)
    ensures
        v.products.contains_key(product_id@) ==> create_product_error(
            v,
            caller,
            merchant_id@,
            product_id@,
            price,
        ) is Some,
        v.products.contains_key(product_id@) && running_admin_error(v, caller) is None
            && v.merchants.contains_key(merchant_id@) && price@ != 0 ==> create_product_error(
            v,
            caller,
            merchant_id@,
            product_id@,
            price,
        ) == Some(CasPayError::ProductAlreadyExists),
        create_product_error(v, caller, merchant_id@, product_id@, price) is None ==> ({
            let w = create_product_after(v, merchant_id, product_id, price, block_time);
            let p = w.products[product_id@];
            &&& !v.products.contains_key(product_id@)
            &&& v.merchants.contains_key(merchant_id@)
            &&& price@ != 0
            &&& w.products.contains_key(product_id@)
            &&& p.product_id == product_id
            &&& p.merchant_id == merchant_id
            &&& p.price == price
            &&& p.active == true
            &&& p.created_at == block_time
            &&& p.updated_at == block_time
            &&& other != product_id@ ==> w.products.get(other) == v.products.get(other)
        }),
{
}

/// A subscription plan that is created is stored with every term it was
/// given: merchant, identifier, price, interval, interval count and trial
/// days, offered, created and updated at the time of the call.
pub proof fn law_plan_keeps_its_terms(
    v: StorageView,
    caller: Address,
    merchant_id: String,
    plan_id: String,
    price: U256,
    interval: SubscriptionInterval,
    interval_count: u32,
    trial_days: u32,
    block_time: u64,
    other: Seq<char>,
)
    requires
        create_subscription_plan_error(v, caller, merchant_id@, plan_id@, price) is None,
    ensures
        ({
            let w = create_subscription_plan_after(
                v,
                merchant_id,
                plan_id,
                price,
                interval,
                interval_count,
                trial_days,
                block_time,
            );
            let q = w.subscription_plans[plan_id@];
            &&& w.subscription_plans.contains_key(plan_id@)
            &&& q.plan_id == plan_id
            &&& q.merchant_id == merchant_id
            &&& q.price == price
            &&& q.interval == interval
            &&& q.interval_count == interval_count
            &&& q.trial_days == trial_days
            &&& q.active == true
            &&& q.created_at == block_time
            &&& q.updated_at == block_time
            &&& other != plan_id@ ==> w.subscription_plans.get(other) == v.subscription_plans.get(
                other,
            )
        }),
{
}

/// A subscription started on a plan with a trial of `d` days (any `d` above
/// zero) is trialing from the block time, its trial ends `d * 86400` later, and
/// it is next charged when the trial ends; on a plan without a trial it is
/// active, has no trial, and is next charged when its first period ends,
/// 2592000 after the block time. Either way its period starts at the block time
/// and it is not cancelled.
pub proof fn law_trial_follows_the_plan(
    v: StorageView,
    caller: Address,
    subscription_id: String,
    merchant_id: String,
    subscriber: Address,
    plan_id: String,
    block_time: u64,
)
    requires
        create_subscription_error(v, caller, subscription_id@, plan_id@) is None,
        block_time + 2592000 <= u64::MAX,
        block_time + v.subscription_plans[plan_id@].trial_days * 86400 <= u64::MAX,
    ensures
        ({
            let d = v.subscription_plans[plan_id@].trial_days;
            let w = create_subscription_after(v, subscription_id, merchant_id, subscriber, plan_id, block_time);
            let s = w.subscriptions[subscription_id@];
            &&& w.subscriptions.contains_key(subscription_id@)
            &&& s.merchant_id == merchant_id
            &&& s.subscriber == subscriber
            &&& s.plan_id == plan_id
            &&& s.current_period_start == block_time
            &&& s.current_period_end == block_time + 2592000
            &&& s.cancel_at_period_end == false
            &&& s.cancelled_at == None::<u64>
            &&& s.created_at == block_time
            &&& s.updated_at == block_time
            &&& d > 0 ==> {
                &&& s.status == SubscriptionStatus::Trialing
                &&& s.trial_start == Some(block_time)
                &&& s.trial_end == Some((block_time + d * 86400) as u64)
                &&& s.trial_end.unwrap() == block_time + d * 86400
                &&& s.next_charge_date == s.trial_end
            }
            &&& d == 0 ==> {
                &&& s.status == SubscriptionStatus::Active
                &&& s.trial_start == None::<u64>
                &&& s.trial_end == None::<u64>
                &&& s.next_charge_date == Some((block_time + 2592000) as u64)
            }
        }),
{
}

/// Cancelling a subscription records the time of cancellation. Cancelling at
/// the end of the period only marks it so: its status, and so whether it is
/// trialing or active, stays as it was. Cancelling at once makes it
/// `Cancelled`. Nothing else in the subscription changes.
pub proof fn law_cancellation_marks_the_subscription(
    v: StorageView,
    subscription_id: String,
    cancel_at_period_end: bool,
    block_time: u64,
)
    requires
        v.subscriptions.contains_key(subscription_id@),
    ensures
        ({
            let before = v.subscriptions[subscription_id@];
            let s = cancel_subscription_after(v, subscription_id, cancel_at_period_end, block_time).subscriptions[subscription_id@];
            &&& s.cancelled_at == Some(block_time)
            &&& s.updated_at == block_time
            &&& cancel_at_period_end ==> s.status == before.status && s.cancel_at_period_end == true
            &&& !cancel_at_period_end ==> s.status == SubscriptionStatus::Cancelled
                && s.cancel_at_period_end == before.cancel_at_period_end
            &&& s.merchant_id == before.merchant_id
            &&& s.subscriber == before.subscriber
            &&& s.plan_id == before.plan_id
            &&& s.current_period_start == before.current_period_start
            &&& s.current_period_end == before.current_period_end
            &&& s.next_charge_date == before.next_charge_date
            &&& s.trial_start == before.trial_start
            &&& s.trial_end == before.trial_end
            &&& s.created_at == before.created_at
        }),
{
}

/// A call of one of the contract's entry points that can change its storage,
/// with its caller, block time and arguments.
pub enum ContractCall {
    Init { admin: Address },
    RegisterMerchant { caller: Address, block_time: u64, merchant_id: String, wallet_address: Address },
    UpdateMerchantStatus { caller: Address, block_time: u64, merchant_id: String, new_status: MerchantStatus },
    CreateProduct { caller: Address, block_time: u64, merchant_id: String, product_id: String, price: U256 },
    UpdateProductStatus { caller: Address, block_time: u64, product_id: String, active: bool },
    CreateSubscriptionPlan {
        caller: Address,
        block_time: u64,
        merchant_id: String,
        plan_id: String,
        price: U256,
        interval: SubscriptionInterval,
        interval_count: u32,
        trial_days: u32,
    },
    UpdatePlanStatus { caller: Address, block_time: u64, plan_id: String, active: bool },
    RecordPayment {
        caller: Address,
        block_time: u64,
        payer: Address,
        product_id: Option<String>,
        subscription_plan_id: Option<String>,
    },
    CreateSubscription {
        caller: Address,
        block_time: u64,
        subscription_id: String,
        merchant_id: String,
        subscriber: Address,
        plan_id: String,
    },
    CancelSubscription { caller: Address, block_time: u64, subscription_id: String, cancel_at_period_end: bool },
    Withdraw {
        caller: Address,
        block_time: u64,
        merchant_id: String,
        token_address: String,
        amount: U256,
        recipient: Address,
    },
    PauseContract { caller: Address },
    UnpauseContract { caller: Address },
}

/// The storage after a call, as the entry point's contract fixes it: unchanged
/// when the call is refused, the state after the call when it succeeds.
pub open spec fn after_call(v: StorageView, call: ContractCall) -> StorageView {
    match call {
        ContractCall::Init { admin } => initialized(v, admin),
        ContractCall::RegisterMerchant { caller, block_time, merchant_id, wallet_address } => {
            if register_merchant_error(v, caller, merchant_id@) is None {
                register_merchant_after(v, caller, merchant_id, wallet_address, block_time)
            } else {
                v
            }
        },
        ContractCall::UpdateMerchantStatus { caller, block_time, merchant_id, new_status } => {
            if update_merchant_status_error(v, caller, merchant_id@) is None {
                update_merchant_status_after(v, merchant_id, new_status, block_time)
            } else {
                v
            }
        },
        ContractCall::CreateProduct { caller, block_time, merchant_id, product_id, price } => {
            if create_product_error(v, caller, merchant_id@, product_id@, price) is None {
                create_product_after(v, merchant_id, product_id, price, block_time)
            } else {
                v
            }
        },
        ContractCall::UpdateProductStatus { caller, block_time, product_id, active } => {
            if update_product_status_error(v, caller, product_id@) is None {
                update_product_status_after(v, product_id, active, block_time)
            } else {
                v
            }
        },
        ContractCall::CreateSubscriptionPlan {
            caller,
            block_time,
            merchant_id,
            plan_id,
            price,
            interval,
            interval_count,
            trial_days,
        } => {
            if create_subscription_plan_error(v, caller, merchant_id@, plan_id@, price) is None {
                create_subscription_plan_after(
                    v,
                    merchant_id,
                    plan_id,
                    price,
                    interval,
                    interval_count,
                    trial_days,
                    block_time,
                )
            } else {
                v
            }
        },
        ContractCall::UpdatePlanStatus { caller, block_time, plan_id, active } => {
            if update_plan_status_error(v, caller, plan_id@) is None {
                update_plan_status_after(v, plan_id, active, block_time)
            } else {
                v
            }
        },
        ContractCall::RecordPayment { caller, block_time, payer, product_id, subscription_plan_id } => {
            if running_admin_error(v, caller) is None {
                record_payment_after(v, payer, product_id, subscription_plan_id, block_time)
            } else {
                v
            }
        },
        ContractCall::CreateSubscription {
            caller,
            block_time,
            subscription_id,
            merchant_id,
            subscriber,
            plan_id,
        } => {
            if create_subscription_error(v, caller, subscription_id@, plan_id@) is None {
                create_subscription_after(v, subscription_id, merchant_id, subscriber, plan_id, block_time)
            } else {
                v
            }
        },
        ContractCall::CancelSubscription { caller, block_time, subscription_id, cancel_at_period_end } => {
            if cancel_subscription_error(v, caller, subscription_id@) is None {
                cancel_subscription_after(v, subscription_id, cancel_at_period_end, block_time)
            } else {
                v
            }
        },
        ContractCall::Withdraw { caller, block_time, merchant_id, token_address, amount, recipient } => {
            if withdraw_error(v, caller, merchant_id@, token_address@, amount) is None {
                withdraw_after(v, merchant_id, token_address, amount)
            } else {
                v
            }
        },
        ContractCall::PauseContract { caller } => {
            if admin_error(v, caller) is None {
                with_paused(v, true)
            } else {
                v
            }
        },
        ContractCall::UnpauseContract { caller } => {
            if admin_error(v, caller) is None {
                with_paused(v, false)
            } else {
                v
            }
        },
    }
}

/// The storage after a sequence of calls, the first call first.
pub open spec fn after_calls(v: StorageView, calls: Seq<ContractCall>) -> StorageView
    decreases calls.len(),
{
    if calls.len() == 0 {
        v
    } else {
        after_call(after_calls(v, calls.drop_last()), calls.last())
    }
}

/// The storage of a contract just deployed: empty, then initialized with `admin`.
pub open spec fn deployed(admin: Address) -> StorageView {
    initialized(
        StorageView {
            platform_config: None,
            merchants: Map::empty(),
            products: Map::empty(),
            subscription_plans: Map::empty(),
            subscriptions: Map::empty(),
            payments: Map::empty(),
            merchant_balances: Map::empty(),
            total_platform_revenue: None,
        },
        admin,
    )
}

/// No funds are held: the revenue is zero and every balance is empty.
pub open spec fn holds_no_funds(v: StorageView) -> bool {
    &&& v.revenue() == 0
    &&& forall|key: Seq<char>| #[trigger] v.balance_at(key) == MerchantBalance::spec_empty()
}

/// Every call keeps a storage that holds no funds without funds: no call
/// credits the revenue or a balance, and no withdrawal succeeds from an empty
/// balance.
proof fn lemma_call_keeps_no_funds(v: StorageView, call: ContractCall)
    requires
        holds_no_funds(v),
    ensures
        holds_no_funds(after_call(v, call)),
{
    U256::lemma_from_value(U256::from_value(0), 0);
    let w = after_call(v, call);
    match call {
        ContractCall::Withdraw { caller, block_time, merchant_id, token_address, amount, recipient } => {
            let key = balance_key_text(merchant_id@, token_address@);
            assert(v.balance_at(key) == MerchantBalance::spec_empty());
            assert(withdraw_error(v, caller, merchant_id@, token_address@, amount) is Some);
        },
        _ => {
            assert forall|key: Seq<char>| #[trigger] w.balance_at(key) == MerchantBalance::spec_empty() by {
                assert(w.merchant_balances == v.merchant_balances);
                assert(v.balance_at(key) == MerchantBalance::spec_empty());
            }
        },
    }
}

/// In every state that a deployed contract reaches, by any sequence of calls,
/// refused ones included, the platform's revenue is zero and every merchant's
/// balance of every token is empty: nothing credits a revenue or a balance, and
/// a withdrawal needs an available balance above zero.
pub proof fn law_no_funds_are_held(admin: Address, calls: Seq<ContractCall>)
    ensures
        after_calls(deployed(admin), calls).revenue() == 0,
        forall|key: Seq<char>| #[trigger] after_calls(deployed(admin), calls).balance_at(key)
            == MerchantBalance::spec_empty(),
    decreases calls.len(),
{
    if calls.len() == 0 {
        U256::lemma_from_value(U256::from_value(0), 0);
        assert(holds_no_funds(deployed(admin)));
    } else {
        law_no_funds_are_held(admin, calls.drop_last());
        lemma_call_keeps_no_funds(after_calls(deployed(admin), calls.drop_last()), calls.last());
    }
}

} // verus!
