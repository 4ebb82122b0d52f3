//! The contract's storage: the platform configuration, the records keyed by
//! their identifiers, and the platform's revenue.

use vstd::prelude::*;
use crate::amount::U256;
use crate::strmap::StrMap;
use crate::types::{MerchantBalance, MerchantConfig, PaymentRecord, PlatformConfig, Product, Subscription, SubscriptionPlan};

verus! {

/// What the storage holds, as mathematical maps from key texts to records.
pub struct StorageView {
    pub platform_config: Option<PlatformConfig>,
    pub merchants: Map<Seq<char>, MerchantConfig>,
    pub products: Map<Seq<char>, Product>,
    pub subscription_plans: Map<Seq<char>, SubscriptionPlan>,
    pub subscriptions: Map<Seq<char>, Subscription>,
    pub payments: Map<Seq<char>, PaymentRecord>,
    pub merchant_balances: Map<Seq<char>, MerchantBalance>,
    pub total_platform_revenue: Option<U256>,
}

impl StorageView {
    /// The balance stored under the key, or the empty balance.
    pub open spec fn balance_at(self, key: Seq<char>) -> MerchantBalance {
        if self.merchant_balances.contains_key(key) {
            self.merchant_balances[key]
        } else {
            MerchantBalance::spec_empty()
        }
    }

    /// The platform's revenue, zero when none was stored.
    pub open spec fn revenue(self) -> nat {
        match self.total_platform_revenue {
            Some(r) => r@,
            None => 0,
        }
    }
}

/// Storage of the CasPay contract.
pub struct CasPayStorage {
    /// The platform configuration, absent until the contract is initialized.
    pub platform_config: Option<PlatformConfig>,
    /// Merchants by merchant identifier.
    pub merchants: StrMap<MerchantConfig>,
    /// Products by product identifier.
    pub products: StrMap<Product>,
    /// Subscription plans by plan identifier.
    pub subscription_plans: StrMap<SubscriptionPlan>,
    /// Subscriptions by subscription identifier.
    pub subscriptions: StrMap<Subscription>,
    /// Payment records by payment key (payer and time).
    pub payments: StrMap<PaymentRecord>,
    /// Balances by merchant identifier and token address.
    pub merchant_balances: StrMap<MerchantBalance>,
    /// Total revenue collected by the platform.
    pub total_platform_revenue: Option<U256>,
}

impl View for CasPayStorage {
    type V = StorageView;

    open spec fn view(&self) -> StorageView {
        StorageView {
            platform_config: self.platform_config,
            merchants: self.merchants@,
            products: self.products@,
            subscription_plans: self.subscription_plans@,
            subscriptions: self.subscriptions@,
            payments: self.payments@,
            merchant_balances: self.merchant_balances@,
            total_platform_revenue: self.total_platform_revenue,
        }
    }
}

impl CasPayStorage {
    /// Storage with nothing in it.
    pub fn new() -> (s: Self)
        ensures
            s@.platform_config is None,
            s@.merchants == Map::<Seq<char>, MerchantConfig>::empty(),
            s@.products == Map::<Seq<char>, Product>::empty(),
            s@.subscription_plans == Map::<Seq<char>, SubscriptionPlan>::empty(),
            s@.subscriptions == Map::<Seq<char>, Subscription>::empty(),
            s@.payments == Map::<Seq<char>, PaymentRecord>::empty(),
            s@.merchant_balances == Map::<Seq<char>, MerchantBalance>::empty(),
            s@.total_platform_revenue is None,
    {
        CasPayStorage {
            platform_config: None,
            merchants: StrMap::new(),
            products: StrMap::new(),
            subscription_plans: StrMap::new(),
            subscriptions: StrMap::new(),
            payments: StrMap::new(),
            merchant_balances: StrMap::new(),
            total_platform_revenue: None,
        }
    }

    /// Initializes the platform's revenue to zero.
    pub fn init(&mut self)
        ensures
            final(self)@ == (StorageView {
                total_platform_revenue: Some(U256::from_value(0)),
                ..old(self)@
            }),
    {
        self.total_platform_revenue = Some(U256::zero());
    }

    /// Whether a merchant is registered under the identifier.
    pub fn merchant_exists(&self, merchant_id: &String) -> (r: bool)
        ensures
            r == self@.merchants.contains_key(merchant_id@),
    {
        self.merchants.contains_key(merchant_id)
    }

    /// The merchant registered under the identifier.
    pub fn get_merchant(&self, merchant_id: &String) -> (r: Option<MerchantConfig>)
        ensures
            r == self@.merchants.get(merchant_id@),
    {
        match self.merchants.get(merchant_id) {
            Some(m) => Some(m.clone()),
            None => None,
        }
    }

    /// Stores the merchant under the identifier.
    pub fn set_merchant(&mut self, merchant_id: String, config: MerchantConfig)
        ensures
            final(self)@ == (StorageView {
                merchants: old(self)@.merchants.insert(merchant_id@, config),
                ..old(self)@
            }),
    {
        self.merchants.insert(merchant_id, config);
    }

    /// Whether a product is stored under the key.
    pub fn product_exists(&self, product_key: &String) -> (r: bool)
        ensures
            r == self@.products.contains_key(product_key@),
    {
        self.products.contains_key(product_key)
    }

    /// The product stored under the key.
    pub fn get_product(&self, product_key: &String) -> (r: Option<Product>)
        ensures
            r == self@.products.get(product_key@),
    {
        match self.products.get(product_key) {
            Some(p) => Some(p.clone()),
            None => None,
        }
    }

    /// Stores the product under the key.
    pub fn set_product(&mut self, product_key: String, product: Product)
        ensures
            final(self)@ == (StorageView {
                products: old(self)@.products.insert(product_key@, product),
                ..old(self)@
            }),
    {
        self.products.insert(product_key, product);
    }

    /// Whether a subscription plan is stored under the key.
    pub fn plan_exists(&self, plan_key: &String) -> (r: bool)
        ensures
            r == self@.subscription_plans.contains_key(plan_key@),
    {
        self.subscription_plans.contains_key(plan_key)
    }

    /// The subscription plan stored under the key.
    pub fn get_plan(&self, plan_key: &String) -> (r: Option<SubscriptionPlan>)
        ensures
            r == self@.subscription_plans.get(plan_key@),
    {
        match self.subscription_plans.get(plan_key) {
            Some(p) => Some(p.clone()),
            None => None,
        }
    }

    /// Stores the subscription plan under the key.
    pub fn set_plan(&mut self, plan_key: String, plan: SubscriptionPlan)
        ensures
            final(self)@ == (StorageView {
                subscription_plans: old(self)@.subscription_plans.insert(plan_key@, plan),
                ..old(self)@
            }),
    {
        self.subscription_plans.insert(plan_key, plan);
    }

    /// Whether a subscription is stored under the key.
    pub fn subscription_exists(&self, subscription_key: &String) -> (r: bool)
        ensures
            r == self@.subscriptions.contains_key(subscription_key@),
    {
        self.subscriptions.contains_key(subscription_key)
    }

    /// The subscription stored under the key.
    pub fn get_subscription(&self, subscription_key: &String) -> (r: Option<Subscription>)
        ensures
            r == self@.subscriptions.get(subscription_key@),
    {
        match self.subscriptions.get(subscription_key) {
            Some(s) => Some(s.clone()),
            None => None,
        }
    }

    /// Stores the subscription under the key.
    pub fn set_subscription(&mut self, subscription_key: String, subscription: Subscription)
        ensures
            final(self)@ == (StorageView {
                subscriptions: old(self)@.subscriptions.insert(subscription_key@, subscription),
                ..old(self)@
            }),
    {
        self.subscriptions.insert(subscription_key, subscription);
    }

    /// Whether a payment is recorded under the key.
    pub fn payment_exists(&self, payment_key: &String) -> (r: bool)
        ensures
            r == self@.payments.contains_key(payment_key@),
    {
        self.payments.contains_key(payment_key)
    }

    /// The payment recorded under the key.
    pub fn get_payment(&self, payment_key: &String) -> (r: Option<PaymentRecord>)
        ensures
            r == self@.payments.get(payment_key@),
    {
        match self.payments.get(payment_key) {
            Some(p) => Some(p.clone()),
            None => None,
        }
    }

    /// Records the payment under the key.
    pub fn set_payment(&mut self, payment_key: String, payment: PaymentRecord)
        ensures
            final(self)@ == (StorageView {
                payments: old(self)@.payments.insert(payment_key@, payment),
                ..old(self)@
            }),
    {
        self.payments.insert(payment_key, payment);
    }

    /// The balance stored under the key, or the empty balance when there is none.
    pub fn get_merchant_balance(&self, balance_key: &String) -> (r: MerchantBalance)
        ensures
            r == self@.balance_at(balance_key@),
    {
        match self.merchant_balances.get(balance_key) {
            Some(b) => *b,
            None => MerchantBalance::default(),
        }
    }

    /// Stores the balance under the key.
    pub fn set_merchant_balance(&mut self, balance_key: String, balance: MerchantBalance)
        ensures
            final(self)@ == (StorageView {
                merchant_balances: old(self)@.merchant_balances.insert(balance_key@, balance),
                ..old(self)@
            }),
    {
        self.merchant_balances.insert(balance_key, balance);
    }

    /// Adds to the platform's revenue; the sum must stay below 2^256.
    pub fn add_platform_revenue(&mut self, amount: U256)
        requires
            old(self)@.revenue() + amount@ < crate::amount::amount_bound(),
        ensures
            final(self)@ == (StorageView {
                total_platform_revenue: Some(U256::from_value(old(self)@.revenue() + amount@)),
                ..old(self)@
            }),
            final(self)@.revenue() == old(self)@.revenue() + amount@,
    {
        let current = match self.total_platform_revenue {
            Some(r) => r,
            None => U256::zero(),
        };
        let sum = current.add(&amount);
        self.total_platform_revenue = Some(sum);
    }

    /// The platform's revenue, zero when none was stored.
    pub fn get_platform_revenue(&self) -> (r: U256)
        ensures
            r@ == self@.revenue(),
    {
        match self.total_platform_revenue {
            Some(r) => r,
            None => U256::zero(),
        }
    }
}

} // verus!
