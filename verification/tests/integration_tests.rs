use caspay::address::Address;
use caspay::amount::U256;
use caspay::caspay::CasPay;
use caspay::errors::CasPayError;
use caspay::types::{MerchantStatus, SubscriptionInterval, SubscriptionStatus};

const NOW: u64 = 1_700_000_000;

fn account(n: u8) -> Address {
    Address::Account([n; 32])
}

fn setup() -> (CasPay, Address, Address) {
    let admin = account(1);
    let merchant_wallet = account(2);
    let mut contract = CasPay::new();
    contract.init(admin, NOW);
    (contract, admin, merchant_wallet)
}

// ==================== INITIALIZATION TESTS ====================

#[test]
fn test_initialization() {
    let (contract, _, _) = setup();
    let merchant = contract.get_merchant(String::from("nonexistent"));
    assert!(merchant.is_none());
}

// ==================== MERCHANT TESTS ====================

#[test]
fn test_register_merchant() {
    let (mut contract, admin, merchant_wallet) = setup();

    let merchant_id = String::from("merchant_001");
    contract.register_merchant(admin, NOW, merchant_id.clone(), merchant_wallet).unwrap();

    let merchant = contract.get_merchant(merchant_id).expect("Merchant should exist");
    assert_eq!(merchant.wallet_address, merchant_wallet);
    assert_eq!(merchant.status, MerchantStatus::Active);
}

#[test]
fn test_duplicate_merchant_fails() {
    let (mut contract, admin, merchant_wallet) = setup();

    let merchant_id = String::from("merchant_dup");
    contract.register_merchant(admin, NOW, merchant_id.clone(), merchant_wallet).unwrap();
    let second = contract.register_merchant(admin, NOW, merchant_id, merchant_wallet);
    assert_eq!(second.err(), Some(CasPayError::MerchantAlreadyExists));
}

#[test]
fn test_update_merchant_status() {
    let (mut contract, admin, merchant_wallet) = setup();

    let merchant_id = String::from("merchant_status");
    contract.register_merchant(admin, NOW, merchant_id.clone(), merchant_wallet).unwrap();
    contract
        .update_merchant_status(admin, NOW, merchant_id.clone(), MerchantStatus::Suspended)
        .unwrap();

    let merchant = contract.get_merchant(merchant_id).unwrap();
    assert_eq!(merchant.status, MerchantStatus::Suspended);
}

// ==================== PRODUCT TESTS ====================

#[test]
fn test_create_product() {
    let (mut contract, admin, merchant_wallet) = setup();

    let merchant_id = String::from("merchant_prod");
    contract.register_merchant(admin, NOW, merchant_id.clone(), merchant_wallet).unwrap();

    let product_id = String::from("prod_001");
    let price = U256::from_u64(1000);
    contract.create_product(admin, NOW, merchant_id.clone(), product_id.clone(), price).unwrap();

    let product = contract.get_product(product_id).expect("Product should exist");
    assert_eq!(product.price, price);
    assert!(product.active);
}

#[test]
fn test_create_product_zero_price_fails() {
    let (mut contract, admin, merchant_wallet) = setup();

    let merchant_id = String::from("merchant_zero");
    contract.register_merchant(admin, NOW, merchant_id.clone(), merchant_wallet).unwrap();
    let result = contract.create_product(admin, NOW, merchant_id, String::from("prod_001"), U256::zero());
    assert_eq!(result.err(), Some(CasPayError::InvalidAmount));
}

// ==================== SUBSCRIPTION PLAN TESTS ====================

#[test]
fn test_create_subscription_plan() {
    let (mut contract, admin, merchant_wallet) = setup();

    let merchant_id = String::from("merchant_plan");
    contract.register_merchant(admin, NOW, merchant_id.clone(), merchant_wallet).unwrap();

    let plan_id = String::from("plan_monthly");
    contract
        .create_subscription_plan(
            admin,
            NOW,
            merchant_id.clone(),
            plan_id.clone(),
            U256::from_u64(99),
            SubscriptionInterval::Monthly,
            1,
            7,
        )
        .unwrap();

    let plan = contract.get_subscription_plan(plan_id).expect("Plan should exist");
    assert_eq!(plan.trial_days, 7);
    assert_eq!(plan.interval, SubscriptionInterval::Monthly);
}

// ==================== PAYMENT TESTS ====================

#[test]
fn test_record_payment() {
    let (mut contract, admin, merchant_wallet) = setup();
    let payer = account(3);

    let merchant_id = String::from("merchant_pay");
    contract.register_merchant(admin, NOW, merchant_id.clone(), merchant_wallet).unwrap();

    let product_id = String::from("prod_001");
    contract.create_product(admin, NOW, merchant_id, product_id.clone(), U256::from_u64(5000)).unwrap();

    contract.record_payment(admin, NOW, payer, Some(product_id), None).unwrap();
}

#[test]
fn test_duplicate_payment_allowed() {
    let (mut contract, admin, merchant_wallet) = setup();
    let payer = account(3);

    let merchant_id = String::from("merchant_dup_pay");
    contract.register_merchant(admin, NOW, merchant_id.clone(), merchant_wallet).unwrap();

    let product_id = String::from("prod_001");
    contract.create_product(admin, NOW, merchant_id, product_id.clone(), U256::from_u64(1000)).unwrap();

    contract.record_payment(admin, NOW, payer, Some(product_id.clone()), None).unwrap();
    contract.record_payment(admin, NOW + 1, payer, Some(product_id), None).unwrap();
}

// ==================== SUBSCRIPTION TESTS ====================

fn setup_plan(contract: &mut CasPay, admin: Address, wallet: Address, merchant: &str, plan: &str, price: u64) {
    contract.register_merchant(admin, NOW, String::from(merchant), wallet).unwrap();
    contract
        .create_subscription_plan(
            admin,
            NOW,
            String::from(merchant),
            String::from(plan),
            U256::from_u64(price),
            SubscriptionInterval::Monthly,
            1,
            0,
        )
        .unwrap();
}

#[test]
fn test_create_subscription() {
    let (mut contract, admin, merchant_wallet) = setup();
    let subscriber = account(3);
    setup_plan(&mut contract, admin, merchant_wallet, "merchant_sub", "plan_basic", 50);

    let subscription_id = String::from("sub_001");
    contract
        .create_subscription(
            admin,
            NOW,
            subscription_id.clone(),
            String::from("merchant_sub"),
            subscriber,
            String::from("plan_basic"),
        )
        .unwrap();

    let subscription = contract.get_subscription(subscription_id.clone()).unwrap();
    assert_eq!(subscription.status, SubscriptionStatus::Active);
    assert!(contract.check_subscription(subscription_id, NOW));
}

#[test]
fn test_cancel_subscription() {
    let (mut contract, admin, merchant_wallet) = setup();
    let subscriber = account(3);
    setup_plan(&mut contract, admin, merchant_wallet, "merchant_cancel", "plan_cancel", 50);

    let subscription_id = String::from("sub_cancel");
    contract
        .create_subscription(
            admin,
            NOW,
            subscription_id.clone(),
            String::from("merchant_cancel"),
            subscriber,
            String::from("plan_cancel"),
        )
        .unwrap();

    contract.cancel_subscription(admin, NOW, subscription_id.clone(), false).unwrap();

    let subscription = contract.get_subscription(subscription_id.clone()).unwrap();
    assert_eq!(subscription.status, SubscriptionStatus::Cancelled);
    assert!(!contract.check_subscription(subscription_id, NOW));
}

// ==================== SUBSCRIPTION QUERY TESTS ====================

#[test]
fn test_subscription_status_query() {
    let (mut contract, admin, merchant_wallet) = setup();
    let subscriber = account(3);
    setup_plan(&mut contract, admin, merchant_wallet, "merchant_query", "plan_query", 50);

    let subscription_id = String::from("sub_query");
    contract
        .create_subscription(
            admin,
            NOW,
            subscription_id.clone(),
            String::from("merchant_query"),
            subscriber,
            String::from("plan_query"),
        )
        .unwrap();

    assert!(contract.check_subscription(subscription_id.clone(), NOW));

    contract.cancel_subscription(admin, NOW, subscription_id.clone(), false).unwrap();
    assert!(!contract.check_subscription(subscription_id.clone(), NOW));

    assert!(!contract.check_subscription(String::from("nonexistent_sub"), NOW));
}

#[test]
fn test_get_subscription_details() {
    let (mut contract, admin, merchant_wallet) = setup();
    let subscriber = account(3);
    setup_plan(&mut contract, admin, merchant_wallet, "merchant_details", "plan_details", 99);

    let merchant_id = String::from("merchant_details");
    let plan_id = String::from("plan_details");
    let subscription_id = String::from("sub_details");
    contract
        .create_subscription(admin, NOW, subscription_id.clone(), merchant_id.clone(), subscriber, plan_id.clone())
        .unwrap();

    let subscription = contract.get_subscription(subscription_id).unwrap();
    assert_eq!(subscription.merchant_id, merchant_id);
    assert_eq!(subscription.subscriber, subscriber);
    assert_eq!(subscription.plan_id, plan_id);
    assert_eq!(subscription.status, SubscriptionStatus::Active);
}

// ==================== AUTHORIZATION TESTS ====================

#[test]
fn test_non_admin_cannot_update_merchant_status() {
    let (mut contract, admin, merchant_wallet) = setup();
    let non_admin = account(3);

    let merchant_id = String::from("merchant_auth_test");
    contract.register_merchant(admin, NOW, merchant_id.clone(), merchant_wallet).unwrap();

    let result = contract.update_merchant_status(non_admin, NOW, merchant_id, MerchantStatus::Suspended);
    assert_eq!(result.err(), Some(CasPayError::Unauthorized));
}

#[test]
fn test_non_admin_cannot_create_product() {
    let (mut contract, admin, merchant_wallet) = setup();
    let non_admin = account(3);

    let merchant_id = String::from("merchant_product_auth");
    contract.register_merchant(admin, NOW, merchant_id.clone(), merchant_wallet).unwrap();

    let result = contract.create_product(non_admin, NOW, merchant_id, String::from("prod_001"), U256::from_u64(100));
    assert_eq!(result.err(), Some(CasPayError::Unauthorized));
}

#[test]
fn test_non_admin_cannot_create_subscription_plan() {
    let (mut contract, admin, merchant_wallet) = setup();
    let non_admin = account(3);

    let merchant_id = String::from("merchant_plan_auth");
    contract.register_merchant(admin, NOW, merchant_id.clone(), merchant_wallet).unwrap();

    let result = contract.create_subscription_plan(
        non_admin,
        NOW,
        merchant_id,
        String::from("plan_001"),
        U256::from_u64(50),
        SubscriptionInterval::Monthly,
        1,
        0,
    );
    assert_eq!(result.err(), Some(CasPayError::Unauthorized));
}

#[test]
fn test_non_admin_cannot_record_payment() {
    let (mut contract, admin, merchant_wallet) = setup();
    let non_admin = account(3);
    let payer = account(4);

    let merchant_id = String::from("merchant_payment_auth");
    contract.register_merchant(admin, NOW, merchant_id.clone(), merchant_wallet).unwrap();

    let product_id = String::from("prod_001");
    contract.create_product(admin, NOW, merchant_id, product_id.clone(), U256::from_u64(1000)).unwrap();

    let result = contract.record_payment(non_admin, NOW, payer, Some(product_id), None);
    assert_eq!(result.err(), Some(CasPayError::Unauthorized));
}

#[test]
fn test_non_admin_cannot_withdraw() {
    let (mut contract, admin, merchant_wallet) = setup();
    let non_admin = account(3);
    let payer = account(4);

    let merchant_id = String::from("merchant_withdraw_auth");
    contract.register_merchant(admin, NOW, merchant_id.clone(), merchant_wallet).unwrap();

    let product_id = String::from("prod_001");
    contract
        .create_product(admin, NOW, merchant_id.clone(), product_id.clone(), U256::from_u64(5000))
        .unwrap();
    contract.record_payment(admin, NOW, payer, Some(product_id), None).unwrap();

    let result = contract.withdraw(
        non_admin,
        NOW,
        merchant_id,
        String::from("NATIVE"),
        U256::from_u64(1000),
        merchant_wallet,
    );
    assert_eq!(result.err(), Some(CasPayError::Unauthorized));
}

#[test]
fn test_non_admin_cannot_pause_contract() {
    let (mut contract, _, _) = setup();
    let non_admin = account(3);

    assert_eq!(contract.pause_contract(non_admin).err(), Some(CasPayError::Unauthorized));
}

#[test]
fn test_non_admin_cannot_create_subscription() {
    let (mut contract, admin, merchant_wallet) = setup();
    let subscriber = account(3);
    let non_admin = account(4);
    setup_plan(&mut contract, admin, merchant_wallet, "merchant_sub_auth", "plan_auth", 50);

    let result = contract.create_subscription(
        non_admin,
        NOW,
        String::from("sub_auth"),
        String::from("merchant_sub_auth"),
        subscriber,
        String::from("plan_auth"),
    );
    assert_eq!(result.err(), Some(CasPayError::Unauthorized));
}

// ==================== ADMIN CONTROL TESTS ====================

#[test]
fn test_pause_unpause() {
    let (mut contract, admin, merchant_wallet) = setup();

    contract.pause_contract(admin).unwrap();

    let result = contract.register_merchant(admin, NOW, String::from("test"), merchant_wallet);
    assert!(result.is_err());

    contract.unpause_contract(admin).unwrap();
    contract.register_merchant(admin, NOW, String::from("after_unpause"), merchant_wallet).unwrap();
    assert!(contract.get_merchant(String::from("after_unpause")).is_some());
}
