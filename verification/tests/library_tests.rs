use caspay::address::Address;
use caspay::amount::U256;
use caspay::caspay::CasPay;
use caspay::errors::CasPayError;
use caspay::storage::CasPayStorage;
use caspay::strmap::StrMap;
use caspay::text::{balance_key, payment_key};
use caspay::types::{
    MerchantBalance, MerchantStatus, SubscriptionInterval, SubscriptionStatus,
};

const NOW: u64 = 1_700_000_000;
const DAY: u64 = 86_400;

fn account(n: u8) -> Address {
    Address::Account([n; 32])
}

fn contract_with_admin(admin: Address) -> CasPay {
    let mut contract = CasPay::new();
    contract.init(admin, NOW);
    contract
}

fn big(lo: u128, hi: u128) -> U256 {
    U256::from_halves(lo, hi)
}

// ==================== AMOUNTS ====================

#[test]
fn amount_add_carries_into_high_half() {
    let a = big(u128::MAX, 0);
    let b = U256::from_u64(1);
    let sum = a.add(&b);
    assert_eq!(sum.low_half(), 0);
    assert_eq!(sum.high_half(), 1);
}

#[test]
fn amount_sub_borrows_from_high_half() {
    let a = big(0, 1);
    let b = U256::from_u64(1);
    let diff = a.sub(&b);
    assert_eq!(diff.low_half(), u128::MAX);
    assert_eq!(diff.high_half(), 0);
}

#[test]
fn amount_sub_undoes_add() {
    let a = big(12345, 678);
    let b = big(u128::MAX - 5, 9);
    let back = a.add(&b).sub(&b);
    assert_eq!(back, a);
}

#[test]
fn amount_comparisons() {
    assert!(U256::zero().is_zero());
    assert!(!U256::from_u64(1).is_zero());
    assert!(big(5, 0).less_than(&big(0, 1)));
    assert!(!big(0, 1).less_than(&big(5, 0)));
    assert!(big(4, 7).less_than(&big(5, 7)));
    assert!(!big(5, 7).less_than(&big(5, 7)));
    assert!(big(5, 7).equals(&big(5, 7)));
    assert!(!big(5, 7).equals(&big(5, 8)));
}

#[test]
fn amount_largest_value() {
    let max = big(u128::MAX, u128::MAX);
    let one_less = max.sub(&U256::from_u64(1));
    assert_eq!(one_less.low_half(), u128::MAX - 1);
    assert_eq!(one_less.add(&U256::from_u64(1)), max);
}

// ==================== ADDRESSES AND KEYS ====================

#[test]
fn addresses_compare_by_value() {
    assert_eq!(account(7), account(7));
    assert_ne!(account(7), account(8));
    assert_ne!(Address::Account([7; 32]), Address::Contract([7; 32]));
}

#[test]
fn payment_key_of_account() {
    let key = payment_key(&Address::Account([0xab; 32]), 1_700_000_000);
    let expected = format!("Account(AccountHash({})):1700000000", "ab".repeat(32));
    assert_eq!(key, expected);
}

#[test]
fn payment_key_of_contract() {
    let mut hash = [0u8; 32];
    hash[0] = 0x0f;
    hash[31] = 0xf0;
    let key = payment_key(&Address::Contract(hash), 0);
    let expected = format!("Contract(ContractPackageHash(0f{}f0)):0", "00".repeat(30));
    assert_eq!(key, expected);
}

#[test]
fn payment_key_time_in_decimal() {
    let key = payment_key(&account(1), u64::MAX);
    assert!(key.ends_with(":18446744073709551615"));
    let key = payment_key(&account(1), 9);
    assert!(key.ends_with(")):9"));
}

#[test]
fn balance_key_joins_with_colon() {
    let key = balance_key(&String::from("merchant_1"), &String::from("NATIVE"));
    assert_eq!(key, "merchant_1:NATIVE");
}

// ==================== MAPS AND STORAGE ====================

#[test]
fn strmap_insert_then_get() {
    let mut map: StrMap<u32> = StrMap::new();
    assert!(!map.contains_key(&String::from("a")));
    map.insert(String::from("a"), 1);
    map.insert(String::from("b"), 2);
    map.insert(String::from("a"), 3);
    assert_eq!(map.get(&String::from("a")), Some(&3));
    assert_eq!(map.get(&String::from("b")), Some(&2));
    assert_eq!(map.get(&String::from("c")), None);
}

#[test]
fn storage_balance_defaults_to_empty() {
    let storage = CasPayStorage::new();
    let balance = storage.get_merchant_balance(&String::from("m:NATIVE"));
    assert!(balance.available.is_zero());
    assert!(balance.pending.is_zero());
    assert!(balance.total_received.is_zero());
    assert!(balance.total_withdrawn.is_zero());
}

#[test]
fn storage_revenue_accumulates() {
    let mut storage = CasPayStorage::new();
    assert!(storage.get_platform_revenue().is_zero());
    storage.init();
    storage.add_platform_revenue(U256::from_u64(40));
    storage.add_platform_revenue(U256::from_u64(2));
    assert_eq!(storage.get_platform_revenue(), U256::from_u64(42));
}

#[test]
fn storage_payment_exists_after_set() {
    let mut storage = CasPayStorage::new();
    let key = String::from("k");
    assert!(!storage.payment_exists(&key));
    storage.set_payment(
        key.clone(),
        caspay::types::PaymentRecord {
            payer: account(1),
            product_id: None,
            subscription_plan_id: None,
            timestamp: 3,
        },
    );
    assert!(storage.payment_exists(&key));
    assert_eq!(storage.get_payment(&key).unwrap().timestamp, 3);
}

// ==================== INITIALIZATION ====================

#[test]
fn init_happens_once() {
    let first = account(1);
    let second = account(2);
    let mut contract = CasPay::new();
    let setup = contract.init(first, NOW).expect("first init emits the setup event");
    assert_eq!(setup.admin, first);
    assert_eq!(setup.config_type, "initial_setup");
    assert_eq!(setup.timestamp, NOW);
    assert!(contract.init(second, NOW).is_none());
    assert!(contract.get_platform_revenue().is_zero());
    assert_eq!(
        contract.pause_contract(second).err(),
        Some(CasPayError::Unauthorized)
    );
    assert!(contract.pause_contract(first).is_ok());
}

#[test]
fn uninitialized_contract_refuses_admin_calls() {
    let mut contract = CasPay::new();
    assert_eq!(contract.pause_contract(account(1)).err(), Some(CasPayError::Unauthorized));
    let result = contract.create_product(
        account(1),
        NOW,
        String::from("m"),
        String::from("p"),
        U256::from_u64(1),
    );
    assert_eq!(result.err(), Some(CasPayError::Unauthorized));
}

#[test]
fn first_registration_initializes_with_caller() {
    let caller = account(5);
    let mut contract = CasPay::new();
    let (setup, registered) = contract
        .register_merchant(caller, NOW, String::from("m"), account(6))
        .unwrap();
    let setup = setup.expect("registration on a fresh contract sets it up");
    assert_eq!(setup.admin, caller);
    assert_eq!(registered.merchant_id, "m");
    assert_eq!(registered.wallet_address, account(6));
    assert_eq!(registered.timestamp, NOW);
    assert!(contract.pause_contract(caller).is_ok());
}

// ==================== MERCHANTS ====================

#[test]
fn merchant_status_change_event() {
    let admin = account(1);
    let mut contract = contract_with_admin(admin);
    contract.register_merchant(admin, NOW, String::from("m"), account(2)).unwrap();
    let event = contract
        .update_merchant_status(admin, NOW + 5, String::from("m"), MerchantStatus::Closed)
        .unwrap();
    assert_eq!(event.old_status, 1);
    assert_eq!(event.new_status, 3);
    assert_eq!(event.timestamp, NOW + 5);
    let merchant = contract.get_merchant(String::from("m")).unwrap();
    assert_eq!(merchant.updated_at, NOW + 5);
    assert_eq!(merchant.created_at, NOW);
}

#[test]
fn merchant_status_change_of_unknown_merchant() {
    let admin = account(1);
    let mut contract = contract_with_admin(admin);
    let result = contract.update_merchant_status(admin, NOW, String::from("x"), MerchantStatus::Active);
    assert_eq!(result.err(), Some(CasPayError::InvalidMerchant));
}

#[test]
fn status_change_works_while_paused() {
    let admin = account(1);
    let mut contract = contract_with_admin(admin);
    contract.register_merchant(admin, NOW, String::from("m"), account(2)).unwrap();
    contract.pause_contract(admin).unwrap();
    assert!(contract
        .update_merchant_status(admin, NOW, String::from("m"), MerchantStatus::Suspended)
        .is_ok());
}

// ==================== PRODUCTS AND PLANS ====================

#[test]
fn product_needs_registered_merchant() {
    let admin = account(1);
    let mut contract = contract_with_admin(admin);
    let result = contract.create_product(admin, NOW, String::from("nobody"), String::from("p"), U256::from_u64(1));
    assert_eq!(result.err(), Some(CasPayError::InvalidMerchant));
}

#[test]
fn duplicate_product_refused() {
    let admin = account(1);
    let mut contract = contract_with_admin(admin);
    contract.register_merchant(admin, NOW, String::from("m"), account(2)).unwrap();
    contract.create_product(admin, NOW, String::from("m"), String::from("p"), U256::from_u64(1)).unwrap();
    let again = contract.create_product(admin, NOW, String::from("m"), String::from("p"), U256::from_u64(2));
    assert_eq!(again.err(), Some(CasPayError::ProductAlreadyExists));
    assert_eq!(contract.get_product(String::from("p")).unwrap().price, U256::from_u64(1));
}

#[test]
fn product_status_update() {
    let admin = account(1);
    let mut contract = contract_with_admin(admin);
    contract.register_merchant(admin, NOW, String::from("m"), account(2)).unwrap();
    contract.create_product(admin, NOW, String::from("m"), String::from("p"), U256::from_u64(1)).unwrap();
    let event = contract.update_product_status(admin, NOW + 1, String::from("p"), false).unwrap();
    assert_eq!(event.merchant_id, "m");
    let product = contract.get_product(String::from("p")).unwrap();
    assert!(!product.active);
    assert_eq!(product.updated_at, NOW + 1);
    let missing = contract.update_product_status(admin, NOW, String::from("q"), true);
    assert_eq!(missing.err(), Some(CasPayError::InvalidProduct));
}

#[test]
fn plan_errors_and_status_update() {
    let admin = account(1);
    let mut contract = contract_with_admin(admin);
    contract.register_merchant(admin, NOW, String::from("m"), account(2)).unwrap();
    let zero = contract.create_subscription_plan(
        admin, NOW, String::from("m"), String::from("plan"), U256::zero(), SubscriptionInterval::Weekly, 1, 0,
    );
    assert_eq!(zero.err(), Some(CasPayError::InvalidAmount));
    let created = contract
        .create_subscription_plan(
            admin, NOW, String::from("m"), String::from("plan"), U256::from_u64(5), SubscriptionInterval::Yearly, 2, 3,
        )
        .unwrap();
    assert_eq!(created.interval, 2);
    assert_eq!(created.trial_days, 3);
    let dup = contract.create_subscription_plan(
        admin, NOW, String::from("m"), String::from("plan"), U256::from_u64(5), SubscriptionInterval::Weekly, 1, 0,
    );
    assert_eq!(dup.err(), Some(CasPayError::SubscriptionPlanAlreadyExists));
    contract.update_plan_status(admin, NOW, String::from("plan"), false).unwrap();
    assert!(!contract.get_subscription_plan(String::from("plan")).unwrap().active);
    let missing = contract.update_plan_status(admin, NOW, String::from("none"), true);
    assert_eq!(missing.err(), Some(CasPayError::InvalidSubscriptionPlan));
}

// ==================== PAYMENTS ====================

#[test]
fn payment_is_read_back_by_key() {
    let admin = account(1);
    let payer = account(9);
    let mut contract = contract_with_admin(admin);
    contract.record_payment(admin, NOW, payer, Some(String::from("p")), None).unwrap();
    contract.record_payment(admin, NOW + 1, payer, None, Some(String::from("plan"))).unwrap();
    let first = contract.get_payment(payment_key(&payer, NOW)).unwrap();
    assert_eq!(first.product_id, Some(String::from("p")));
    assert_eq!(first.timestamp, NOW);
    let second = contract.get_payment(payment_key(&payer, NOW + 1)).unwrap();
    assert_eq!(second.subscription_plan_id, Some(String::from("plan")));
    assert!(contract.get_payment(String::from("nothing")).is_none());
}

#[test]
fn payment_refused_while_paused() {
    let admin = account(1);
    let mut contract = contract_with_admin(admin);
    contract.pause_contract(admin).unwrap();
    let result = contract.record_payment(admin, NOW, account(2), None, None);
    assert_eq!(result.err(), Some(CasPayError::ContractPaused));
}

// ==================== SUBSCRIPTIONS ====================

fn contract_with_plan(trial_days: u32) -> (CasPay, Address) {
    let admin = account(1);
    let mut contract = contract_with_admin(admin);
    contract.register_merchant(admin, NOW, String::from("m"), account(2)).unwrap();
    contract
        .create_subscription_plan(
            admin, NOW, String::from("m"), String::from("plan"), U256::from_u64(10), SubscriptionInterval::Monthly, 1, trial_days,
        )
        .unwrap();
    (contract, admin)
}

#[test]
fn subscription_without_trial_periods() {
    let (mut contract, admin) = contract_with_plan(0);
    let event = contract
        .create_subscription(admin, NOW, String::from("s"), String::from("m"), account(3), String::from("plan"))
        .unwrap();
    assert_eq!(event.period_start, NOW);
    assert_eq!(event.period_end, NOW + 30 * DAY);
    assert_eq!(event.trial_end, None);
    let sub = contract.get_subscription(String::from("s")).unwrap();
    assert_eq!(sub.status, SubscriptionStatus::Active);
    assert_eq!(sub.next_charge_date, Some(NOW + 30 * DAY));
    assert_eq!(sub.trial_start, None);
    assert!(!sub.cancel_at_period_end);
    assert!(contract.check_subscription(String::from("s"), NOW + 30 * DAY));
    assert!(!contract.check_subscription(String::from("s"), NOW + 30 * DAY + 1));
}

#[test]
fn subscription_with_trial_periods() {
    let (mut contract, admin) = contract_with_plan(7);
    let event = contract
        .create_subscription(admin, NOW, String::from("s"), String::from("m"), account(3), String::from("plan"))
        .unwrap();
    assert_eq!(event.trial_end, Some(NOW + 7 * DAY));
    let sub = contract.get_subscription(String::from("s")).unwrap();
    assert_eq!(sub.status, SubscriptionStatus::Trialing);
    assert_eq!(sub.trial_start, Some(NOW));
    assert_eq!(sub.trial_end, Some(NOW + 7 * DAY));
    assert_eq!(sub.next_charge_date, Some(NOW + 7 * DAY));
    assert_eq!(sub.current_period_end, NOW + 30 * DAY);
    assert!(contract.check_subscription(String::from("s"), NOW + 10 * DAY));
}

#[test]
fn subscription_errors() {
    let (mut contract, admin) = contract_with_plan(0);
    let no_plan = contract.create_subscription(
        admin, NOW, String::from("s"), String::from("m"), account(3), String::from("other"),
    );
    assert_eq!(no_plan.err(), Some(CasPayError::InvalidSubscriptionPlan));
    contract
        .create_subscription(admin, NOW, String::from("s"), String::from("m"), account(3), String::from("plan"))
        .unwrap();
    let again = contract.create_subscription(
        admin, NOW, String::from("s"), String::from("m"), account(4), String::from("plan"),
    );
    assert_eq!(again.err(), Some(CasPayError::SubscriptionAlreadyActive));
    contract.update_plan_status(admin, NOW, String::from("plan"), false).unwrap();
    let inactive = contract.create_subscription(
        admin, NOW, String::from("t"), String::from("m"), account(3), String::from("plan"),
    );
    assert_eq!(inactive.err(), Some(CasPayError::InvalidSubscriptionPlan));
}

#[test]
fn subscriber_may_cancel_at_period_end() {
    let (mut contract, admin) = contract_with_plan(0);
    let subscriber = account(3);
    contract
        .create_subscription(admin, NOW, String::from("s"), String::from("m"), subscriber, String::from("plan"))
        .unwrap();
    let event = contract.cancel_subscription(subscriber, NOW + 2, String::from("s"), true).unwrap();
    assert_eq!(event.old_status, 0);
    assert_eq!(event.new_status, 0);
    let sub = contract.get_subscription(String::from("s")).unwrap();
    assert!(sub.cancel_at_period_end);
    assert_eq!(sub.cancelled_at, Some(NOW + 2));
    assert_eq!(sub.status, SubscriptionStatus::Active);
    assert!(contract.check_subscription(String::from("s"), NOW + 3));
}

#[test]
fn stranger_may_not_cancel() {
    let (mut contract, admin) = contract_with_plan(0);
    contract
        .create_subscription(admin, NOW, String::from("s"), String::from("m"), account(3), String::from("plan"))
        .unwrap();
    let result = contract.cancel_subscription(account(8), NOW, String::from("s"), false);
    assert_eq!(result.err(), Some(CasPayError::Unauthorized));
    let missing = contract.cancel_subscription(admin, NOW, String::from("none"), false);
    assert_eq!(missing.err(), Some(CasPayError::InvalidSubscription));
}

#[test]
fn cancel_at_once_reports_statuses() {
    let (mut contract, admin) = contract_with_plan(2);
    contract
        .create_subscription(admin, NOW, String::from("s"), String::from("m"), account(3), String::from("plan"))
        .unwrap();
    let event = contract.cancel_subscription(admin, NOW, String::from("s"), false).unwrap();
    assert_eq!(event.old_status, 1);
    assert_eq!(event.new_status, 3);
    assert!(!contract.check_subscription(String::from("s"), NOW));
}

// ==================== BALANCES AND WITHDRAWALS ====================

fn contract_with_balance(available: u64) -> (CasPay, Address) {
    let admin = account(1);
    let mut storage = contract_with_admin(admin).into_storage();
    let mut balance = MerchantBalance::default();
    balance.available = U256::from_u64(available);
    balance.total_received = U256::from_u64(available);
    storage.set_merchant_balance(String::from("m:NATIVE"), balance);
    (CasPay::from_storage(storage), admin)
}

#[test]
fn withdraw_moves_funds() {
    let (mut contract, admin) = contract_with_balance(1000);
    let event = contract
        .withdraw(admin, NOW, String::from("m"), String::from("NATIVE"), U256::from_u64(300), account(2))
        .unwrap();
    assert_eq!(event.amount, U256::from_u64(300));
    assert_eq!(event.recipient, account(2));
    let balance = contract.get_merchant_balance(String::from("m"), String::from("NATIVE"));
    assert_eq!(balance.available, U256::from_u64(700));
    assert_eq!(balance.total_withdrawn, U256::from_u64(300));
    assert_eq!(balance.total_received, U256::from_u64(1000));
}

#[test]
fn withdraw_errors() {
    let (mut contract, admin) = contract_with_balance(10);
    let zero = contract.withdraw(admin, NOW, String::from("m"), String::from("NATIVE"), U256::zero(), account(2));
    assert_eq!(zero.err(), Some(CasPayError::InvalidAmount));
    let too_much = contract.withdraw(admin, NOW, String::from("m"), String::from("NATIVE"), U256::from_u64(11), account(2));
    assert_eq!(too_much.err(), Some(CasPayError::InsufficientBalance));
    let other_token = contract.withdraw(admin, NOW, String::from("m"), String::from("USDT"), U256::from_u64(1), account(2));
    assert_eq!(other_token.err(), Some(CasPayError::InsufficientBalance));
    assert_eq!(
        contract.get_merchant_balance(String::from("m"), String::from("NATIVE")).available,
        U256::from_u64(10)
    );
    contract.withdraw(admin, NOW, String::from("m"), String::from("NATIVE"), U256::from_u64(10), account(2)).unwrap();
    assert!(contract.get_merchant_balance(String::from("m"), String::from("NATIVE")).available.is_zero());
}

// ==================== PAUSE AND ERROR CODES ====================

#[test]
fn pause_then_unpause_restores_operations() {
    let admin = account(1);
    let mut contract = contract_with_admin(admin);
    contract.pause_contract(admin).unwrap();
    let refused = contract.register_merchant(admin, NOW, String::from("m"), account(2));
    assert_eq!(refused.err(), Some(CasPayError::ContractPaused));
    assert!(contract.get_merchant(String::from("m")).is_none());
    contract.unpause_contract(admin).unwrap();
    assert!(contract.register_merchant(admin, NOW, String::from("m"), account(2)).is_ok());
    assert_eq!(contract.unpause_contract(account(2)).err(), Some(CasPayError::Unauthorized));
}

#[test]
fn error_and_status_codes() {
    assert_eq!(CasPayError::Unauthorized.code(), 1000);
    assert_eq!(CasPayError::InvalidMerchant.code(), 1001);
    assert_eq!(CasPayError::SubscriptionAlreadyActive.code(), 1010);
    assert_eq!(CasPayError::ContractPaused.code(), 1013);
    assert_eq!(CasPayError::InvalidAmount.code(), 1015);
    assert_eq!(CasPayError::InvalidMerchantStatus.code(), 1018);
    assert_eq!(CasPayError::OperationExpired.code(), 1022);
    assert_eq!(MerchantStatus::Pending.code(), 0);
    assert_eq!(MerchantStatus::Suspended.code(), 2);
    assert_eq!(SubscriptionInterval::Weekly.code(), 0);
    assert_eq!(SubscriptionInterval::Monthly.code(), 1);
    assert_eq!(SubscriptionInterval::Yearly.code(), 2);
    assert_eq!(SubscriptionStatus::Expired.code(), 5);
    assert_eq!(SubscriptionStatus::PastDue.code(), 4);
}


#[test]
fn payments_of_two_payers_at_one_time_are_kept() {
    let admin = account(1);
    let mut contract = contract_with_admin(admin);
    contract.record_payment(admin, NOW, account(7), Some(String::from("a")), None).unwrap();
    contract.record_payment(admin, NOW, Address::Contract([7; 32]), Some(String::from("b")), None).unwrap();
    let first = contract.get_payment(payment_key(&account(7), NOW)).unwrap();
    let second = contract.get_payment(payment_key(&Address::Contract([7; 32]), NOW)).unwrap();
    assert_eq!(first.product_id, Some(String::from("a")));
    assert_eq!(second.product_id, Some(String::from("b")));
    assert_eq!(second.payer, Address::Contract([7; 32]));
}

#[test]
fn monthly_plan_event_carries_one() {
    let admin = account(1);
    let mut contract = contract_with_admin(admin);
    contract.register_merchant(admin, NOW, String::from("m"), account(2)).unwrap();
    let event = contract
        .create_subscription_plan(
            admin, NOW, String::from("m"), String::from("plan"), U256::from_u64(9), SubscriptionInterval::Monthly, 1, 0,
        )
        .unwrap();
    assert_eq!(event.interval, 1);
}

#[test]
fn checks_before_a_subscription_and_a_withdrawal() {
    let (contract, admin) = contract_with_plan(0);
    let s = String::from("s");
    let plan = String::from("plan");
    assert!(contract.create_subscription_check(&admin, &s, &plan).is_ok());
    assert_eq!(
        contract.create_subscription_check(&account(9), &s, &plan).err(),
        Some(CasPayError::Unauthorized)
    );
    assert_eq!(
        contract.create_subscription_check(&admin, &s, &String::from("none")).err(),
        Some(CasPayError::InvalidSubscriptionPlan)
    );
    let m = String::from("m");
    let token = String::from("NATIVE");
    assert_eq!(
        contract.withdraw_check(&admin, &m, &token, &U256::from_u64(1)).err(),
        Some(CasPayError::InsufficientBalance)
    );
    assert_eq!(
        contract.withdraw_check(&admin, &m, &token, &U256::zero()).err(),
        Some(CasPayError::InvalidAmount)
    );
    let (funded, admin) = contract_with_balance(5);
    assert!(funded.withdraw_check(&admin, &m, &token, &U256::from_u64(5)).is_ok());
}

#[test]
fn no_funds_after_a_run_of_calls() {
    let admin = account(1);
    let mut contract = contract_with_admin(admin);
    contract.register_merchant(admin, NOW, String::from("m"), account(2)).unwrap();
    contract.create_product(admin, NOW, String::from("m"), String::from("p"), U256::from_u64(5)).unwrap();
    contract.record_payment(admin, NOW, account(3), Some(String::from("p")), None).unwrap();
    let refused = contract.withdraw(admin, NOW, String::from("m"), String::from("NATIVE"), U256::from_u64(5), account(2));
    assert_eq!(refused.err(), Some(CasPayError::InsufficientBalance));
    assert!(contract.get_platform_revenue().is_zero());
    let balance = contract.get_merchant_balance(String::from("m"), String::from("NATIVE"));
    assert!(balance.available.is_zero());
    assert!(balance.total_withdrawn.is_zero());
}
