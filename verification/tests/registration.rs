use my_neversea_2025::{
    AccountId, Amount, CallContext, ContractError, MyNeversea2025, Tier, Transfer,
};

fn account(tag: u8) -> AccountId {
    AccountId::new([tag; 32])
}

fn owner() -> AccountId {
    account(0xAA)
}

fn amount(value: u64) -> Amount {
    Amount::from_u64(value)
}

fn call(caller: AccountId, payment: u64) -> CallContext {
    CallContext::new(caller, owner(), amount(payment))
}

fn deployed(normal_fee: u64, vip_fee: u64) -> MyNeversea2025 {
    let mut contract = MyNeversea2025::new();
    contract.init(amount(normal_fee), amount(vip_fee));
    contract
}

fn value(amount: &Amount) -> u128 {
    let mut total: u128 = 0;
    for byte in amount.to_bytes_be() {
        total = total * 256 + byte as u128;
    }
    total
}

#[test]
fn blank_contract_has_zero_fees_and_nobody() {
    let contract = MyNeversea2025::new();
    assert_eq!(contract.registration_fee(), amount(0));
    assert_eq!(contract.registration_fee_vip(), amount(0));
    assert!(contract.participants().is_empty());
    assert!(contract.vip_participants().is_empty());
}

#[test]
fn init_stores_the_fees_as_given() {
    let contract = deployed(100, 300);
    assert_eq!(contract.registration_fee(), amount(100));
    assert_eq!(contract.registration_fee_vip(), amount(300));
    let inverted = deployed(300, 0);
    assert_eq!(inverted.registration_fee(), amount(300));
    assert_eq!(inverted.registration_fee_vip(), amount(0));
}

#[test]
fn init_keeps_the_participants() {
    let mut contract = deployed(100, 300);
    contract.register(&call(account(1), 100)).unwrap();
    contract.init(amount(7), amount(8));
    assert_eq!(contract.participants(), vec![account(1)]);
    assert_eq!(contract.registration_fee(), amount(7));
    assert_eq!(contract.registration_fee_vip(), amount(8));
}

#[test]
fn deploy_and_three_registrations() {
    let mut contract = deployed(100, 300);
    let mut owner_balance: u128 = 0;
    let (a, b, c) = (account(1), account(2), account(3));

    let first = contract.register(&call(a, 100)).unwrap();
    assert_eq!(first, Transfer { to: owner(), amount: amount(100) });
    owner_balance += value(&first.amount);
    assert_eq!(contract.participants(), vec![a]);
    assert!(contract.vip_participants().is_empty());
    assert_eq!(owner_balance, 100);

    let second = contract.register(&call(b, 300)).unwrap();
    assert_eq!(second, Transfer { to: owner(), amount: amount(300) });
    owner_balance += value(&second.amount);
    assert_eq!(contract.participants(), vec![a]);
    assert_eq!(contract.vip_participants(), vec![b]);
    assert_eq!(owner_balance, 400);

    let third = contract.register(&call(c, 50));
    assert_eq!(third, Err(ContractError::InvalidPaymentAmount));
    assert_eq!(contract.participants(), vec![a]);
    assert_eq!(contract.vip_participants(), vec![b]);
    assert_eq!(owner_balance, 400);
}

#[test]
fn normal_fee_enters_the_normal_list_only() {
    let mut contract = deployed(5, 9);
    let result = contract.register(&call(account(1), 5));
    assert_eq!(result, Ok(Transfer { to: owner(), amount: amount(5) }));
    assert_eq!(contract.participants(), vec![account(1)]);
    assert!(contract.vip_participants().is_empty());
}

#[test]
fn vip_fee_enters_the_vip_list_only() {
    let mut contract = deployed(5, 9);
    let result = contract.register(&call(account(1), 9));
    assert_eq!(result, Ok(Transfer { to: owner(), amount: amount(9) }));
    assert!(contract.participants().is_empty());
    assert_eq!(contract.vip_participants(), vec![account(1)]);
}

#[test]
fn vip_fee_below_the_normal_fee_still_selects_vip() {
    let mut contract = deployed(300, 100);
    contract.register(&call(account(1), 100)).unwrap();
    contract.register(&call(account(2), 300)).unwrap();
    assert_eq!(contract.participants(), vec![account(2)]);
    assert_eq!(contract.vip_participants(), vec![account(1)]);
}

#[test]
fn wrong_payment_is_refused() {
    let mut contract = deployed(100, 300);
    contract.register(&call(account(1), 100)).unwrap();
    for payment in [0, 1, 50, 99, 101, 299, 301, 400, u64::MAX] {
        let result = contract.register(&call(account(3), payment));
        assert_eq!(result, Err(ContractError::InvalidPaymentAmount));
        assert_eq!(contract.participants(), vec![account(1)]);
        assert!(contract.vip_participants().is_empty());
    }
}

#[test]
fn overpayment_is_not_accepted() {
    let mut contract = deployed(100, 300);
    let result = contract.register(&call(account(1), 1000));
    assert_eq!(result, Err(ContractError::InvalidPaymentAmount));
}

#[test]
fn registering_twice_pays_twice_and_lists_once() {
    let mut contract = deployed(100, 300);
    let a = account(1);
    let first = contract.register(&call(a, 100));
    let size_after_first = contract.participants().len();
    let second = contract.register(&call(a, 100));
    assert_eq!(first, Ok(Transfer { to: owner(), amount: amount(100) }));
    assert_eq!(second, Ok(Transfer { to: owner(), amount: amount(100) }));
    assert_eq!(size_after_first, 1);
    assert_eq!(contract.participants().len(), 1);
    assert_eq!(contract.participants(), vec![a]);
    assert!(contract.vip_participants().is_empty());
}

#[test]
fn registering_twice_as_vip_pays_twice_and_lists_once() {
    let mut contract = deployed(100, 300);
    let a = account(1);
    let first = contract.register(&call(a, 300));
    let second = contract.register(&call(a, 300));
    assert_eq!(first, Ok(Transfer { to: owner(), amount: amount(300) }));
    assert_eq!(second, Ok(Transfer { to: owner(), amount: amount(300) }));
    assert_eq!(contract.vip_participants(), vec![a]);
    assert!(contract.participants().is_empty());
}

#[test]
fn one_account_can_be_in_both_lists() {
    let mut contract = deployed(100, 300);
    let a = account(1);
    contract.register(&call(a, 100)).unwrap();
    contract.register(&call(a, 300)).unwrap();
    assert_eq!(contract.participants(), vec![a]);
    assert_eq!(contract.vip_participants(), vec![a]);
}

#[test]
fn equal_fees_register_as_normal() {
    let mut contract = deployed(100, 100);
    assert_eq!(contract.tier_for(&amount(100)), Some(Tier::Normal));
    contract.register(&call(account(1), 100)).unwrap();
    assert_eq!(contract.participants(), vec![account(1)]);
    assert!(contract.vip_participants().is_empty());
}

#[test]
fn zero_fee_accepts_a_call_without_payment() {
    let mut contract = deployed(0, 0);
    let result = contract.register(&call(account(1), 0));
    assert_eq!(result, Ok(Transfer { to: owner(), amount: amount(0) }));
    assert_eq!(contract.participants(), vec![account(1)]);
}

#[test]
fn tier_for_matches_exactly() {
    let contract = deployed(100, 300);
    assert_eq!(contract.tier_for(&amount(100)), Some(Tier::Normal));
    assert_eq!(contract.tier_for(&amount(300)), Some(Tier::Vip));
    assert_eq!(contract.tier_for(&amount(200)), None);
    assert_eq!(contract.tier_for(&amount(0)), None);
}

#[test]
fn participants_keep_the_order_of_arrival() {
    let mut contract = deployed(1, 2);
    for tag in [7, 3, 9, 3, 1, 7] {
        contract.register(&call(account(tag), 1)).unwrap();
    }
    assert_eq!(
        contract.participants(),
        vec![account(7), account(3), account(9), account(1)]
    );
}

#[test]
fn the_owner_may_register_too() {
    let mut contract = deployed(100, 300);
    let result = contract.register(&call(owner(), 300));
    assert_eq!(result, Ok(Transfer { to: owner(), amount: amount(300) }));
    assert_eq!(contract.vip_participants(), vec![owner()]);
}

#[test]
fn the_transfer_goes_to_the_owner_of_the_call() {
    let mut contract = deployed(100, 300);
    let other_owner = account(0xBB);
    let ctx = CallContext::new(account(1), other_owner, amount(100));
    let result = contract.register(&ctx);
    assert_eq!(result, Ok(Transfer { to: other_owner, amount: amount(100) }));
}

#[test]
fn only_the_owner_updates_the_normal_fee() {
    let mut contract = deployed(100, 300);
    let refused = contract.update_normal_registration_fee(&call(account(1), 0), amount(5));
    assert_eq!(refused, Err(ContractError::Unauthorized));
    assert_eq!(contract.registration_fee(), amount(100));
    assert_eq!(contract.registration_fee_vip(), amount(300));
    let accepted = contract.update_normal_registration_fee(&call(owner(), 0), amount(5));
    assert_eq!(accepted, Ok(()));
    assert_eq!(contract.registration_fee(), amount(5));
    assert_eq!(contract.registration_fee_vip(), amount(300));
}

#[test]
fn only_the_owner_updates_the_vip_fee() {
    let mut contract = deployed(100, 300);
    let refused = contract.update_vip_registration_fee(&call(account(1), 0), amount(5));
    assert_eq!(refused, Err(ContractError::Unauthorized));
    assert_eq!(contract.registration_fee(), amount(100));
    assert_eq!(contract.registration_fee_vip(), amount(300));
    let accepted = contract.update_vip_registration_fee(&call(owner(), 0), amount(5));
    assert_eq!(accepted, Ok(()));
    assert_eq!(contract.registration_fee(), amount(100));
    assert_eq!(contract.registration_fee_vip(), amount(5));
}

#[test]
fn fee_updates_accept_zero_and_inverted_fees() {
    let mut contract = deployed(100, 300);
    contract.update_normal_registration_fee(&call(owner(), 0), amount(0)).unwrap();
    assert_eq!(contract.registration_fee(), amount(0));
    contract.update_normal_registration_fee(&call(owner(), 0), amount(900)).unwrap();
    assert_eq!(contract.registration_fee(), amount(900));
    assert_eq!(contract.registration_fee_vip(), amount(300));
    contract.update_vip_registration_fee(&call(owner(), 0), amount(0)).unwrap();
    assert_eq!(contract.registration_fee_vip(), amount(0));
}

#[test]
fn fee_updates_leave_the_lists_alone() {
    let mut contract = deployed(100, 300);
    contract.register(&call(account(1), 100)).unwrap();
    contract.register(&call(account(2), 300)).unwrap();
    contract.update_normal_registration_fee(&call(owner(), 0), amount(1)).unwrap();
    contract.update_vip_registration_fee(&call(owner(), 0), amount(2)).unwrap();
    assert_eq!(contract.participants(), vec![account(1)]);
    assert_eq!(contract.vip_participants(), vec![account(2)]);
}

#[test]
fn updated_normal_fee_wins_over_an_equal_vip_fee() {
    let mut contract = deployed(100, 300);
    contract.update_normal_registration_fee(&call(owner(), 0), amount(300)).unwrap();
    let result = contract.register(&call(account(1), 300));
    assert_eq!(result, Ok(Transfer { to: owner(), amount: amount(300) }));
    assert_eq!(contract.participants(), vec![account(1)]);
    assert!(contract.vip_participants().is_empty());
}

#[test]
fn updated_fee_replaces_the_old_one() {
    let mut contract = deployed(100, 300);
    contract.update_normal_registration_fee(&call(owner(), 0), amount(150)).unwrap();
    assert_eq!(
        contract.register(&call(account(1), 100)),
        Err(ContractError::InvalidPaymentAmount)
    );
    assert_eq!(
        contract.register(&call(account(1), 150)),
        Ok(Transfer { to: owner(), amount: amount(150) })
    );
    assert_eq!(contract.participants(), vec![account(1)]);
}

#[test]
fn amounts_beyond_sixty_four_bits_are_fees_like_any_other() {
    let big = Amount::from_u128(1_000_000_000_000_000_000_000_000);
    let mut contract = MyNeversea2025::new();
    contract.init(big.clone(), Amount::from_u128(u128::MAX));
    let ctx = CallContext::new(account(1), owner(), big.clone());
    assert_eq!(contract.register(&ctx), Ok(Transfer { to: owner(), amount: big }));
    let vip = CallContext::new(account(2), owner(), Amount::from_u128(u128::MAX));
    assert!(contract.register(&vip).is_ok());
    assert_eq!(contract.participants(), vec![account(1)]);
    assert_eq!(contract.vip_participants(), vec![account(2)]);
}

#[test]
fn restore_brings_the_storage_back() {
    let stored = vec![account(4), account(2), account(4)];
    let mut contract =
        MyNeversea2025::restore(amount(10), amount(20), &stored, &vec![account(9)]);
    assert_eq!(contract.registration_fee(), amount(10));
    assert_eq!(contract.registration_fee_vip(), amount(20));
    assert_eq!(contract.participants(), vec![account(4), account(2)]);
    assert_eq!(contract.vip_participants(), vec![account(9)]);
    contract.register(&call(account(2), 10)).unwrap();
    contract.register(&call(account(5), 10)).unwrap();
    assert_eq!(contract.participants(), vec![account(4), account(2), account(5)]);
}

#[test]
fn upgrade_keeps_the_storage() {
    let mut contract = deployed(100, 300);
    contract.register(&call(account(1), 100)).unwrap();
    contract.upgrade();
    assert_eq!(contract.registration_fee(), amount(100));
    assert_eq!(contract.registration_fee_vip(), amount(300));
    assert_eq!(contract.participants(), vec![account(1)]);
    assert!(contract.vip_participants().is_empty());
}

#[test]
fn error_messages() {
    assert_eq!(
        ContractError::InvalidPaymentAmount.message(),
        "Registration fee is incorrect; please pay either the normal or VIP fee."
    );
    assert_eq!(
        ContractError::TokenNotConfigured.message(),
        "NFT token ID is not set. Please set it first."
    );
    assert_eq!(ContractError::Unauthorized.message(), "Endpoint can only be called by owner");
}

#[test]
fn caller_is_owner_compares_the_two_accounts() {
    assert!(call(owner(), 0).caller_is_owner());
    assert!(!call(account(1), 0).caller_is_owner());
}
