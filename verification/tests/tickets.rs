use my_neversea_2025::{
    AccountId, Amount, CallContext, ContractError, MintRequest, MyNeversea2025, Project, Tier,
    TicketOrder, Transfer,
};

fn account(tag: u8) -> AccountId {
    AccountId::new([tag; 32])
}

fn owner() -> AccountId {
    account(0xAA)
}

fn amount(value: u64) -> Amount {
    Amount::from_u64(value)
}

fn call(caller: AccountId, payment: u64) -> CallContext {
    CallContext::new(caller, owner(), amount(payment))
}

fn deployed() -> Project {
    let mut contract = Project::new();
    contract.init();
    contract
}

#[test]
fn blank_project_has_nothing_configured() {
    let contract = Project::new();
    assert_eq!(contract.nft_token_id(), "");
    assert_eq!(contract.registration_fee(), amount(0));
    assert_eq!(contract.registration_fee_vip(), amount(0));
    assert_eq!(contract.normal_ticket_number(), amount(0));
    assert_eq!(contract.vip_ticket_number(), amount(0));
    assert_eq!(contract.resale_ticket_fee(), amount(0));
    assert_eq!(contract.resale_normal_ticket_number(), amount(0));
    assert_eq!(contract.resale_vip_ticket_number(), amount(0));
    assert!(contract.participants().is_empty());
    assert!(contract.vip_participants().is_empty());
}

#[test]
fn project_init_sets_its_constants() {
    let contract = deployed();
    assert_eq!(contract.nft_token_id(), "EVENT-TICKET");
    assert_eq!(contract.registration_fee(), amount(100));
    assert_eq!(contract.registration_fee_vip(), amount(300));
    assert_eq!(contract.normal_ticket_number(), amount(20));
    assert_eq!(contract.vip_ticket_number(), amount(10));
    assert_eq!(contract.resale_ticket_fee(), amount(10));
    assert_eq!(contract.resale_normal_ticket_number(), amount(0));
    assert_eq!(contract.resale_vip_ticket_number(), amount(0));
    assert!(contract.participants().is_empty());
    assert!(contract.vip_participants().is_empty());
}

#[test]
fn ticket_prices_are_the_fees() {
    let contract = deployed();
    assert_eq!(contract.see_normal_ticket_price(), amount(100));
    assert_eq!(contract.see_vip_ticket_price(), amount(300));
    assert_eq!(contract.see_vip_ticket_number(), amount(300));
}

#[test]
fn normal_registration_orders_a_normal_ticket() {
    let mut contract = deployed();
    let order = contract.register(&call(account(1), 100)).unwrap();
    assert_eq!(
        order,
        TicketOrder {
            transfer: Transfer { to: owner(), amount: amount(100) },
            mint: MintRequest {
                token_id: "EVENT-TICKET".to_string(),
                quantity: 1,
                recipient: account(1),
                tier: Tier::Normal,
            },
        }
    );
    assert_eq!(order.mint.tier.label(), "Normal Ticket");
    assert_eq!(contract.participants(), vec![account(1)]);
    assert!(contract.vip_participants().is_empty());
}

#[test]
fn vip_registration_orders_a_vip_ticket() {
    let mut contract = deployed();
    let order = contract.register(&call(account(2), 300)).unwrap();
    assert_eq!(
        order,
        TicketOrder {
            transfer: Transfer { to: owner(), amount: amount(300) },
            mint: MintRequest {
                token_id: "EVENT-TICKET".to_string(),
                quantity: 1,
                recipient: account(2),
                tier: Tier::Vip,
            },
        }
    );
    assert_eq!(order.mint.tier.label(), "VIP Ticket");
    assert!(contract.participants().is_empty());
    assert_eq!(contract.vip_participants(), vec![account(2)]);
}

#[test]
fn ticketed_registration_refuses_other_payments() {
    let mut contract = deployed();
    for payment in [0, 50, 99, 101, 200, 301] {
        assert_eq!(
            contract.register(&call(account(3), payment)),
            Err(ContractError::InvalidPaymentAmount)
        );
    }
    assert!(contract.participants().is_empty());
    assert!(contract.vip_participants().is_empty());
}

#[test]
fn registration_without_a_ticket_token_is_refused() {
    let mut contract = Project::new();
    let result = contract.register(&call(account(1), 0));
    assert_eq!(result, Err(ContractError::TokenNotConfigured));
    assert!(contract.participants().is_empty());
    assert!(contract.vip_participants().is_empty());
}

#[test]
fn the_payment_is_judged_before_the_ticket_token() {
    let mut contract = Project::new();
    let result = contract.register(&call(account(1), 5));
    assert_eq!(result, Err(ContractError::InvalidPaymentAmount));
}

#[test]
fn restored_project_without_token_keeps_its_lists_on_refusal() {
    let registration =
        MyNeversea2025::restore(amount(100), amount(300), &vec![account(1)], &Vec::new());
    let mut contract = Project::restore(
        registration,
        String::new(),
        amount(20),
        amount(10),
        amount(10),
        amount(0),
        amount(0),
    );
    assert_eq!(
        contract.register(&call(account(2), 300)),
        Err(ContractError::TokenNotConfigured)
    );
    assert_eq!(contract.participants(), vec![account(1)]);
    assert!(contract.vip_participants().is_empty());
    assert_eq!(contract.normal_ticket_number(), amount(20));
}

#[test]
fn restored_project_mints_its_own_token() {
    let registration = MyNeversea2025::restore(amount(1), amount(2), &Vec::new(), &Vec::new());
    let mut contract = Project::restore(
        registration,
        "GALA-123456".to_string(),
        amount(3),
        amount(4),
        amount(5),
        amount(6),
        amount(7),
    );
    assert_eq!(contract.nft_token_id(), "GALA-123456");
    assert_eq!(contract.normal_ticket_number(), amount(3));
    assert_eq!(contract.vip_ticket_number(), amount(4));
    assert_eq!(contract.resale_ticket_fee(), amount(5));
    assert_eq!(contract.resale_normal_ticket_number(), amount(6));
    assert_eq!(contract.resale_vip_ticket_number(), amount(7));
    let order = contract.register(&call(account(1), 2)).unwrap();
    assert_eq!(order.mint.token_id, "GALA-123456");
    assert_eq!(order.mint.tier, Tier::Vip);
    assert_eq!(order.mint.recipient, account(1));
    assert_eq!(order.mint.quantity, 1);
}

#[test]
fn the_ticket_numbers_do_not_move_with_registrations() {
    let mut contract = deployed();
    contract.register(&call(account(1), 100)).unwrap();
    contract.register(&call(account(2), 300)).unwrap();
    assert_eq!(contract.normal_ticket_number(), amount(20));
    assert_eq!(contract.vip_ticket_number(), amount(10));
    assert_eq!(contract.resale_normal_ticket_number(), amount(0));
    assert_eq!(contract.resale_vip_ticket_number(), amount(0));
}

#[test]
fn a_repeated_ticketed_registration_pays_and_mints_again() {
    let mut contract = deployed();
    let first = contract.register(&call(account(1), 100)).unwrap();
    let second = contract.register(&call(account(1), 100)).unwrap();
    assert_eq!(first, second);
    assert_eq!(contract.participants(), vec![account(1)]);
}

#[test]
fn the_sequence_number_is_handed_on() {
    let mut contract = deployed();
    let order = contract.register(&call(account(1), 100)).unwrap();
    assert_eq!(order.clone().complete(1), 1);
    assert_eq!(order.clone().complete(42), 42);
    assert_eq!(order.complete(u64::MAX), u64::MAX);
}

#[test]
fn project_init_keeps_the_participants() {
    let mut contract = deployed();
    contract.register(&call(account(1), 100)).unwrap();
    contract.init();
    assert_eq!(contract.participants(), vec![account(1)]);
    assert_eq!(contract.registration_fee(), amount(100));
}

#[test]
fn project_upgrade_keeps_the_storage() {
    let mut contract = deployed();
    contract.register(&call(account(1), 300)).unwrap();
    contract.upgrade();
    assert_eq!(contract.nft_token_id(), "EVENT-TICKET");
    assert_eq!(contract.registration_fee(), amount(100));
    assert_eq!(contract.registration_fee_vip(), amount(300));
    assert_eq!(contract.vip_participants(), vec![account(1)]);
    assert_eq!(contract.normal_ticket_number(), amount(20));
}

#[test]
fn tier_labels() {
    assert_eq!(Tier::Normal.label(), "Normal Ticket");
    assert_eq!(Tier::Vip.label(), "VIP Ticket");
}
