use anchor_lang::prelude::Pubkey;
use memepod::address::{derive_vault_authority, Address, VaultAuthority};
use memepod::error::{MemepodError, PodError};
use memepod::fees::{receivable_base_amount, trading_fee_amount};
use memepod::instructions::{
    buy, buy_authorized, close_pod, close_pod_authorized, create_pod, create_pod_at, edit_pod,
    edit_pod_authorized, withdraw, withdraw_authorized, ABuy, AClosePodState, ACreatePod,
    AEditPodState, AWithdrawState, CreatePodInput, EditPodInput, WithdrawInput,
};
use memepod::main_state::{
    init_main_state, update_main_state, AInitMainState, AUpdateMainState, MainState,
    UpdateMainStateInput,
};
use memepod::pod::{str_to_fixed_bytes, PodState};

fn addr(b: u8) -> Address {
    Address::new([b; 32])
}

fn registry(trading_fee: u16) -> MainState {
    MainState {
        initialized: true,
        owner: addr(1),
        fee_recipient: addr(2),
        creation_fee: 100_000_000,
        trading_fee,
        creator_fee: 1_000,
        owner_fee: 1_000,
    }
}

fn blank_pod() -> PodState {
    PodState {
        pod_name: [0; 32],
        token_name: [0; 32],
        token_symbol: [0; 10],
        decimal: 0,
        base_mint: addr(0),
        quote_mint: addr(0),
        owner: addr(0),
        base_amount: 0,
        bought_amount: 0,
        token_price: 0,
        expire_time: 0,
        is_active: false,
    }
}

fn pod(base_amount: u64, bought_amount: u64, token_price: u64) -> PodState {
    PodState {
        base_mint: addr(7),
        quote_mint: Address::native_mint(),
        owner: addr(5),
        base_amount,
        bought_amount,
        token_price,
        is_active: true,
        ..blank_pod()
    }
}

fn auth(a: Address) -> VaultAuthority {
    VaultAuthority { address: a, bump: 254 }
}

fn buy_ctx(p: PodState, trading_fee: u16) -> ABuy {
    ABuy {
        buyer: addr(9),
        main_state: registry(trading_fee),
        pod_state: p,
        pod_address: addr(42),
        program_id: addr(3),
        timestamp: 1_700_000_000,
    }
}

fn create_input(base_amount: u64, token_price: u64) -> CreatePodInput {
    CreatePodInput {
        pod_name: b"my pod".to_vec(),
        base_amount,
        token_price,
        token_name: b"Meme".to_vec(),
        token_symbol: b"MEME".to_vec(),
        token_decimal: 9,
        expire_time: 99,
    }
}

fn create_ctx() -> ACreatePod {
    ACreatePod {
        creator: addr(5),
        pod_exists: false,
        main_state: registry(1_000),
        pod_state: blank_pod(),
        base_mint: addr(7),
        quote_mint: Address::native_mint(),
        creator_base_balance: u64::MAX,
        creator_quote_balance: u64::MAX,
        program_id: addr(3),
        timestamp: 10,
    }
}

fn pda(program_id: &Address, base: &Address, quote: &Address, owner: &Address) -> (Address, u8) {
    let (k, b) = Pubkey::find_program_address(
        &[b"memepod", &base.bytes, &quote.bytes, &owner.bytes],
        &Pubkey::new_from_array(program_id.bytes),
    );
    (Address::new(k.to_bytes()), b)
}

#[test]
fn fee_is_parts_per_million_rounded_down() {
    assert_eq!(trading_fee_amount(1_000, 1_000_000), 1_000);
    assert_eq!(trading_fee_amount(1_000, 999), 0);
    assert_eq!(trading_fee_amount(1_000, 1_999_999), 1_999);
    assert_eq!(trading_fee_amount(65_535, u64::MAX), 1_208_907_372_870_555_465);
    assert_eq!(trading_fee_amount(0, 12345), 0);
}

#[test]
fn receivable_uses_nine_fractional_digits() {
    assert_eq!(receivable_base_amount(999_000, 1_000_000_000), 999_000);
    assert_eq!(receivable_base_amount(999_000, 2_000_000_000), 1_998_000);
    assert_eq!(receivable_base_amount(3, 500_000_000), 1);
    assert_eq!(receivable_base_amount(0, u64::MAX), 0);
    assert_eq!(
        receivable_base_amount(u64::MAX, u64::MAX),
        (u64::MAX as u128) * (u64::MAX as u128) / 1_000_000_000
    );
}

#[test]
fn receivable_is_monotone_in_quote() {
    let mut last = 0u128;
    for q in [0u64, 1, 2, 999, 1_000, 1_000_000, 1_000_000_007] {
        let r = receivable_base_amount(q, 333_333_333);
        assert!(r >= last);
        last = r;
    }
}

#[test]
fn fixed_bytes_pad_and_cut() {
    let b: [u8; 10] = str_to_fixed_bytes(&b"MEME".to_vec());
    assert_eq!(b, [b'M', b'E', b'M', b'E', 0, 0, 0, 0, 0, 0]);
    let b: [u8; 4] = str_to_fixed_bytes(&b"TOOLONG".to_vec());
    assert_eq!(b, *b"TOOL");
}

#[test]
fn native_mint_matches_token_program() {
    assert_eq!(Address::native_mint().bytes, anchor_spl::token::spl_token::native_mint::ID.to_bytes());
}

#[test]
fn init_then_update_registry() {
    let mut ctx = AInitMainState {
        owner: addr(1),
        main_state: MainState { initialized: false, ..registry(0) },
    };
    assert_eq!(init_main_state(&mut ctx), Ok(()));
    assert!(ctx.main_state.initialized);
    assert_eq!(ctx.main_state.fee_recipient.bytes, addr(1).bytes);
    assert_eq!(ctx.main_state.trading_fee, 1_000);
    assert_eq!(ctx.main_state.creation_fee, 100_000_000);
    assert_eq!(init_main_state(&mut ctx), Err(MemepodError::AlreadyInitialized));

    let input = UpdateMainStateInput {
        owner: addr(8),
        fee_recipient: addr(9),
        creation_fee: 5,
        trading_fee: 2_000,
        creator_fee: 3,
        owner_fee: 4,
    };
    let mut up = AUpdateMainState { owner: addr(2), main_state: ctx.main_state };
    assert_eq!(update_main_state(&mut up, input), Err(MemepodError::Unauthorised));
    up.owner = addr(1);
    assert_eq!(update_main_state(&mut up, input), Ok(()));
    assert_eq!(up.main_state.owner.bytes, addr(8).bytes);
    assert_eq!(up.main_state.trading_fee, 2_000);
    assert_eq!(up.main_state.creation_fee, 5);

    let mut fresh = AUpdateMainState {
        owner: addr(1),
        main_state: MainState { initialized: false, ..registry(0) },
    };
    assert_eq!(update_main_state(&mut fresh, input), Err(MemepodError::Uninitialized));
}

#[test]
fn create_then_buy_one_to_one() {
    let mut ctx = create_ctx();
    let out = create_pod_at(&mut ctx, &create_input(1_000_000_000, 1_000_000_000), auth(addr(42))).unwrap();
    assert_eq!(out.base_to_vault, 1_000_000_000);
    assert_eq!(out.fee_to_recipient, 100_000_000);
    assert_eq!(ctx.pod_state.bought_amount, 0);
    assert!(ctx.pod_state.is_active);
    assert_eq!(&ctx.pod_state.pod_name[..6], b"my pod");

    let mut b = buy_ctx(ctx.pod_state, 1_000);
    let o = buy_authorized(&mut b, 1_000_000, auth(addr(42))).unwrap();
    assert_eq!(o.fee_to_recipient, 500);
    assert_eq!(o.quote_to_vault, 999_500);
    assert_eq!(o.base_to_buyer, 999_000);
    assert_eq!(o.event.base_amount, 999_000);
    assert_eq!(o.event.quote_amount, 1_000_000);
    assert_eq!(b.pod_state.bought_amount, 999_000);
}

#[test]
fn buy_with_odd_fee_keeps_one_unit_of_dust() {
    let mut b = buy_ctx(pod(10_000_000_000, 0, 1_000_000_000), 1_000);
    let o = buy_authorized(&mut b, 3_000_000, auth(addr(42))).unwrap();
    assert_eq!(o.fee_to_recipient, 1_500);
    assert_eq!(o.quote_to_vault, 2_998_500);
    let mut b = buy_ctx(pod(10_000_000_000, 0, 1_000_000_000), 1_000);
    let o = buy_authorized(&mut b, 1_001_000, auth(addr(42))).unwrap();
    assert_eq!(o.fee_to_recipient, 500);
    assert_eq!(o.quote_to_vault, 1_000_499);
    assert_eq!(o.fee_to_recipient + o.quote_to_vault, 1_001_000 - 1);
}

#[test]
fn edit_adds_inventory_and_reprices() {
    let mut e = AEditPodState {
        admin: addr(5),
        main_state: registry(1_000),
        pod_state: pod(1_000_000_000, 999_000, 1_000_000_000),
        pod_address: addr(42),
        admin_base_balance: 500,
        program_id: addr(3),
    };
    assert_eq!(edit_pod_authorized(&mut e, EditPodInput { token_price: 2_000_000_000, base_amount: 500 }, auth(addr(42))), Ok(500));
    assert_eq!(e.pod_state.base_amount, 1_000_000_500);
    assert_eq!(e.pod_state.token_price, 2_000_000_000);

    let mut b = buy_ctx(e.pod_state, 1_000);
    let o = buy_authorized(&mut b, 1_000_000, auth(addr(42))).unwrap();
    assert_eq!(o.base_to_buyer, 1_998_000);
    assert_eq!(b.pod_state.bought_amount, 999_000 + 1_998_000);
}

#[test]
fn two_buys_add_their_outputs() {
    let mut b = buy_ctx(pod(1_000_000_000, 0, 1_000_000_000), 1_000);
    let o1 = buy_authorized(&mut b, 1_000_000, auth(addr(42))).unwrap();
    let o2 = buy_authorized(&mut b, 2_500_000, auth(addr(42))).unwrap();
    assert_eq!(o1.base_to_buyer, 999_000);
    assert_eq!(o2.base_to_buyer, 2_497_500);
    assert_eq!(b.pod_state.bought_amount, o1.base_to_buyer + o2.base_to_buyer);
}

#[test]
fn buy_errors() {
    let mut b = buy_ctx(pod(1_000, 0, 1_000_000_000), 0);
    let before = b.pod_state.bought_amount;
    assert_eq!(buy_authorized(&mut b, 10, auth(addr(41))).unwrap_err(), PodError::Program(MemepodError::Unauthorised));
    b.main_state.initialized = false;
    assert_eq!(buy_authorized(&mut b, 10, auth(addr(42))).unwrap_err(), PodError::Program(MemepodError::Uninitialized));
    b.main_state.initialized = true;
    assert_eq!(buy_authorized(&mut b, 1_001, auth(addr(42))).unwrap_err(), PodError::VaultShortfall);
    assert_eq!(buy_authorized(&mut b, 1_000, auth(addr(42))).unwrap().base_to_buyer, 1_000);
    assert_eq!(b.pod_state.bought_amount, 1_000);
    b.pod_state.is_active = false;
    assert_eq!(buy_authorized(&mut b, 0, auth(addr(42))).unwrap_err(), PodError::Program(MemepodError::NotActive));
    assert_eq!(before, 0);
}

#[test]
fn buy_of_zero_buys_nothing() {
    let mut b = buy_ctx(pod(1_000, 0, 1_000_000_000), 1_000);
    let o = buy_authorized(&mut b, 0, auth(addr(42))).unwrap();
    assert_eq!(o.base_to_buyer, 0);
    assert_eq!(o.fee_to_recipient, 0);
    assert_eq!(b.pod_state.bought_amount, 0);
}

#[test]
fn create_errors_in_order() {
    let a = auth(addr(42));
    let mut c = create_ctx();
    c.main_state.initialized = false;
    assert_eq!(create_pod_at(&mut c, &create_input(1, 1), a).unwrap_err(), PodError::Program(MemepodError::Uninitialized));
    let mut c = create_ctx();
    let mut i = create_input(1, 1);
    i.pod_name = vec![b'x'; 33];
    assert_eq!(create_pod_at(&mut c, &i, a).unwrap_err(), PodError::Program(MemepodError::PodNameTooLong));
    let mut i = create_input(1, 1);
    i.pod_name = vec![b'x'; 32];
    i.token_name = vec![b'x'; 33];
    assert_eq!(create_pod_at(&mut c, &i, a).unwrap_err(), PodError::Program(MemepodError::TokenNameTooLong));
    let mut i = create_input(1, 1);
    i.token_symbol = vec![b'x'; 11];
    assert_eq!(create_pod_at(&mut c, &i, a).unwrap_err(), PodError::Program(MemepodError::TokenSymbolTooLong));
    let mut i = create_input(1, 1);
    i.token_symbol = vec![b'x'; 10];
    assert!(create_pod_at(&mut c, &i, a).is_ok());
    let mut c = create_ctx();
    c.quote_mint = addr(8);
    assert_eq!(create_pod_at(&mut c, &create_input(1, 1), a).unwrap_err(), PodError::Program(MemepodError::UnknownToken));
    let mut c = create_ctx();
    c.creator_base_balance = 5;
    assert_eq!(create_pod_at(&mut c, &create_input(6, 1), a).unwrap_err(), PodError::Program(MemepodError::InsufficientFund));
    let mut c = create_ctx();
    c.creator_quote_balance = 99_999_999;
    assert_eq!(create_pod_at(&mut c, &create_input(6, 1), a).unwrap_err(), PodError::Program(MemepodError::InsufficientFund));
}

fn withdraw_ctx(p: PodState) -> AWithdrawState {
    AWithdrawState { admin: addr(5), main_state: registry(1_000), pod_state: p, pod_address: addr(42), program_id: addr(3) }
}

#[test]
fn withdraw_leaves_one_unsold_unit() {
    let a = auth(addr(42));
    let mut w = withdraw_ctx(pod(1_000, 400, 1));
    assert_eq!(withdraw_authorized(&mut w, WithdrawInput { base_amount: 600, quote_amount: 0 }, a).unwrap_err(), PodError::Program(MemepodError::InsufficientFund));
    assert_eq!(withdraw_authorized(&mut w, WithdrawInput { base_amount: 601, quote_amount: 7 }, a).unwrap_err(), PodError::Program(MemepodError::InsufficientFund));
    assert_eq!(w.pod_state.base_amount, 1_000);
    let o = withdraw_authorized(&mut w, WithdrawInput { base_amount: 599, quote_amount: 7 }, a).unwrap();
    assert_eq!(o.base_to_admin, 599);
    assert_eq!(o.quote_to_admin, 7);
    assert_eq!(w.pod_state.base_amount, 401);
    assert_eq!(w.pod_state.bought_amount, 400);
}

#[test]
fn withdraw_quote_only_from_sold_out_pod() {
    let mut w = withdraw_ctx(pod(1_000, 1_000, 1));
    let o = withdraw_authorized(&mut w, WithdrawInput { base_amount: 0, quote_amount: 55 }, auth(addr(42))).unwrap();
    assert_eq!(o.quote_to_admin, 55);
    assert_eq!(o.base_to_admin, 0);
    assert_eq!(w.pod_state.base_amount, 1_000);
}

#[test]
fn owner_checks() {
    let a = auth(addr(42));
    let mut w = withdraw_ctx(pod(1_000, 0, 1));
    w.admin = addr(6);
    assert_eq!(withdraw_authorized(&mut w, WithdrawInput { base_amount: 1, quote_amount: 0 }, a).unwrap_err(), PodError::Program(MemepodError::Unauthorised));
    let mut w = withdraw_ctx(pod(1_000, 0, 1));
    assert_eq!(withdraw_authorized(&mut w, WithdrawInput { base_amount: 1, quote_amount: 0 }, auth(addr(43))).unwrap_err(), PodError::Program(MemepodError::Unauthorised));
    w.main_state.initialized = false;
    assert_eq!(withdraw_authorized(&mut w, WithdrawInput { base_amount: 1, quote_amount: 0 }, a).unwrap_err(), PodError::Program(MemepodError::Uninitialized));
    w.main_state.initialized = true;
    w.pod_state.is_active = false;
    assert_eq!(withdraw_authorized(&mut w, WithdrawInput { base_amount: 1, quote_amount: 0 }, a).unwrap_err(), PodError::Program(MemepodError::NotActive));
}

#[test]
fn edit_errors() {
    let a = auth(addr(42));
    let mut e = AEditPodState {
        admin: addr(5),
        main_state: registry(1_000),
        pod_state: pod(u64::MAX - 10, 0, 1),
        pod_address: addr(42),
        admin_base_balance: 100,
        program_id: addr(3),
    };
    assert_eq!(edit_pod_authorized(&mut e, EditPodInput { token_price: 9, base_amount: 101 }, a).unwrap_err(), PodError::Program(MemepodError::InsufficientFund));
    assert_eq!(edit_pod_authorized(&mut e, EditPodInput { token_price: 9, base_amount: 11 }, a).unwrap_err(), PodError::Overflow);
    assert_eq!(e.pod_state.token_price, 1);
    assert_eq!(edit_pod_authorized(&mut e, EditPodInput { token_price: 9, base_amount: 0 }, a), Ok(0));
    assert_eq!(e.pod_state.token_price, 9);
    assert_eq!(e.pod_state.base_amount, u64::MAX - 10);
    e.admin = addr(6);
    assert_eq!(edit_pod_authorized(&mut e, EditPodInput { token_price: 9, base_amount: 0 }, a).unwrap_err(), PodError::Program(MemepodError::Unauthorised));
}

#[test]
fn close_burns_unsold_and_is_final() {
    let a = auth(addr(42));
    let mut c = AClosePodState { admin: addr(5), main_state: registry(1_000), pod_state: pod(1_000, 250, 1), pod_address: addr(42), program_id: addr(3) };
    let o = close_pod_authorized(&mut c, a).unwrap();
    assert_eq!(o.burned, 750);
    assert_eq!(c.pod_state.bought_amount, 250);
    assert!(!c.pod_state.is_active);
    assert_eq!(close_pod_authorized(&mut c, a).unwrap_err(), PodError::Program(MemepodError::NotActive));
    let mut b = buy_ctx(c.pod_state, 1_000);
    assert_eq!(buy_authorized(&mut b, 1, a).unwrap_err(), PodError::Program(MemepodError::NotActive));
    assert!(!b.pod_state.is_active);
}

#[test]
fn compute_receivable_counts_the_sale() {
    let mut p = pod(1_000, 10, 2_000_000_000);
    assert_eq!(p.compute_receivable_amount_on_buy(100), Ok(200));
    assert_eq!(p.bought_amount, 210);
    let mut p = pod(1_000, u64::MAX - 1, 2_000_000_000);
    assert_eq!(p.compute_receivable_amount_on_buy(1), Err(PodError::Overflow));
    assert_eq!(p.bought_amount, u64::MAX - 1);
}

#[test]
fn derived_authority_is_the_program_address() {
    let (pid, base, quote, owner) = (addr(3), addr(7), Address::native_mint(), addr(5));
    let a = derive_vault_authority(&pid, &base, &quote, &owner);
    let (expected, bump) = pda(&pid, &base, &quote, &owner);
    assert_eq!(a.address.bytes, expected.bytes);
    assert_eq!(a.bump, bump);
    assert_ne!(a.address.bytes, owner.bytes);
}

#[test]
fn lifecycle_through_derived_addresses() {
    let mut c = create_ctx();
    let out = create_pod(&mut c, &create_input(1_000_000_000, 1_000_000_000)).unwrap();
    let (pod_address, bump) = pda(&c.program_id, &c.base_mint, &c.quote_mint, &c.creator);
    assert_eq!(out.authority.address.bytes, pod_address.bytes);
    assert_eq!(out.authority.bump, bump);

    let mut b = ABuy { pod_address, ..buy_ctx(c.pod_state, 1_000) };
    let o = buy(&mut b, 1_000_000).unwrap();
    assert_eq!(o.base_to_buyer, 999_000);
    assert_eq!(o.authority.bump, bump);
    let mut wrong = ABuy { pod_address: c.creator, ..b };
    assert_eq!(buy(&mut wrong, 1_000_000).unwrap_err(), PodError::Program(MemepodError::Unauthorised));

    let mut e = AEditPodState { admin: addr(5), main_state: registry(1_000), pod_state: b.pod_state, pod_address, admin_base_balance: 500, program_id: addr(3) };
    assert_eq!(edit_pod(&mut e, EditPodInput { token_price: 2_000_000_000, base_amount: 500 }), Ok(500));
    let mut stranger = AEditPodState { admin: addr(6), ..e };
    assert_eq!(edit_pod(&mut stranger, EditPodInput { token_price: 1, base_amount: 0 }).unwrap_err(), PodError::Program(MemepodError::Unauthorised));

    let mut w = AWithdrawState { pod_state: e.pod_state, pod_address, ..withdraw_ctx(e.pod_state) };
    let o = withdraw(&mut w, WithdrawInput { base_amount: 1_000, quote_amount: 10 }).unwrap();
    assert_eq!(o.base_to_admin, 1_000);
    assert_eq!(w.pod_state.base_amount, 1_000_000_500 - 1_000);

    let mut cl = AClosePodState { admin: addr(5), main_state: registry(1_000), pod_state: w.pod_state, pod_address, program_id: addr(3) };
    let o = close_pod(&mut cl).unwrap();
    assert_eq!(o.burned, 1_000_000_500 - 1_000 - 999_000);
    assert!(!cl.pod_state.is_active);
}

#[test]
fn create_checks_accounts_before_registry_and_names() {
    let a = auth(addr(42));
    let mut c = create_ctx();
    c.main_state.initialized = false;
    c.quote_mint = addr(8);
    let mut i = create_input(1, 1);
    i.pod_name = vec![b'x'; 40];
    assert_eq!(create_pod_at(&mut c, &i, a).unwrap_err(), PodError::Program(MemepodError::UnknownToken));
    let mut c = create_ctx();
    c.main_state.initialized = false;
    c.creator_base_balance = 0;
    assert_eq!(create_pod_at(&mut c, &i, a).unwrap_err(), PodError::Program(MemepodError::InsufficientFund));
    let mut c = create_ctx();
    c.main_state.initialized = false;
    assert_eq!(create_pod_at(&mut c, &i, a).unwrap_err(), PodError::Program(MemepodError::Uninitialized));
}

#[test]
fn create_refuses_an_existing_pod() {
    let mut c = create_ctx();
    c.pod_exists = true;
    c.pod_state = PodState { is_active: false, ..pod(1_000, 400, 1) };
    c.quote_mint = addr(8);
    assert_eq!(create_pod_at(&mut c, &create_input(1, 1), auth(addr(42))).unwrap_err(), PodError::PodExists);
    assert!(!c.pod_state.is_active);
    assert_eq!(c.pod_state.bought_amount, 400);
    let mut c = create_ctx();
    c.pod_exists = true;
    assert_eq!(create_pod(&mut c, &create_input(1, 1)).unwrap_err(), PodError::PodExists);
}

#[test]
fn edit_checks_holding_before_owner_checks() {
    let a = auth(addr(42));
    let mut e = AEditPodState {
        admin: addr(5),
        main_state: MainState { initialized: false, ..registry(1_000) },
        pod_state: PodState { is_active: false, ..pod(1_000, 0, 1) },
        pod_address: addr(42),
        admin_base_balance: 10,
        program_id: addr(3),
    };
    assert_eq!(edit_pod_authorized(&mut e, EditPodInput { token_price: 9, base_amount: 11 }, a).unwrap_err(), PodError::Program(MemepodError::InsufficientFund));
    assert_eq!(edit_pod_authorized(&mut e, EditPodInput { token_price: 9, base_amount: 11 }, auth(addr(1))).unwrap_err(), PodError::Program(MemepodError::Unauthorised));
    assert_eq!(edit_pod_authorized(&mut e, EditPodInput { token_price: 9, base_amount: 10 }, a).unwrap_err(), PodError::Program(MemepodError::Uninitialized));
    e.main_state.initialized = true;
    assert_eq!(edit_pod_authorized(&mut e, EditPodInput { token_price: 9, base_amount: 10 }, a).unwrap_err(), PodError::Program(MemepodError::NotActive));
    assert_eq!(e.pod_state.token_price, 1);
    assert_eq!(e.pod_state.base_amount, 1_000);
}

#[test]
fn error_messages() {
    assert_eq!(MemepodError::Uninitialized.message(), "Uninitialized");
    assert_eq!(MemepodError::AlreadyInitialized.message(), "AlreadyInitialized");
    assert_eq!(MemepodError::Unauthorised.message(), "Unauthorised");
    assert_eq!(MemepodError::NotActive.message(), "Not Actived");
    assert_eq!(MemepodError::PodNameTooLong.message(), "Pod name too long");
    assert_eq!(MemepodError::TokenNameTooLong.message(), "Token name too long");
    assert_eq!(MemepodError::TokenSymbolTooLong.message(), "Token symbol too long");
    assert_eq!(MemepodError::UnknownToken.message(), "One token should be Sol");
    assert_eq!(MemepodError::InsufficientFund.message(), "Insufficient fund");
}
