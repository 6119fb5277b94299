use crate::address::{derive_vault_authority, native_mint, vault_authority_of, Address, VaultAuthority};
use crate::error::{MemepodError, PodError};
use crate::fees::{receivable_base_amount, receivable_of, trading_fee_amount, trading_fee_of};
use crate::main_state::MainState;
use crate::pod::{fixed_bytes_of, str_to_fixed_bytes, BuyEvent, CreateEvent, PodState};
use vstd::prelude::*;

verus! {

/// The longest pod name, in bytes.
pub const MAX_POD_NAME_LEN: usize = 32;

/// The longest token name, in bytes.
pub const MAX_TOKEN_NAME_LEN: usize = 32;

/// The longest token symbol, in bytes.
pub const MAX_TOKEN_SYMBOL_LEN: usize = 10;

/// A vault authority as plain values: the address and the bump.
pub open spec fn authority_view(a: VaultAuthority) -> (Seq<u8>, u8) {
    (a.address@, a.bump)
}

// ---------------------------------------------------------------- create

/// What a creator asks for.
#[derive(Debug)]
pub struct CreatePodInput {
    pub pod_name: Vec<u8>,
    pub base_amount: u64,
    pub token_price: u64,
    pub token_name: Vec<u8>,
    pub token_symbol: Vec<u8>,
    pub token_decimal: u8,
    pub expire_time: u64,
}

/// What creation reads: the signer, whether the pod's record already exists,
/// the registry, the record to fill, the two assets, the creator's holdings of
/// each and the clock.
#[derive(Clone, Copy, Debug)]
pub struct ACreatePod {
    pub creator: Address,
    /// Whether a record already stands at the pod's address.
    pub pod_exists: bool,
    pub main_state: MainState,
    pub pod_state: PodState,
    pub base_mint: Address,
    pub quote_mint: Address,
    pub creator_base_balance: u64,
    pub creator_quote_balance: u64,
    pub program_id: Address,
    pub timestamp: i64,
}

/// The transfers that a creation commits to.
#[derive(Clone, Copy, Debug)]
pub struct CreateOutcome {
    /// The pod's address, which is also its vault authority.
    pub authority: VaultAuthority,
    /// Base units from the creator into the base vault.
    pub base_to_vault: u64,
    /// Quote units from the creator to the fee recipient.
    pub fee_to_recipient: u64,
    pub fee_recipient: Address,
    pub event: CreateEvent,
}

/// The first failed precondition of a creation, if any: a record already at
/// the pod's address, then the quote asset and the creator's holdings, then
/// the registry and the lengths of the names.
pub open spec fn create_failure(pre: ACreatePod, input: CreatePodInput) -> Option<PodError> {
    if pre.pod_exists {
        Some(PodError::PodExists)
    } else if pre.quote_mint@ != native_mint() {
        Some(PodError::Program(MemepodError::UnknownToken))
    } else if pre.creator_base_balance < input.base_amount || pre.creator_quote_balance
        < pre.main_state.creation_fee {
        Some(PodError::Program(MemepodError::InsufficientFund))
    } else if !pre.main_state.initialized {
        Some(PodError::Program(MemepodError::Uninitialized))
    } else if input.pod_name@.len() > MAX_POD_NAME_LEN {
        Some(PodError::Program(MemepodError::PodNameTooLong))
    } else if input.token_name@.len() > MAX_TOKEN_NAME_LEN {
        Some(PodError::Program(MemepodError::TokenNameTooLong))
    } else if input.token_symbol@.len() > MAX_TOKEN_SYMBOL_LEN {
        Some(PodError::Program(MemepodError::TokenSymbolTooLong))
    } else {
        None
    }
}

/// The record that a successful creation writes.
pub open spec fn created_pod(pre: ACreatePod, input: CreatePodInput, pod: PodState) -> bool {
    &&& pod.pod_name@ == fixed_bytes_of(input.pod_name@, 32)
    &&& pod.token_name@ == fixed_bytes_of(input.token_name@, 32)
    &&& pod.token_symbol@ == fixed_bytes_of(input.token_symbol@, 10)
    &&& pod.decimal == input.token_decimal
    &&& pod.base_mint == pre.base_mint
    &&& pod.quote_mint == pre.quote_mint
    &&& pod.owner == pre.creator
    &&& pod.base_amount == input.base_amount
    &&& pod.bought_amount == 0
    &&& pod.token_price == input.token_price
    &&& pod.expire_time == input.expire_time
    &&& pod.is_active
}

/// How a creation relates what it read, what it wrote and what it returned.
pub open spec fn create_post(
    pre: ACreatePod,
    post: ACreatePod,
    input: CreatePodInput,
    auth: (Seq<u8>, u8),
    r: Result<CreateOutcome, PodError>,
) -> bool {
    match r {
        Err(e) => create_failure(pre, input) == Some(e) && post == pre,
        Ok(o) => {
            &&& create_failure(pre, input) is None
            &&& authority_view(o.authority) == auth
            &&& o.base_to_vault == input.base_amount
            &&& o.fee_to_recipient == pre.main_state.creation_fee
            &&& o.fee_recipient == pre.main_state.fee_recipient
            &&& o.event == (CreateEvent {
                creator: pre.creator,
                base_mint: pre.base_mint,
                base_amount: input.base_amount,
                token_price: input.token_price,
                expire_time: input.expire_time,
                timestamp: pre.timestamp,
            })
            &&& created_pod(pre, input, post.pod_state)
            &&& post == (ACreatePod { pod_state: post.pod_state, ..pre })
        },
    }
}

/// Creates a pod whose address and vault authority are `authority`.
pub fn create_pod_at(ctx: &mut ACreatePod, input: &CreatePodInput, authority: VaultAuthority) -> (r:
    Result<CreateOutcome, PodError>)
    ensures
        create_post(*old(ctx), *final(ctx), *input, authority_view(authority), r),
{
    if ctx.pod_exists {
        return Err(PodError::PodExists);
    }
    if !ctx.quote_mint.same(&Address::native_mint()) {
        return Err(PodError::Program(MemepodError::UnknownToken));
    }
    if ctx.creator_base_balance < input.base_amount || ctx.creator_quote_balance
        < ctx.main_state.creation_fee {
        return Err(PodError::Program(MemepodError::InsufficientFund));
    }
    if !ctx.main_state.initialized {
        return Err(PodError::Program(MemepodError::Uninitialized));
    }
    if input.pod_name.len() > MAX_POD_NAME_LEN {
        return Err(PodError::Program(MemepodError::PodNameTooLong));
    }
    if input.token_name.len() > MAX_TOKEN_NAME_LEN {
        return Err(PodError::Program(MemepodError::TokenNameTooLong));
    }
    if input.token_symbol.len() > MAX_TOKEN_SYMBOL_LEN {
        return Err(PodError::Program(MemepodError::TokenSymbolTooLong));
    }
    ctx.pod_state = PodState {
        pod_name: str_to_fixed_bytes(&input.pod_name),
        token_name: str_to_fixed_bytes(&input.token_name),
        token_symbol: str_to_fixed_bytes(&input.token_symbol),
        decimal: input.token_decimal,
        base_mint: ctx.base_mint,
        quote_mint: ctx.quote_mint,
        owner: ctx.creator,
        base_amount: input.base_amount,
        bought_amount: 0,
        token_price: input.token_price,
        expire_time: input.expire_time,
        is_active: true,
    };
    Ok(CreateOutcome {
        authority,
        base_to_vault: input.base_amount,
        fee_to_recipient: ctx.main_state.creation_fee,
        fee_recipient: ctx.main_state.fee_recipient,
        event: CreateEvent {
            creator: ctx.creator,
            base_mint: ctx.base_mint,
            base_amount: input.base_amount,
            token_price: input.token_price,
            expire_time: input.expire_time,
            timestamp: ctx.timestamp,
        },
    })
}

/// Creates a pod at the address that the program derives from
/// (base asset, quote asset, creator).
pub fn create_pod(ctx: &mut ACreatePod, input: &CreatePodInput) -> (r: Result<CreateOutcome, PodError>)
    ensures
        create_post(
            *old(ctx),
            *final(ctx),
            *input,
            vault_authority_of(old(ctx).program_id@, old(ctx).base_mint@, old(ctx).quote_mint@, old(ctx).creator@),
            r,
        ),
{
    let authority = derive_vault_authority(&ctx.program_id, &ctx.base_mint, &ctx.quote_mint, &ctx.creator);
    create_pod_at(ctx, input, authority)
}

// ---------------------------------------------------------------- buy

/// What a purchase reads: the buyer, the registry, the pod, the address the
/// pod was given at, the program and the clock.
#[derive(Clone, Copy, Debug)]
pub struct ABuy {
    pub buyer: Address,
    pub main_state: MainState,
    pub pod_state: PodState,
    pub pod_address: Address,
    pub program_id: Address,
    pub timestamp: i64,
}

/// The transfers that a purchase commits to.
#[derive(Clone, Copy, Debug)]
pub struct BuyOutcome {
    /// Quote units from the buyer to the fee recipient: half the fee.
    pub fee_to_recipient: u64,
    /// Quote units from the buyer into the quote vault: the amount net of the
    /// fee, plus the other half of the fee.
    pub quote_to_vault: u64,
    /// Base units from the base vault to the buyer.
    pub base_to_buyer: u64,
    /// Signs for the transfer out of the base vault.
    pub authority: VaultAuthority,
    pub event: BuyEvent,
}

/// The trading fee on a purchase of `amount` quote units.
pub open spec fn buy_fee(pre: ABuy, amount: u64) -> int {
    trading_fee_of(pre.main_state.trading_fee as int, amount as int)
}

/// The base units that a purchase of `amount` quote units receives.
pub open spec fn buy_output(pre: ABuy, amount: u64) -> int {
    receivable_of(amount - buy_fee(pre, amount), pre.pod_state.token_price as int)
}

/// The first failed precondition of a purchase, if any.
pub open spec fn buy_failure(pre: ABuy, amount: u64, authority: Seq<u8>) -> Option<PodError> {
    if authority != pre.pod_address@ {
        Some(PodError::Program(MemepodError::Unauthorised))
    } else if !pre.main_state.initialized {
        Some(PodError::Program(MemepodError::Uninitialized))
    } else if !pre.pod_state.is_active {
        Some(PodError::Program(MemepodError::NotActive))
    } else if buy_output(pre, amount) > pre.pod_state.unsold() {
        Some(PodError::VaultShortfall)
    } else {
        None
    }
}

/// How a purchase relates what it read, what it wrote and what it returned.
pub open spec fn buy_post(
    pre: ABuy,
    post: ABuy,
    amount: u64,
    auth: (Seq<u8>, u8),
    r: Result<BuyOutcome, PodError>,
) -> bool {
    match r {
        Err(e) => buy_failure(pre, amount, auth.0) == Some(e) && post == pre,
        Ok(o) => {
            &&& buy_failure(pre, amount, auth.0) is None
            &&& o.fee_to_recipient == buy_fee(pre, amount) / 2
            &&& o.quote_to_vault == amount - buy_fee(pre, amount) + buy_fee(pre, amount) / 2
            &&& o.base_to_buyer == buy_output(pre, amount)
            &&& authority_view(o.authority) == auth
            &&& o.event == (BuyEvent {
                user: pre.buyer,
                base_mint: pre.pod_state.base_mint,
                quote_amount: amount,
                base_amount: o.base_to_buyer,
                timestamp: pre.timestamp,
            })
            &&& post == (ABuy { pod_state: pre.pod_state.with_bought(buy_output(pre, amount)), ..pre })
        },
    }
}

/// Sells base units for `amount` quote units, with `authority` as the
/// derivation presented for the pod.
pub fn buy_authorized(ctx: &mut ABuy, amount: u64, authority: VaultAuthority) -> (r: Result<
    BuyOutcome,
    PodError,
>)
    requires
        old(ctx).pod_state.wf(),
    ensures
        buy_post(*old(ctx), *final(ctx), amount, authority_view(authority), r),
        final(ctx).pod_state.wf(),
{
    if !authority.address.same(&ctx.pod_address) {
        return Err(PodError::Program(MemepodError::Unauthorised));
    }
    if !ctx.main_state.initialized {
        return Err(PodError::Program(MemepodError::Uninitialized));
    }
    if !ctx.pod_state.is_active {
        return Err(PodError::Program(MemepodError::NotActive));
    }
    let fee = trading_fee_amount(ctx.main_state.trading_fee, amount);
    let input_amount = amount - fee;
    let unsold = ctx.pod_state.base_amount - ctx.pod_state.bought_amount;
    if receivable_base_amount(input_amount, ctx.pod_state.token_price) > unsold as u128 {
        return Err(PodError::VaultShortfall);
    }
    let output_amount = match ctx.pod_state.compute_receivable_amount_on_buy(input_amount) {
        Ok(out) => out,
        Err(e) => {
            return Err(e);
        },
    };
    Ok(BuyOutcome {
        fee_to_recipient: fee / 2,
        quote_to_vault: input_amount + fee / 2,
        base_to_buyer: output_amount,
        authority,
        event: BuyEvent {
            user: ctx.buyer,
            base_mint: ctx.pod_state.base_mint,
            quote_amount: amount,
            base_amount: output_amount,
            timestamp: ctx.timestamp,
        },
    })
}

/// Sells base units for `amount` quote units, deriving the pod's vault
/// authority from its identity.
pub fn buy(ctx: &mut ABuy, amount: u64) -> (r: Result<BuyOutcome, PodError>)
    requires
        old(ctx).pod_state.wf(),
    ensures
        buy_post(
            *old(ctx),
            *final(ctx),
            amount,
            vault_authority_of(
                old(ctx).program_id@,
                old(ctx).pod_state.base_mint@,
                old(ctx).pod_state.quote_mint@,
                old(ctx).pod_state.owner@,
            ),
            r,
        ),
        final(ctx).pod_state.wf(),
{
    let authority = derive_vault_authority(
        &ctx.program_id,
        &ctx.pod_state.base_mint,
        &ctx.pod_state.quote_mint,
        &ctx.pod_state.owner,
    );
    buy_authorized(ctx, amount, authority)
}

// ---------------------------------------------------------------- owner checks

/// The first failed precondition common to the owner's operations: the pod's
/// address must be the one derived with the signer as owner, the registry
/// initialised, the signer the owner, and the pod active.
pub open spec fn admin_failure(
    admin: Address,
    main_state: MainState,
    pod_state: PodState,
    pod_address: Address,
    authority: Seq<u8>,
) -> Option<PodError> {
    if authority != pod_address@ {
        Some(PodError::Program(MemepodError::Unauthorised))
    } else if !main_state.initialized {
        Some(PodError::Program(MemepodError::Uninitialized))
    } else if admin@ != pod_state.owner@ {
        Some(PodError::Program(MemepodError::Unauthorised))
    } else if !pod_state.is_active {
        Some(PodError::Program(MemepodError::NotActive))
    } else {
        None
    }
}

fn check_admin(
    admin: &Address,
    main_state: &MainState,
    pod_state: &PodState,
    pod_address: &Address,
    authority: &VaultAuthority,
) -> (r: Result<(), PodError>)
    ensures
        r is Ok <==> admin_failure(*admin, *main_state, *pod_state, *pod_address, authority.address@) is None,
        r matches Err(e) ==> admin_failure(*admin, *main_state, *pod_state, *pod_address, authority.address@)
            == Some(e),
{
    if !authority.address.same(pod_address) {
        return Err(PodError::Program(MemepodError::Unauthorised));
    }
    if !main_state.initialized {
        return Err(PodError::Program(MemepodError::Uninitialized));
    }
    if !admin.same(&pod_state.owner) {
        return Err(PodError::Program(MemepodError::Unauthorised));
    }
    if !pod_state.is_active {
        return Err(PodError::Program(MemepodError::NotActive));
    }
    Ok(())
}

// ---------------------------------------------------------------- edit

/// A top-up of `base_amount` base units and a new price.
#[derive(Clone, Copy, Debug)]
pub struct EditPodInput {
    pub token_price: u64,
    pub base_amount: u64,
}

/// What an edit reads: the signer, the registry, the pod, its address, the
/// signer's base holding and the program.
#[derive(Clone, Copy, Debug)]
pub struct AEditPodState {
    pub admin: Address,
    pub main_state: MainState,
    pub pod_state: PodState,
    pub pod_address: Address,
    pub admin_base_balance: u64,
    pub program_id: Address,
}

/// The first failed precondition of an edit, if any: the pod's address, then
/// the owner's base holding, then the owner checks.
pub open spec fn edit_failure(pre: AEditPodState, input: EditPodInput, authority: Seq<u8>) -> Option<
    PodError,
> {
    if authority != pre.pod_address@ {
        Some(PodError::Program(MemepodError::Unauthorised))
    } else if pre.admin_base_balance < input.base_amount {
        Some(PodError::Program(MemepodError::InsufficientFund))
    } else if admin_failure(pre.admin, pre.main_state, pre.pod_state, pre.pod_address, authority) is Some {
        admin_failure(pre.admin, pre.main_state, pre.pod_state, pre.pod_address, authority)
    } else if pre.pod_state.base_amount + input.base_amount > u64::MAX {
        Some(PodError::Overflow)
    } else {
        None
    }
}

/// The pod after an edit with `input`.
pub open spec fn edited_pod(pod: PodState, input: EditPodInput) -> PodState {
    PodState {
        token_price: input.token_price,
        base_amount: (pod.base_amount + input.base_amount) as u64,
        ..pod
    }
}

/// How an edit relates what it read, what it wrote and what it returned: on
/// success, the base units that go from the owner into the base vault.
pub open spec fn edit_post(
    pre: AEditPodState,
    post: AEditPodState,
    input: EditPodInput,
    authority: Seq<u8>,
    r: Result<u64, PodError>,
) -> bool {
    match r {
        Err(e) => edit_failure(pre, input, authority) == Some(e) && post == pre,
        Ok(deposit) => {
            &&& edit_failure(pre, input, authority) is None
            &&& deposit == input.base_amount
            &&& post == (AEditPodState { pod_state: edited_pod(pre.pod_state, input), ..pre })
        },
    }
}

/// Tops up and reprices a pod, with `authority` as the derivation presented for it.
pub fn edit_pod_authorized(ctx: &mut AEditPodState, input: EditPodInput, authority: VaultAuthority) -> (r:
    Result<u64, PodError>)
    requires
        old(ctx).pod_state.wf(),
    ensures
        edit_post(*old(ctx), *final(ctx), input, authority.address@, r),
        final(ctx).pod_state.wf(),
{
    if !authority.address.same(&ctx.pod_address) {
        return Err(PodError::Program(MemepodError::Unauthorised));
    }
    if ctx.admin_base_balance < input.base_amount {
        return Err(PodError::Program(MemepodError::InsufficientFund));
    }
    match check_admin(&ctx.admin, &ctx.main_state, &ctx.pod_state, &ctx.pod_address, &authority) {
        Ok(()) => {},
        Err(e) => {
            return Err(e);
        },
    }
    if ctx.pod_state.base_amount > u64::MAX - input.base_amount {
        return Err(PodError::Overflow);
    }
    ctx.pod_state.token_price = input.token_price;
    ctx.pod_state.base_amount = ctx.pod_state.base_amount + input.base_amount;
    Ok(input.base_amount)
}

/// Tops up and reprices a pod, deriving its address with the signer as owner.
pub fn edit_pod(ctx: &mut AEditPodState, input: EditPodInput) -> (r: Result<u64, PodError>)
    requires
        old(ctx).pod_state.wf(),
    ensures
        edit_post(
            *old(ctx),
            *final(ctx),
            input,
            vault_authority_of(
                old(ctx).program_id@,
                old(ctx).pod_state.base_mint@,
                old(ctx).pod_state.quote_mint@,
                old(ctx).admin@,
            ).0,
            r,
        ),
        final(ctx).pod_state.wf(),
{
    let authority = derive_vault_authority(
        &ctx.program_id,
        &ctx.pod_state.base_mint,
        &ctx.pod_state.quote_mint,
        &ctx.admin,
    );
    edit_pod_authorized(ctx, input, authority)
}

// ---------------------------------------------------------------- withdraw

/// Amounts the owner takes out of the two vaults; zero means none.
#[derive(Clone, Copy, Debug)]
pub struct WithdrawInput {
    pub base_amount: u64,
    pub quote_amount: u64,
}

/// What a withdrawal reads: the signer, the registry, the pod, its address and the program.
#[derive(Clone, Copy, Debug)]
pub struct AWithdrawState {
    pub admin: Address,
    pub main_state: MainState,
    pub pod_state: PodState,
    pub pod_address: Address,
    pub program_id: Address,
}

/// The transfers that a withdrawal commits to.
#[derive(Clone, Copy, Debug)]
pub struct WithdrawOutcome {
    /// Base units from the base vault to the owner.
    pub base_to_admin: u64,
    /// Quote units from the quote vault to the owner.
    pub quote_to_admin: u64,
    /// Signs for the transfers out of the vaults.
    pub authority: VaultAuthority,
}

/// The first failed precondition of a withdrawal, if any. A base withdrawal
/// must leave at least one unsold unit behind.
pub open spec fn withdraw_failure(pre: AWithdrawState, input: WithdrawInput, authority: Seq<u8>) -> Option<
    PodError,
> {
    if admin_failure(pre.admin, pre.main_state, pre.pod_state, pre.pod_address, authority) is Some {
        admin_failure(pre.admin, pre.main_state, pre.pod_state, pre.pod_address, authority)
    } else if input.base_amount > 0 && pre.pod_state.unsold() <= input.base_amount {
        Some(PodError::Program(MemepodError::InsufficientFund))
    } else {
        None
    }
}

/// How a withdrawal relates what it read, what it wrote and what it returned.
pub open spec fn withdraw_post(
    pre: AWithdrawState,
    post: AWithdrawState,
    input: WithdrawInput,
    auth: (Seq<u8>, u8),
    r: Result<WithdrawOutcome, PodError>,
) -> bool {
    match r {
        Err(e) => withdraw_failure(pre, input, auth.0) == Some(e) && post == pre,
        Ok(o) => {
            &&& withdraw_failure(pre, input, auth.0) is None
            &&& o.base_to_admin == input.base_amount
            &&& o.quote_to_admin == input.quote_amount
            &&& authority_view(o.authority) == auth
            &&& post == (AWithdrawState {
                pod_state: PodState {
                    base_amount: (pre.pod_state.base_amount - input.base_amount) as u64,
                    ..pre.pod_state
                },
                ..pre
            })
        },
    }
}

/// Moves unsold base units and collected quote units to the owner, with
/// `authority` as the derivation presented for the pod.
pub fn withdraw_authorized(ctx: &mut AWithdrawState, input: WithdrawInput, authority: VaultAuthority) -> (r:
    Result<WithdrawOutcome, PodError>)
    requires
        old(ctx).pod_state.wf(),
    ensures
        withdraw_post(*old(ctx), *final(ctx), input, authority_view(authority), r),
        final(ctx).pod_state.wf(),
{
    match check_admin(&ctx.admin, &ctx.main_state, &ctx.pod_state, &ctx.pod_address, &authority) {
        Ok(()) => {},
        Err(e) => {
            return Err(e);
        },
    }
    if input.base_amount > 0 {
        if ctx.pod_state.base_amount - ctx.pod_state.bought_amount <= input.base_amount {
            return Err(PodError::Program(MemepodError::InsufficientFund));
        }
        ctx.pod_state.base_amount = ctx.pod_state.base_amount - input.base_amount;
    }
    Ok(WithdrawOutcome {
        base_to_admin: input.base_amount,
        quote_to_admin: input.quote_amount,
        authority,
    })
}

/// Moves unsold base units and collected quote units to the owner, deriving
/// the pod's address with the signer as owner.
pub fn withdraw(ctx: &mut AWithdrawState, input: WithdrawInput) -> (r: Result<WithdrawOutcome, PodError>)
    requires
        old(ctx).pod_state.wf(),
    ensures
        withdraw_post(
            *old(ctx),
            *final(ctx),
            input,
            vault_authority_of(
                old(ctx).program_id@,
                old(ctx).pod_state.base_mint@,
                old(ctx).pod_state.quote_mint@,
                old(ctx).admin@,
            ),
            r,
        ),
        final(ctx).pod_state.wf(),
{
    let authority = derive_vault_authority(
        &ctx.program_id,
        &ctx.pod_state.base_mint,
        &ctx.pod_state.quote_mint,
        &ctx.admin,
    );
    withdraw_authorized(ctx, input, authority)
}

// ---------------------------------------------------------------- close

/// What closing reads: the signer, the registry, the pod, its address and the program.
#[derive(Clone, Copy, Debug)]
pub struct AClosePodState {
    pub admin: Address,
    pub main_state: MainState,
    pub pod_state: PodState,
    pub pod_address: Address,
    pub program_id: Address,
}

/// The burn that closing commits to.
#[derive(Clone, Copy, Debug)]
pub struct CloseOutcome {
    /// Base units destroyed in the base vault: the unsold inventory.
    pub burned: u64,
    /// Signs for the burn.
    pub authority: VaultAuthority,
}

/// How closing relates what it read, what it wrote and what it returned.
pub open spec fn close_post(
    pre: AClosePodState,
    post: AClosePodState,
    auth: (Seq<u8>, u8),
    r: Result<CloseOutcome, PodError>,
) -> bool {
    let failure = admin_failure(pre.admin, pre.main_state, pre.pod_state, pre.pod_address, auth.0);
    match r {
        Err(e) => failure == Some(e) && post == pre,
        Ok(o) => {
            &&& failure is None
            &&& o.burned == pre.pod_state.unsold()
            &&& authority_view(o.authority) == auth
            &&& post == (AClosePodState {
                pod_state: PodState { is_active: false, ..pre.pod_state },
                ..pre
            })
        },
    }
}

/// Deactivates a pod for good and burns its unsold inventory, with
/// `authority` as the derivation presented for it.
pub fn close_pod_authorized(ctx: &mut AClosePodState, authority: VaultAuthority) -> (r: Result<
    CloseOutcome,
    PodError,
>)
    requires
        old(ctx).pod_state.wf(),
    ensures
        close_post(*old(ctx), *final(ctx), authority_view(authority), r),
        final(ctx).pod_state.wf(),
{
    match check_admin(&ctx.admin, &ctx.main_state, &ctx.pod_state, &ctx.pod_address, &authority) {
        Ok(()) => {},
        Err(e) => {
            return Err(e);
        },
    }
    ctx.pod_state.is_active = false;
    let burned = ctx.pod_state.base_amount - ctx.pod_state.bought_amount;
    Ok(CloseOutcome { burned, authority })
}

/// Deactivates a pod for good and burns its unsold inventory, deriving the
/// pod's address with the signer as owner.
pub fn close_pod(ctx: &mut AClosePodState) -> (r: Result<CloseOutcome, PodError>)
    requires
        old(ctx).pod_state.wf(),
    ensures
        close_post(
            *old(ctx),
            *final(ctx),
            vault_authority_of(
                old(ctx).program_id@,
                old(ctx).pod_state.base_mint@,
                old(ctx).pod_state.quote_mint@,
                old(ctx).admin@,
            ),
            r,
        ),
        final(ctx).pod_state.wf(),
{
    let authority = derive_vault_authority(
        &ctx.program_id,
        &ctx.pod_state.base_mint,
        &ctx.pod_state.quote_mint,
        &ctx.admin,
    );
    close_pod_authorized(ctx, authority)
}

} // verus!
