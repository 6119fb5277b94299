use crate::address::Address;
use crate::error::MemepodError;
use vstd::prelude::*;

verus! {

/// The global configuration: fee rates, the fee recipient and the creation fee.
/// Pod operations read it and never change it.
#[derive(Clone, Copy, Debug)]
pub struct MainState {
    pub initialized: bool,
    pub owner: Address,
    pub fee_recipient: Address,
    /// Quote units charged for each pod created.
    pub creation_fee: u64,
    /// Parts per million of each purchase.
    pub trading_fee: u16,
    /// Stored, not read by any operation.
    pub creator_fee: u16,
    /// Stored, not read by any operation.
    pub owner_fee: u16,
}

/// The trading fee that a fresh registry starts with.
pub const DEFAULT_TRADING_FEE: u16 = 1_000;

/// The creator and owner fees that a fresh registry starts with.
pub const DEFAULT_SHARE_FEE: u16 = 1_000;

/// The creation fee that a fresh registry starts with.
pub const DEFAULT_CREATION_FEE: u64 = 100_000_000;

/// The replacement values of an update.
#[derive(Clone, Copy, Debug)]
pub struct UpdateMainStateInput {
    pub owner: Address,
    pub fee_recipient: Address,
    pub creation_fee: u64,
    pub trading_fee: u16,
    pub creator_fee: u16,
    pub owner_fee: u16,
}

/// What initialisation reads: the signer and the registry record.
#[derive(Clone, Copy, Debug)]
pub struct AInitMainState {
    pub owner: Address,
    pub main_state: MainState,
}

/// What an update reads: the signer and the registry record.
#[derive(Clone, Copy, Debug)]
pub struct AUpdateMainState {
    pub owner: Address,
    pub main_state: MainState,
}

/// The registry that initialisation by `owner` produces.
pub open spec fn initial_main_state(owner: Address) -> MainState {
    MainState {
        initialized: true,
        owner,
        fee_recipient: owner,
        creation_fee: DEFAULT_CREATION_FEE,
        trading_fee: DEFAULT_TRADING_FEE,
        creator_fee: DEFAULT_SHARE_FEE,
        owner_fee: DEFAULT_SHARE_FEE,
    }
}

/// Initialises the registry once: the signer becomes its owner and fee
/// recipient, with the default rates.
pub fn init_main_state(ctx: &mut AInitMainState) -> (r: Result<(), MemepodError>)
    ensures
        r is Err <==> old(ctx).main_state.initialized,
        r is Err ==> r == Err::<(), MemepodError>(MemepodError::AlreadyInitialized)
            && *final(ctx) == *old(ctx),
        r is Ok ==> final(ctx).main_state == initial_main_state(old(ctx).owner)
            && final(ctx).owner == old(ctx).owner,
{
    if ctx.main_state.initialized {
        return Err(MemepodError::AlreadyInitialized);
    }
    ctx.main_state.initialized = true;
    ctx.main_state.owner = ctx.owner;
    ctx.main_state.fee_recipient = ctx.owner;
    ctx.main_state.trading_fee = DEFAULT_TRADING_FEE;
    ctx.main_state.creator_fee = DEFAULT_SHARE_FEE;
    ctx.main_state.owner_fee = DEFAULT_SHARE_FEE;
    ctx.main_state.creation_fee = DEFAULT_CREATION_FEE;
    Ok(())
}

/// The registry after an update with `input`: every field replaced, still initialised.
pub open spec fn updated_main_state(input: UpdateMainStateInput) -> MainState {
    MainState {
        initialized: true,
        owner: input.owner,
        fee_recipient: input.fee_recipient,
        creation_fee: input.creation_fee,
        trading_fee: input.trading_fee,
        creator_fee: input.creator_fee,
        owner_fee: input.owner_fee,
    }
}

/// Replaces every field of the registry at once. Only its owner may do so,
/// and only once it is initialised.
pub fn update_main_state(ctx: &mut AUpdateMainState, input: UpdateMainStateInput) -> (r: Result<
    (),
    MemepodError,
>)
    ensures
        r is Err <==> (old(ctx).owner@ != old(ctx).main_state.owner@ || !old(ctx).main_state.initialized),
        old(ctx).owner@ != old(ctx).main_state.owner@ ==> r == Err::<(), MemepodError>(
            MemepodError::Unauthorised,
        ),
        old(ctx).owner@ == old(ctx).main_state.owner@ && !old(ctx).main_state.initialized ==> r
            == Err::<(), MemepodError>(MemepodError::Uninitialized),
        r is Err ==> *final(ctx) == *old(ctx),
        r is Ok ==> final(ctx).main_state == updated_main_state(input) && final(ctx).owner
            == old(ctx).owner,
{
    if !ctx.owner.same(&ctx.main_state.owner) {
        return Err(MemepodError::Unauthorised);
    }
    if !ctx.main_state.initialized {
        return Err(MemepodError::Uninitialized);
    }
    ctx.main_state.owner = input.owner;
    ctx.main_state.fee_recipient = input.fee_recipient;
    ctx.main_state.trading_fee = input.trading_fee;
    ctx.main_state.creator_fee = input.creator_fee;
    ctx.main_state.owner_fee = input.owner_fee;
    ctx.main_state.creation_fee = input.creation_fee;
    Ok(())
}

} // verus!
