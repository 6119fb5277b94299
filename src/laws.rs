//! Properties that hold across the operations, stated over their contracts.
use crate::address::vault_authority_of;
use crate::error::{MemepodError, PodError};
use crate::fees::{receivable_of, trading_fee_of};
use crate::instructions::{
    admin_failure, authority_view, buy_fee, buy_post, create_post, edited_pod, ACreatePod,
    CreateOutcome, CreatePodInput, close_post, edit_post, withdraw_post, ABuy, AClosePodState,
    AEditPodState, AWithdrawState, BuyOutcome, CloseOutcome, EditPodInput, WithdrawInput,
    WithdrawOutcome,
};
use crate::pod::PodState;
use vstd::prelude::*;

verus! {

/// What every operation on an existing pod does to it: the sold count stays
/// within what was deposited, the identity never changes, and an inactive pod
/// is left exactly as it is.
pub open spec fn pod_transition(pre: PodState, post: PodState) -> bool {
    &&& pre.wf() ==> post.wf()
    &&& !pre.is_active ==> post == pre
    &&& post.owner == pre.owner
    &&& post.base_mint == pre.base_mint
    &&& post.quote_mint == pre.quote_mint
}

/// A purchase, committed or not, is a pod transition.
pub proof fn lemma_buy_is_transition(
    pre: ABuy,
    post: ABuy,
    amount: u64,
    auth: (Seq<u8>, u8),
    r: Result<BuyOutcome, PodError>,
)
    requires
        buy_post(pre, post, amount, auth, r),
    ensures
        pod_transition(pre.pod_state, post.pod_state),
{
}

/// An edit, committed or not, is a pod transition.
pub proof fn lemma_edit_is_transition(
    pre: AEditPodState,
    post: AEditPodState,
    input: EditPodInput,
    authority: Seq<u8>,
    r: Result<u64, PodError>,
)
    requires
        edit_post(pre, post, input, authority, r),
    ensures
        pod_transition(pre.pod_state, post.pod_state),
{
}

/// A withdrawal, committed or not, is a pod transition.
pub proof fn lemma_withdraw_is_transition(
    pre: AWithdrawState,
    post: AWithdrawState,
    input: WithdrawInput,
    auth: (Seq<u8>, u8),
    r: Result<WithdrawOutcome, PodError>,
)
    requires
        withdraw_post(pre, post, input, auth, r),
    ensures
        pod_transition(pre.pod_state, post.pod_state),
{
}

/// Closing, committed or not, is a pod transition.
pub proof fn lemma_close_is_transition(
    pre: AClosePodState,
    post: AClosePodState,
    auth: (Seq<u8>, u8),
    r: Result<CloseOutcome, PodError>,
)
    requires
        close_post(pre, post, auth, r),
    ensures
        pod_transition(pre.pod_state, post.pod_state),
{
}

/// Along any run of pod transitions from a well-formed pod, no more is ever
/// sold than was deposited; and once a pod is inactive it stays inactive,
/// unchanged, whatever follows.
pub proof fn lemma_trace(s: Seq<PodState>)
    requires
        s.len() > 0,
        forall|i: int| 0 <= i < s.len() - 1 ==> #[trigger] pod_transition(s[i], s[i + 1]),
    ensures
        s[0].wf() ==> forall|i: int| 0 <= i < s.len() ==> #[trigger] s[i].wf(),
        forall|i: int, j: int|
            0 <= i <= j < s.len() && !s[i].is_active ==> #[trigger] s[j] == #[trigger] s[i],
    decreases s.len(),
{
    if s.len() > 1 {
        let t = s.drop_last();
        assert forall|i: int| 0 <= i < t.len() - 1 implies #[trigger] pod_transition(t[i], t[i + 1]) by {
            assert(pod_transition(s[i], s[i + 1]));
        }
        lemma_trace(t);
        let n = s.len() - 1;
        let k = n - 1;
        assert(pod_transition(s[k], s[k + 1]));
        assert(k + 1 == n);
        assert forall|i: int| 0 <= i < s.len() && s[0].wf() implies #[trigger] s[i].wf() by {
            if i < n {
                assert(t[i] == s[i]);
            } else {
                assert(t[n - 1].wf());
            }
        }
        assert forall|i: int, j: int|
            0 <= i <= j < s.len() && !s[i].is_active implies #[trigger] s[j] == #[trigger] s[i] by {
            if j < n {
                assert(t[j] == t[i]);
            } else if i < n {
                assert(t[n - 1] == t[i]);
            }
        }
    }
}

/// A purchase splits its fee: half, rounded down, to the fee recipient, and
/// everything else into the quote vault. The two together come to the whole
/// amount, less one unit when the fee is odd.
pub proof fn lemma_buy_fee_split(pre: ABuy, post: ABuy, amount: u64, auth: (Seq<u8>, u8), o: BuyOutcome)
    requires
        buy_post(pre, post, amount, auth, Ok(o)),
    ensures
        buy_fee(pre, amount) == trading_fee_of(pre.main_state.trading_fee as int, amount as int),
        o.fee_to_recipient == buy_fee(pre, amount) / 2,
        o.quote_to_vault == amount - buy_fee(pre, amount) / 2 - buy_fee(pre, amount) % 2,
        o.fee_to_recipient + o.quote_to_vault == amount - buy_fee(pre, amount) % 2,
{
}

/// What a quote amount buys never shrinks as the amount grows.
pub proof fn lemma_receivable_monotone(q1: u64, q2: u64, price: u64)
    requires
        q1 <= q2,
    ensures
        receivable_of(q1 as int, price as int) <= receivable_of(q2 as int, price as int),
{
    let a = q1 as int * price as int;
    let b = q2 as int * price as int;
    assert(a <= b) by (nonlinear_arith)
        requires a == q1 as int * price as int, b == q2 as int * price as int, q1 <= q2, price >= 0;
    assert(a / 1_000_000_000 <= b / 1_000_000_000) by (nonlinear_arith)
        requires a <= b;
}

/// Nothing is bought for nothing, at any price.
pub proof fn lemma_receivable_of_zero(price: u64)
    ensures
        receivable_of(0, price as int) == 0,
{
}

/// A base withdrawal that would not leave at least one unsold unit behind is
/// refused with `InsufficientFund`, once the owner checks have passed.
pub proof fn lemma_withdraw_keeps_a_unit(
    pre: AWithdrawState,
    post: AWithdrawState,
    input: WithdrawInput,
    auth: (Seq<u8>, u8),
    r: Result<WithdrawOutcome, PodError>,
)
    requires
        withdraw_post(pre, post, input, auth, r),
        admin_failure(pre.admin, pre.main_state, pre.pod_state, pre.pod_address, auth.0) is None,
        input.base_amount > 0,
        input.base_amount >= pre.pod_state.base_amount - pre.pod_state.bought_amount,
    ensures
        r == Err::<WithdrawOutcome, PodError>(PodError::Program(MemepodError::InsufficientFund)),
        post == pre,
{
}

/// Closing burns exactly the unsold inventory and leaves the sold count alone.
pub proof fn lemma_close_burns_unsold(
    pre: AClosePodState,
    post: AClosePodState,
    auth: (Seq<u8>, u8),
    o: CloseOutcome,
)
    requires
        close_post(pre, post, auth, Ok(o)),
    ensures
        o.burned == pre.pod_state.base_amount - pre.pod_state.bought_amount,
        post.pod_state.bought_amount == pre.pod_state.bought_amount,
        !post.pod_state.is_active,
{
}

/// Two purchases in a row add both of their outputs to the sold count, each
/// computed at the price in force at the time.
pub proof fn lemma_two_buys(
    c0: ABuy,
    c1: ABuy,
    c2: ABuy,
    a1: u64,
    a2: u64,
    auth: (Seq<u8>, u8),
    o1: BuyOutcome,
    o2: BuyOutcome,
)
    requires
        buy_post(c0, c1, a1, auth, Ok(o1)),
        buy_post(c1, c2, a2, auth, Ok(o2)),
    ensures
        c2.pod_state.bought_amount == c0.pod_state.bought_amount + o1.base_to_buyer + o2.base_to_buyer,
        c1.pod_state.token_price == c0.pod_state.token_price,
        o2.base_to_buyer == receivable_of(
            a2 - trading_fee_of(c0.main_state.trading_fee as int, a2 as int),
            c0.pod_state.token_price as int,
        ),
{
}

/// The vault authority is never stored: what a later operation re-derives
/// from the identity recorded at creation is the very address and bump that
/// creation placed the pod at.
pub proof fn lemma_created_pod_rederives_its_authority(
    pre: ACreatePod,
    post: ACreatePod,
    input: CreatePodInput,
    o: CreateOutcome,
)
    requires
        create_post(
            pre,
            post,
            input,
            vault_authority_of(pre.program_id@, pre.base_mint@, pre.quote_mint@, pre.creator@),
            Ok(o),
        ),
    ensures
        vault_authority_of(
            post.program_id@,
            post.pod_state.base_mint@,
            post.pod_state.quote_mint@,
            post.pod_state.owner@,
        ) == authority_view(o.authority),
        post.pod_state.wf(),
        post.pod_state.is_active,
{
}

/// Creation never touches a record that already exists: in particular it
/// cannot make a closed pod active again, nor reset its counters.
pub proof fn lemma_create_never_reopens(
    pre: ACreatePod,
    post: ACreatePod,
    input: CreatePodInput,
    auth: (Seq<u8>, u8),
    r: Result<CreateOutcome, PodError>,
)
    requires
        create_post(pre, post, input, auth, r),
        pre.pod_exists,
    ensures
        r == Err::<CreateOutcome, PodError>(PodError::PodExists),
        post == pre,
{
}

/// An inactive pod at its own address refuses a purchase with `NotActive`
/// and stays as it is.
pub proof fn lemma_inactive_pod_refuses_buy(
    pre: ABuy,
    post: ABuy,
    amount: u64,
    auth: (Seq<u8>, u8),
    r: Result<BuyOutcome, PodError>,
)
    requires
        buy_post(pre, post, amount, auth, r),
        auth.0 == pre.pod_address@,
        pre.main_state.initialized,
        !pre.pod_state.is_active,
    ensures
        r == Err::<BuyOutcome, PodError>(PodError::Program(MemepodError::NotActive)),
        post == pre,
{
}

/// An inactive pod refuses its owner's withdrawal with `NotActive` and stays
/// as it is.
pub proof fn lemma_inactive_pod_refuses_withdraw(
    pre: AWithdrawState,
    post: AWithdrawState,
    input: WithdrawInput,
    auth: (Seq<u8>, u8),
    r: Result<WithdrawOutcome, PodError>,
)
    requires
        withdraw_post(pre, post, input, auth, r),
        auth.0 == pre.pod_address@,
        pre.main_state.initialized,
        pre.admin@ == pre.pod_state.owner@,
        !pre.pod_state.is_active,
    ensures
        r == Err::<WithdrawOutcome, PodError>(PodError::Program(MemepodError::NotActive)),
        post == pre,
{
}

/// An inactive pod refuses a second close with `NotActive`: nothing is burnt twice.
pub proof fn lemma_inactive_pod_refuses_close(
    pre: AClosePodState,
    post: AClosePodState,
    auth: (Seq<u8>, u8),
    r: Result<CloseOutcome, PodError>,
)
    requires
        close_post(pre, post, auth, r),
        auth.0 == pre.pod_address@,
        pre.main_state.initialized,
        pre.admin@ == pre.pod_state.owner@,
        !pre.pod_state.is_active,
    ensures
        r == Err::<CloseOutcome, PodError>(PodError::Program(MemepodError::NotActive)),
        post == pre,
{
}

/// An inactive pod refuses its owner's edit with `NotActive` (once the owner
/// holds the top-up) and stays as it is.
pub proof fn lemma_inactive_pod_refuses_edit(
    pre: AEditPodState,
    post: AEditPodState,
    input: EditPodInput,
    authority: Seq<u8>,
    r: Result<u64, PodError>,
)
    requires
        edit_post(pre, post, input, authority, r),
        authority == pre.pod_address@,
        pre.admin_base_balance >= input.base_amount,
        pre.main_state.initialized,
        pre.admin@ == pre.pod_state.owner@,
        !pre.pod_state.is_active,
    ensures
        r == Err::<u64, PodError>(PodError::Program(MemepodError::NotActive)),
        post == pre,
{
}

/// An edit that passes its checks adds exactly the top-up to the inventory,
/// sets the new price, and leaves the sold count alone; the top-up is what
/// moves into the base vault.
pub proof fn lemma_edit_tops_up(
    pre: AEditPodState,
    post: AEditPodState,
    input: EditPodInput,
    authority: Seq<u8>,
    r: Result<u64, PodError>,
)
    requires
        edit_post(pre, post, input, authority, r),
        authority == pre.pod_address@,
        pre.admin_base_balance >= input.base_amount,
        pre.main_state.initialized,
        pre.admin@ == pre.pod_state.owner@,
        pre.pod_state.is_active,
        pre.pod_state.base_amount + input.base_amount <= u64::MAX,
    ensures
        r == Ok::<u64, PodError>(input.base_amount),
        post.pod_state == edited_pod(pre.pod_state, input),
        post.pod_state.base_amount == pre.pod_state.base_amount + input.base_amount,
        post.pod_state.token_price == input.token_price,
        post.pod_state.bought_amount == pre.pod_state.bought_amount,
{
}

} // verus!
