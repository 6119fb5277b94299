use crate::address::Address;
use crate::error::PodError;
use crate::fees::{receivable_base_amount, receivable_of};
use vstd::prelude::*;

verus! {

/// One fixed-price sale.
#[derive(Clone, Copy, Debug)]
pub struct PodState {
    pub pod_name: [u8; 32],
    pub token_name: [u8; 32],
    pub token_symbol: [u8; 10],
    pub decimal: u8,
    pub base_mint: Address,
    pub quote_mint: Address,
    pub owner: Address,
    /// Base units ever deposited, net of withdrawals.
    pub base_amount: u64,
    /// Base units sold so far.
    pub bought_amount: u64,
    /// Quote units per 1_000_000_000 base units.
    pub token_price: u64,
    /// Advisory; no operation enforces it.
    pub expire_time: u64,
    pub is_active: bool,
}

impl PodState {
    /// No more has been sold than was deposited.
    pub open spec fn wf(&self) -> bool {
        self.bought_amount <= self.base_amount
    }

    /// Base units deposited and not sold: what the base vault holds for the pod.
    pub open spec fn unsold(&self) -> int {
        self.base_amount - self.bought_amount
    }

    /// The pod after `amount` more base units have been sold.
    pub open spec fn with_bought(self, amount: int) -> PodState {
        PodState { bought_amount: (self.bought_amount + amount) as u64, ..self }
    }

    /// Computes what `quote_amount` buys at the pod's price and counts it as
    /// sold in the same step. Fails with `Overflow`, changing nothing, where the
    /// sold counter would leave the `u64` range.
    pub fn compute_receivable_amount_on_buy(&mut self, quote_amount: u64) -> (r: Result<
        u64,
        PodError,
    >)
        ensures
            r is Err <==> old(self).bought_amount + receivable_of(
                quote_amount as int,
                old(self).token_price as int,
            ) > u64::MAX,
            r is Err ==> r == Err::<u64, PodError>(PodError::Overflow) && *final(self) == *old(self),
            r matches Ok(out) ==> out == receivable_of(quote_amount as int, old(self).token_price as int)
                && *final(self) == old(self).with_bought(out as int),
    {
        let out = receivable_base_amount(quote_amount, self.token_price);
        if out > (u64::MAX - self.bought_amount) as u128 {
            return Err(PodError::Overflow);
        }
        let out = out as u64;
        self.bought_amount = self.bought_amount + out;
        Ok(out)
    }
}

/// `s` cut or right-padded with zero bytes to `n` bytes.
pub open spec fn fixed_bytes_of(s: Seq<u8>, n: nat) -> Seq<u8> {
    Seq::new(n, |i: int| if i < s.len() { s[i] } else { 0u8 })
}

/// Copies `s` into a buffer of `N` bytes, cut or right-padded with zero bytes.
pub fn str_to_fixed_bytes<const N: usize>(s: &Vec<u8>) -> (buf: [u8; N])
    ensures
        buf@ == fixed_bytes_of(s@, N as nat),
{
    let mut buf = [0u8; N];
    let len = if s.len() < N {
        s.len()
    } else {
        N
    };
    let mut i: usize = 0;
    while i < len
        invariant
            0 <= i <= len,
            len <= N,
            len <= s@.len(),
            len == s@.len() || len == N,
            buf@.len() == N,
            forall|j: int| 0 <= j < i ==> buf@[j] == s@[j],
            forall|j: int| i <= j < N ==> buf@[j] == 0u8,
        decreases len - i,
    {
        buf[i] = s[i];
        i = i + 1;
    }
    assert(buf@ =~= fixed_bytes_of(s@, N as nat));
    buf
}

/// Published when a pod is created.
#[derive(Clone, Copy, Debug)]
pub struct CreateEvent {
    pub creator: Address,
    pub base_mint: Address,
    pub base_amount: u64,
    pub token_price: u64,
    pub expire_time: u64,
    pub timestamp: i64,
}

/// Published on each purchase.
#[derive(Clone, Copy, Debug)]
pub struct BuyEvent {
    pub user: Address,
    pub base_mint: Address,
    pub quote_amount: u64,
    pub base_amount: u64,
    pub timestamp: i64,
}

/// The shape of a completion notice. No operation publishes one.
#[derive(Clone, Copy, Debug)]
pub struct CompleteEvent {
    pub user: Address,
    pub base_mint: Address,
    pub timestamp: i64,
}

} // verus!
