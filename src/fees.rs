use vstd::prelude::*;

verus! {

/// Fee rates are parts per million: this many stand for 100%.
pub const FEE_DENOMINATOR: u64 = 1_000_000;

/// Prices are quote units per this many base units (nine fractional digits).
pub const PRICE_SCALE: u64 = 1_000_000_000;

/// `floor(amount * rate / 1_000_000)`.
pub open spec fn trading_fee_of(rate: int, amount: int) -> int {
    amount * rate / (FEE_DENOMINATOR as int)
}

/// `floor(quote * price / 1_000_000_000)`.
pub open spec fn receivable_of(quote: int, price: int) -> int {
    quote * price / (PRICE_SCALE as int)
}

proof fn lemma_fee_bounds(rate: u16, amount: u64)
    ensures
        0 <= amount as int * rate as int <= u64::MAX as int * 65535,
        0 <= trading_fee_of(rate as int, amount as int) <= amount,
{
    let p = amount as int * rate as int;
    assert(0 <= p <= u64::MAX as int * 65535) by (nonlinear_arith)
        requires p == amount as int * rate as int, rate <= 65535, amount <= u64::MAX;
    assert(p <= amount as int * 1_000_000) by (nonlinear_arith)
        requires p == amount as int * rate as int, rate <= 65535, amount >= 0;
    assert(p / 1_000_000 <= amount as int) by (nonlinear_arith)
        requires p <= amount as int * 1_000_000, p >= 0;
}

/// The trading fee on `amount` at `rate_bps` parts per million, rounded down.
/// The product is formed in 128 bits, so every `u64` amount is accepted.
pub fn trading_fee_amount(rate_bps: u16, amount: u64) -> (fee: u64)
    ensures
        fee == trading_fee_of(rate_bps as int, amount as int),
        fee <= amount,
{
    proof {
        lemma_fee_bounds(rate_bps, amount);
    }
    let wide: u128 = (amount as u128) * (rate_bps as u128);
    (wide / (FEE_DENOMINATOR as u128)) as u64
}

/// The base units that `quote_amount` buys at `price`, rounded down. The
/// product is formed in 128 bits; the result may exceed the `u64` range.
pub fn receivable_base_amount(quote_amount: u64, price: u64) -> (out: u128)
    ensures
        out == receivable_of(quote_amount as int, price as int),
{
    proof {
        let q = quote_amount as int;
        let p = price as int;
        assert(0 <= q * p <= u64::MAX as int * u64::MAX as int) by (nonlinear_arith)
            requires 0 <= q <= u64::MAX, 0 <= p <= u64::MAX;
    }
    let wide: u128 = (quote_amount as u128) * (price as u128);
    wide / (PRICE_SCALE as u128)
}

} // verus!
