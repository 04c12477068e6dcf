use vstd::prelude::*;

verus! {

/// Largest fee rate, in percent, that a transfer accepts.
pub const MAX_RATE_PERCENT: u64 = 100;

/// The fee withheld from `gross` at `rate` percent: the product divided by one
/// hundred, rounded down.
pub open spec fn fee_of(gross: u64, rate: u64) -> int {
    (gross as int * rate as int) / 100
}

/// The fee actually taken: the computed fee, never more than the gross amount.
pub open spec fn taxed_of(gross: u64, rate: u64) -> int {
    if fee_of(gross, rate) <= gross as int {
        fee_of(gross, rate)
    } else {
        gross as int
    }
}

/// Computes `floor(gross * rate / 100)` without intermediate overflow.
pub fn compute_fee(gross: u64, rate: u64) -> (fee: u64)
    requires
        rate <= MAX_RATE_PERCENT,
    ensures
        fee == fee_of(gross, rate),
        fee <= gross,
{
    proof {
        assert(gross as int * rate as int <= gross as int * 100) by (nonlinear_arith)
            requires
                rate <= 100,
        ;
        assert(gross as int * 100 <= u128::MAX) by (nonlinear_arith)
            requires
                gross <= u64::MAX,
        ;
    }
    let product: u128 = (gross as u128) * (rate as u128);
    (product / 100) as u64
}

/// The amount withheld as a fee: the computed fee clamped to the gross amount,
/// so that no transfer ever asks for more than the source holds.
pub fn taxed_amount(gross: u64, rate: u64) -> (taxed: u64)
    requires
        rate <= MAX_RATE_PERCENT,
    ensures
        taxed == taxed_of(gross, rate),
        taxed == fee_of(gross, rate),
        taxed <= gross,
{
    let fee = compute_fee(gross, rate);
    if fee < gross {
        fee
    } else {
        gross
    }
}

} // verus!
