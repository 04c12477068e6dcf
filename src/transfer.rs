use vstd::prelude::*;
use solana_program::program_error::ProgramError;
use crate::accounts::Role;
use crate::error::SwapError;
use crate::fee::{taxed_amount, taxed_of, MAX_RATE_PERCENT};

verus! {

/// What one swap moves, fixed when the swap begins.
#[derive(Clone, Copy, Debug, PartialEq, Eq, Structural)]
pub struct TransferIntent {
    /// Balance of the source token account when the swap begins.
    pub gross: u64,
    /// Fee rate in percent.
    pub rate: u64,
    /// Amount withheld for the fee sink.
    pub taxed: u64,
    /// Amount sent to the destination token account.
    pub net: u64,
}

/// The intent of a swap of `gross` at `rate` percent.
pub open spec fn intent_of(gross: u64, rate: u64) -> TransferIntent {
    TransferIntent {
        gross,
        rate,
        taxed: taxed_of(gross, rate) as u64,
        net: (gross - taxed_of(gross, rate)) as u64,
    }
}

/// Derives the intent of a swap, rejecting a rate above one hundred percent.
pub fn plan_transfer(gross: u64, rate: u64) -> (r: Result<TransferIntent, SwapError>)
    ensures
        rate > MAX_RATE_PERCENT <==> r == Err::<TransferIntent, SwapError>(
            SwapError::InvalidArgument,
        ),
        rate <= MAX_RATE_PERCENT ==> r == Ok::<TransferIntent, SwapError>(intent_of(gross, rate)),
{
    if rate > MAX_RATE_PERCENT {
        return Err(SwapError::InvalidArgument);
    }
    let taxed = taxed_amount(gross, rate);
    Ok(TransferIntent { gross, rate, taxed, net: gross - taxed })
}

/// The three ledger calls a swap can make.
#[derive(Clone, Copy, Debug, PartialEq, Eq, Structural)]
pub enum LegKind {
    /// The net token amount, source to destination.
    Net,
    /// One non-fungible unit, source to destination.
    Unit,
    /// The withheld fee, source to fee sink.
    Fee,
}

/// One ledger transfer: its kind and the amount it moves.
#[derive(Clone, Copy, Debug, PartialEq, Eq, Structural)]
pub struct Leg {
    pub kind: LegKind,
    pub amount: u64,
}

impl Leg {
    pub open spec fn spec_source(&self) -> Role {
        match self.kind {
            LegKind::Net => Role::SourceFungible,
            LegKind::Unit => Role::SourceUnit,
            LegKind::Fee => Role::SourceFungible,
        }
    }

    pub open spec fn spec_destination(&self) -> Role {
        match self.kind {
            LegKind::Net => Role::DestFungible,
            LegKind::Unit => Role::DestUnit,
            LegKind::Fee => Role::FeeSink,
        }
    }

    /// The account the leg debits; it also signs for the leg.
    pub fn source(&self) -> (r: Role)
        ensures
            r == self.spec_source(),
    {
        match self.kind {
            LegKind::Net => Role::SourceFungible,
            LegKind::Unit => Role::SourceUnit,
            LegKind::Fee => Role::SourceFungible,
        }
    }

    /// The account the leg credits.
    pub fn destination(&self) -> (r: Role)
        ensures
            r == self.spec_destination(),
    {
        match self.kind {
            LegKind::Net => Role::DestFungible,
            LegKind::Unit => Role::DestUnit,
            LegKind::Fee => Role::FeeSink,
        }
    }
}

/// The legs of a swap, in the order they are issued: the net transfer, one
/// unit, and the fee only when there is one to take.
pub open spec fn planned_legs(intent: TransferIntent) -> Seq<Leg> {
    let base = seq![
        Leg { kind: LegKind::Net, amount: intent.net },
        Leg { kind: LegKind::Unit, amount: 1 },
    ];
    if intent.taxed > 0 {
        base.push(Leg { kind: LegKind::Fee, amount: intent.taxed })
    } else {
        base
    }
}

/// Lists the legs of a swap in issue order.
pub fn legs_of(intent: &TransferIntent) -> (r: Vec<Leg>)
    ensures
        r@ == planned_legs(*intent),
{
    let mut legs: Vec<Leg> = Vec::new();
    legs.push(Leg { kind: LegKind::Net, amount: intent.net });
    legs.push(Leg { kind: LegKind::Unit, amount: 1 });
    if intent.taxed > 0 {
        legs.push(Leg { kind: LegKind::Fee, amount: intent.taxed });
    }
    assert(legs@ =~= planned_legs(*intent));
    legs
}

} // verus!
