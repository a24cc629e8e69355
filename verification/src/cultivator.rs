//! The state of a cultivator and the two acts of cultivation that change it.

use vstd::prelude::*;

use crate::tier::{
    lemma_spiritual_multiplier_grows, PhysicalCultivation, Quality, SpiritualCultivation, QI_UNIT,
};

verus! {

/// The progression of one cultivator. Amounts of qi are in thousandths.
#[derive(Clone, Copy, Debug, PartialEq, Eq, Structural)]
pub struct Cultivator {
    /// The qi gathered on the physical track.
    pub vessel_qi: u64,
    /// The physical cycles completed.
    pub vessel_cycles: u32,
    /// The stage reached on the physical track.
    pub vessel_cultivation: PhysicalCultivation,
    /// The qi gathered on the spiritual track.
    pub spiritual_qi: u64,
    /// The rating of the spiritual veins.
    pub spiritual_harmony: Quality,
    /// The stage reached on the spiritual track.
    pub spiritual_cultivation: SpiritualCultivation,
    /// The rating of the meridians.
    pub meridians: Quality,
}

/// A cultivator as a mathematical record: the same fields, with amounts that
/// know no upper bound.
pub struct CultivatorModel {
    pub vessel_qi: nat,
    pub vessel_cycles: nat,
    pub vessel_cultivation: PhysicalCultivation,
    pub spiritual_qi: nat,
    pub spiritual_harmony: Quality,
    pub spiritual_cultivation: SpiritualCultivation,
    pub meridians: Quality,
}

impl CultivatorModel {
    /// The state every cultivator starts from: nothing gathered, and the
    /// lowest stage and rating everywhere.
    pub open spec fn initial() -> CultivatorModel {
        CultivatorModel {
            vessel_qi: 0,
            vessel_cycles: 0,
            vessel_cultivation: PhysicalCultivation::QiGathering,
            spiritual_qi: 0,
            spiritual_harmony: Quality::Worst,
            spiritual_cultivation: SpiritualCultivation::Mortal,
            meridians: Quality::Worst,
        }
    }

    /// One act of spiritual cultivation: the spiritual qi grows by the
    /// multiplier of the current spiritual stage; nothing else changes.
    pub open spec fn increment_spiritual(self) -> CultivatorModel {
        CultivatorModel {
            spiritual_qi: self.spiritual_qi + self.spiritual_cultivation.multiplier(),
            ..self
        }
    }

    /// One act of physical cultivation: the vessel qi grows by one unit,
    /// whatever the stages; nothing else changes.
    pub open spec fn increment_vessel(self) -> CultivatorModel {
        CultivatorModel { vessel_qi: self.vessel_qi + QI_UNIT as nat, ..self }
    }

    /// The state after `n` acts of spiritual cultivation in a row.
    pub open spec fn increment_spiritual_times(self, n: nat) -> CultivatorModel
        decreases n,
    {
        if n == 0 {
            self
        } else {
            self.increment_spiritual_times((n - 1) as nat).increment_spiritual()
        }
    }

    /// The state after `n` acts of physical cultivation in a row.
    pub open spec fn increment_vessel_times(self, n: nat) -> CultivatorModel
        decreases n,
    {
        if n == 0 {
            self
        } else {
            self.increment_vessel_times((n - 1) as nat).increment_vessel()
        }
    }
}

impl View for Cultivator {
    type V = CultivatorModel;

    open spec fn view(&self) -> CultivatorModel {
        CultivatorModel {
            vessel_qi: self.vessel_qi as nat,
            vessel_cycles: self.vessel_cycles as nat,
            vessel_cultivation: self.vessel_cultivation,
            spiritual_qi: self.spiritual_qi as nat,
            spiritual_harmony: self.spiritual_harmony,
            spiritual_cultivation: self.spiritual_cultivation,
            meridians: self.meridians,
        }
    }
}

impl Default for Cultivator {
    /// The state every cultivator starts from.
    fn default() -> (fresh: Cultivator)
        ensures
            fresh@ == CultivatorModel::initial(),
    {
        Cultivator {
            vessel_qi: 0,
            vessel_cycles: 0,
            vessel_cultivation: PhysicalCultivation::QiGathering,
            spiritual_qi: 0,
            spiritual_harmony: Quality::Worst,
            spiritual_cultivation: SpiritualCultivation::Mortal,
            meridians: Quality::Worst,
        }
    }
}

impl Cultivator {
    /// Whether the spiritual qi after one more act of spiritual cultivation
    /// still fits the counter.
    pub open spec fn spiritual_room(self) -> bool {
        self.spiritual_qi + self.spiritual_cultivation.multiplier() <= u64::MAX
    }

    /// Whether the vessel qi after one more act of physical cultivation still
    /// fits the counter.
    pub open spec fn vessel_room(self) -> bool {
        self.vessel_qi + QI_UNIT <= u64::MAX
    }

    /// Performs one act of spiritual cultivation and reports that the state
    /// has changed.
    pub fn increment_spiritual(&mut self) -> (changed: bool)
        requires
            old(self).spiritual_room(),
        ensures
            final(self)@ == old(self)@.increment_spiritual(),
            changed,
    {
        self.spiritual_qi = self.spiritual_qi + self.spiritual_cultivation.value();
        true
    }

    /// Performs one act of physical cultivation and reports that the state
    /// has changed.
    pub fn increment_vessel(&mut self) -> (changed: bool)
        requires
            old(self).vessel_room(),
        ensures
            final(self)@ == old(self)@.increment_vessel(),
            changed,
    {
        self.vessel_qi = self.vessel_qi + QI_UNIT;
        true
    }
}

/// An amount of qi as it is shown: in hundredths of a unit, the nearest to
/// the amount, a half going up.
pub open spec fn nearest_hundredths(amount: nat) -> nat {
    (amount + 5) / 10
}

/// Rounds an amount of qi, in thousandths, to the hundredths in which it is
/// shown.
pub fn shown_hundredths(amount: u64) -> (shown: u64)
    ensures
        shown == nearest_hundredths(amount as nat),
        10 * shown - 5 <= amount < 10 * shown + 5,
{
    if amount % 10 >= 5 {
        amount / 10 + 1
    } else {
        amount / 10
    }
}

/// After `n` acts of spiritual cultivation the spiritual qi has grown by `n`
/// times the multiplier of the stage, and nothing else has changed: not the
/// stage either, so that the rate stays the same all along.
pub proof fn lemma_increment_spiritual_times(start: CultivatorModel, n: nat)
    ensures
        start.increment_spiritual_times(n) == (CultivatorModel {
            spiritual_qi: start.spiritual_qi + n * start.spiritual_cultivation.multiplier(),
            ..start
        }),
    decreases n,
{
    let m = start.spiritual_cultivation.multiplier();
    if n == 0 {
        assert(n * m == 0) by (nonlinear_arith)
            requires
                n == 0,
        ;
    } else {
        let before = (n - 1) as nat;
        lemma_increment_spiritual_times(start, before);
        assert(before * m + m == n * m) by (nonlinear_arith)
            requires
                before + 1 == n,
        ;
    }
}

/// After `n` acts of physical cultivation the vessel qi has grown by `n`
/// units, whatever the stages, and nothing else has changed.
pub proof fn lemma_increment_vessel_times(start: CultivatorModel, n: nat)
    ensures
        start.increment_vessel_times(n) == (CultivatorModel {
            vessel_qi: start.vessel_qi + n * QI_UNIT as nat,
            ..start
        }),
    decreases n,
{
    if n > 0 {
        lemma_increment_vessel_times(start, (n - 1) as nat);
    }
}

/// Of two cultivators, the one at the higher spiritual stage gains strictly
/// more spiritual qi by one act of spiritual cultivation.
pub proof fn lemma_higher_stage_gains_more(lower: CultivatorModel, higher: CultivatorModel)
    requires
        lower.spiritual_cultivation.rank() < higher.spiritual_cultivation.rank(),
    ensures
        lower.increment_spiritual().spiritual_qi - lower.spiritual_qi
            < higher.increment_spiritual().spiritual_qi - higher.spiritual_qi,
{
    lemma_spiritual_multiplier_grows(lower.spiritual_cultivation, higher.spiritual_cultivation);
}

} // verus!
