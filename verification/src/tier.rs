//! The ordered stages and ratings of a cultivator, with their labels and
//! rate multipliers.

use vstd::prelude::*;

verus! {

/// How many thousandths make one unit of qi. Every amount of qi and every
/// multiplier in this crate is a whole number of thousandths.
pub const QI_UNIT: u64 = 1000;

/// The stages of the spiritual track, from the lowest to the highest.
#[derive(Clone, Copy, Debug, PartialEq, Eq, Structural)]
pub enum SpiritualCultivation {
    Mortal,
    QiCondensation,
    FoundationEstablishment,
    CoreFormation,
    SpiritualSea,
    NascentSoul,
    SpiritualLord,
    SpiritualEmpyrean,
    DaoLord,
    DaoEmpyrean,
    SovereignEmpyrean,
}

impl SpiritualCultivation {
    /// The place of the stage in its order, counted from zero.
    pub open spec fn rank(self) -> nat {
        match self {
            SpiritualCultivation::Mortal => 0,
            SpiritualCultivation::QiCondensation => 1,
            SpiritualCultivation::FoundationEstablishment => 2,
            SpiritualCultivation::CoreFormation => 3,
            SpiritualCultivation::SpiritualSea => 4,
            SpiritualCultivation::NascentSoul => 5,
            SpiritualCultivation::SpiritualLord => 6,
            SpiritualCultivation::SpiritualEmpyrean => 7,
            SpiritualCultivation::DaoLord => 8,
            SpiritualCultivation::DaoEmpyrean => 9,
            SpiritualCultivation::SovereignEmpyrean => 10,
        }
    }

    /// The place of the stage in its order, counted from zero.
    pub fn ordinal(&self) -> (n: u8)
        ensures
            n == self.rank(),
            n < 11,
    {
        match self {
            SpiritualCultivation::Mortal => 0,
            SpiritualCultivation::QiCondensation => 1,
            SpiritualCultivation::FoundationEstablishment => 2,
            SpiritualCultivation::CoreFormation => 3,
            SpiritualCultivation::SpiritualSea => 4,
            SpiritualCultivation::NascentSoul => 5,
            SpiritualCultivation::SpiritualLord => 6,
            SpiritualCultivation::SpiritualEmpyrean => 7,
            SpiritualCultivation::DaoLord => 8,
            SpiritualCultivation::DaoEmpyrean => 9,
            SpiritualCultivation::SovereignEmpyrean => 10,
        }
    }

    /// The qi that one act of spiritual cultivation yields at this stage, in
    /// thousandths: from 0.01 for a mortal up to 100 at the highest stage.
    pub open spec fn multiplier(self) -> nat {
        match self {
            SpiritualCultivation::Mortal => 10,
            SpiritualCultivation::QiCondensation => 50,
            SpiritualCultivation::FoundationEstablishment => 95,
            SpiritualCultivation::CoreFormation => 200,
            SpiritualCultivation::SpiritualSea => 500,
            SpiritualCultivation::NascentSoul => 1_000,
            SpiritualCultivation::SpiritualLord => 1_500,
            SpiritualCultivation::SpiritualEmpyrean => 5_000,
            SpiritualCultivation::DaoLord => 10_000,
            SpiritualCultivation::DaoEmpyrean => 20_000,
            SpiritualCultivation::SovereignEmpyrean => 100_000,
        }
    }

    /// The multiplier of the stage, in thousandths.
    pub fn value(&self) -> (v: u64)
        ensures
            v == self.multiplier(),
            10 <= v <= 100_000,
    {
        match self {
            SpiritualCultivation::Mortal => 10,
            SpiritualCultivation::QiCondensation => 50,
            SpiritualCultivation::FoundationEstablishment => 95,
            SpiritualCultivation::CoreFormation => 200,
            SpiritualCultivation::SpiritualSea => 500,
            SpiritualCultivation::NascentSoul => 1_000,
            SpiritualCultivation::SpiritualLord => 1_500,
            SpiritualCultivation::SpiritualEmpyrean => 5_000,
            SpiritualCultivation::DaoLord => 10_000,
            SpiritualCultivation::DaoEmpyrean => 20_000,
            SpiritualCultivation::SovereignEmpyrean => 100_000,
        }
    }

    /// The name under which the stage is shown.
    pub open spec fn label(self) -> Seq<char> {
        match self {
            SpiritualCultivation::Mortal => "Mortal"@,
            SpiritualCultivation::QiCondensation => "Qi Condensation"@,
            SpiritualCultivation::FoundationEstablishment => "Foundation Establishment"@,
            SpiritualCultivation::CoreFormation => "Core Formation"@,
            SpiritualCultivation::SpiritualSea => "Spiritual Sea"@,
            SpiritualCultivation::NascentSoul => "Nascent Soul"@,
            SpiritualCultivation::SpiritualLord => "Spiritual Lord"@,
            SpiritualCultivation::SpiritualEmpyrean => "Spiritual Empyrean"@,
            SpiritualCultivation::DaoLord => "Dao Lord"@,
            SpiritualCultivation::DaoEmpyrean => "Dao Empyrean"@,
            SpiritualCultivation::SovereignEmpyrean => "Sovereign Empyrean"@,
        }
    }

    /// The name under which the stage is shown. It is never empty.
    pub fn text_value(&self) -> (text: &'static str)
        ensures
            text@ == self.label(),
            text@.len() > 0,
    {
        proof {
            reveal_strlit("Mortal");
            reveal_strlit("Qi Condensation");
            reveal_strlit("Foundation Establishment");
            reveal_strlit("Core Formation");
            reveal_strlit("Spiritual Sea");
            reveal_strlit("Nascent Soul");
            reveal_strlit("Spiritual Lord");
            reveal_strlit("Spiritual Empyrean");
            reveal_strlit("Dao Lord");
            reveal_strlit("Dao Empyrean");
            reveal_strlit("Sovereign Empyrean");
        }
        match self {
            SpiritualCultivation::Mortal => "Mortal",
            SpiritualCultivation::QiCondensation => "Qi Condensation",
            SpiritualCultivation::FoundationEstablishment => "Foundation Establishment",
            SpiritualCultivation::CoreFormation => "Core Formation",
            SpiritualCultivation::SpiritualSea => "Spiritual Sea",
            SpiritualCultivation::NascentSoul => "Nascent Soul",
            SpiritualCultivation::SpiritualLord => "Spiritual Lord",
            SpiritualCultivation::SpiritualEmpyrean => "Spiritual Empyrean",
            SpiritualCultivation::DaoLord => "Dao Lord",
            SpiritualCultivation::DaoEmpyrean => "Dao Empyrean",
            SpiritualCultivation::SovereignEmpyrean => "Sovereign Empyrean",
        }
    }
}

/// The stages of the physical track, from the lowest to the highest. No
/// multiplier belongs to them.
#[derive(Clone, Copy, Debug, PartialEq, Eq, Structural)]
pub enum PhysicalCultivation {
    QiGathering,
    OrganRefinement,
    MeridianReforging,
}

impl PhysicalCultivation {
    /// The place of the stage in its order, counted from zero.
    pub open spec fn rank(self) -> nat {
        match self {
            PhysicalCultivation::QiGathering => 0,
            PhysicalCultivation::OrganRefinement => 1,
            PhysicalCultivation::MeridianReforging => 2,
        }
    }

    /// The place of the stage in its order, counted from zero.
    pub fn ordinal(&self) -> (n: u8)
        ensures
            n == self.rank(),
            n < 3,
    {
        match self {
            PhysicalCultivation::QiGathering => 0,
            PhysicalCultivation::OrganRefinement => 1,
            PhysicalCultivation::MeridianReforging => 2,
        }
    }

    /// The name under which the stage is shown.
    pub open spec fn label(self) -> Seq<char> {
        match self {
            PhysicalCultivation::QiGathering => "Qi Gathering"@,
            PhysicalCultivation::OrganRefinement => "Organ Refinement"@,
            PhysicalCultivation::MeridianReforging => "Meridian Reforging"@,
        }
    }

    /// The name under which the stage is shown. It is never empty.
    pub fn text_value(&self) -> (text: &'static str)
        ensures
            text@ == self.label(),
            text@.len() > 0,
    {
        proof {
            reveal_strlit("Qi Gathering");
            reveal_strlit("Organ Refinement");
            reveal_strlit("Meridian Reforging");
        }
        match self {
            PhysicalCultivation::QiGathering => "Qi Gathering",
            PhysicalCultivation::OrganRefinement => "Organ Refinement",
            PhysicalCultivation::MeridianReforging => "Meridian Reforging",
        }
    }
}

/// The ratings given to a cultivator's spiritual veins and meridians, from
/// the worst to the best.
#[derive(Clone, Copy, Debug, PartialEq, Eq, Structural)]
pub enum Quality {
    Worst,
    VeryHorrible,
    Horrible,
    VeryPoor,
    Poor,
    Average,
    Good,
    VeryGood,
    Great,
    VeryGreat,
    Best,
}

impl Quality {
    /// The place of the rating in its order, counted from zero.
    pub open spec fn rank(self) -> nat {
        match self {
            Quality::Worst => 0,
            Quality::VeryHorrible => 1,
            Quality::Horrible => 2,
            Quality::VeryPoor => 3,
            Quality::Poor => 4,
            Quality::Average => 5,
            Quality::Good => 6,
            Quality::VeryGood => 7,
            Quality::Great => 8,
            Quality::VeryGreat => 9,
            Quality::Best => 10,
        }
    }

    /// The place of the rating in its order, counted from zero.
    pub fn ordinal(&self) -> (n: u8)
        ensures
            n == self.rank(),
            n < 11,
    {
        match self {
            Quality::Worst => 0,
            Quality::VeryHorrible => 1,
            Quality::Horrible => 2,
            Quality::VeryPoor => 3,
            Quality::Poor => 4,
            Quality::Average => 5,
            Quality::Good => 6,
            Quality::VeryGood => 7,
            Quality::Great => 8,
            Quality::VeryGreat => 9,
            Quality::Best => 10,
        }
    }

    /// The factor that belongs to the rating, in thousandths: from 0.1 for the
    /// worst up to 10 for the best.
    pub open spec fn multiplier(self) -> nat {
        match self {
            Quality::Worst => 100,
            Quality::VeryHorrible => 300,
            Quality::Horrible => 400,
            Quality::VeryPoor => 500,
            Quality::Poor => 800,
            Quality::Average => 1_000,
            Quality::Good => 1_200,
            Quality::VeryGood => 1_500,
            Quality::Great => 3_000,
            Quality::VeryGreat => 4_000,
            Quality::Best => 10_000,
        }
    }

    /// The factor of the rating, in thousandths.
    pub fn value(&self) -> (v: u64)
        ensures
            v == self.multiplier(),
            100 <= v <= 10_000,
    {
        match self {
            Quality::Worst => 100,
            Quality::VeryHorrible => 300,
            Quality::Horrible => 400,
            Quality::VeryPoor => 500,
            Quality::Poor => 800,
            Quality::Average => 1_000,
            Quality::Good => 1_200,
            Quality::VeryGood => 1_500,
            Quality::Great => 3_000,
            Quality::VeryGreat => 4_000,
            Quality::Best => 10_000,
        }
    }

    /// The name under which the rating is shown.
    pub open spec fn label(self) -> Seq<char> {
        match self {
            Quality::Worst => "Worst"@,
            Quality::VeryHorrible => "Very Horrible"@,
            Quality::Horrible => "Horrible"@,
            Quality::VeryPoor => "Very Poor"@,
            Quality::Poor => "Poor"@,
            Quality::Average => "Average"@,
            Quality::Good => "Good"@,
            Quality::VeryGood => "Very Good"@,
            Quality::Great => "Great"@,
            Quality::VeryGreat => "Very Great"@,
            Quality::Best => "Best"@,
        }
    }

    /// The name under which the rating is shown. It is never empty.
    pub fn text_value(&self) -> (text: &'static str)
        ensures
            text@ == self.label(),
            text@.len() > 0,
    {
        proof {
            reveal_strlit("Worst");
            reveal_strlit("Very Horrible");
            reveal_strlit("Horrible");
            reveal_strlit("Very Poor");
            reveal_strlit("Poor");
            reveal_strlit("Average");
            reveal_strlit("Good");
            reveal_strlit("Very Good");
            reveal_strlit("Great");
            reveal_strlit("Very Great");
            reveal_strlit("Best");
        }
        match self {
            Quality::Worst => "Worst",
            Quality::VeryHorrible => "Very Horrible",
            Quality::Horrible => "Horrible",
            Quality::VeryPoor => "Very Poor",
            Quality::Poor => "Poor",
            Quality::Average => "Average",
            Quality::Good => "Good",
            Quality::VeryGood => "Very Good",
            Quality::Great => "Great",
            Quality::VeryGreat => "Very Great",
            Quality::Best => "Best",
        }
    }
}

/// Every spiritual multiplier is positive, and of two stages the one that
/// ranks lower has the strictly smaller multiplier.
pub proof fn lemma_spiritual_multiplier_grows(
    lower: SpiritualCultivation,
    higher: SpiritualCultivation,
)
    ensures
        0 < lower.multiplier(),
        lower.rank() < higher.rank() ==> lower.multiplier() < higher.multiplier(),
{
}

/// Every quality factor is positive, and of two ratings the one that ranks
/// lower has the strictly smaller factor.
pub proof fn lemma_quality_multiplier_grows(lower: Quality, higher: Quality)
    ensures
        0 < lower.multiplier(),
        lower.rank() < higher.rank() ==> lower.multiplier() < higher.multiplier(),
{
}

} // verus!
