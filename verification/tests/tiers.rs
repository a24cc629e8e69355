use my_immortal_reincarnation::{PhysicalCultivation, Quality, SpiritualCultivation, QI_UNIT};

const SPIRITUAL: [SpiritualCultivation; 11] = [
    SpiritualCultivation::Mortal,
    SpiritualCultivation::QiCondensation,
    SpiritualCultivation::FoundationEstablishment,
    SpiritualCultivation::CoreFormation,
    SpiritualCultivation::SpiritualSea,
    SpiritualCultivation::NascentSoul,
    SpiritualCultivation::SpiritualLord,
    SpiritualCultivation::SpiritualEmpyrean,
    SpiritualCultivation::DaoLord,
    SpiritualCultivation::DaoEmpyrean,
    SpiritualCultivation::SovereignEmpyrean,
];

const PHYSICAL: [PhysicalCultivation; 3] = [
    PhysicalCultivation::QiGathering,
    PhysicalCultivation::OrganRefinement,
    PhysicalCultivation::MeridianReforging,
];

const QUALITY: [Quality; 11] = [
    Quality::Worst,
    Quality::VeryHorrible,
    Quality::Horrible,
    Quality::VeryPoor,
    Quality::Poor,
    Quality::Average,
    Quality::Good,
    Quality::VeryGood,
    Quality::Great,
    Quality::VeryGreat,
    Quality::Best,
];

#[test]
fn one_unit_is_a_thousand_thousandths() {
    assert_eq!(QI_UNIT, 1000);
}

#[test]
fn spiritual_multipliers_are_the_table() {
    let expected: [u64; 11] = [10, 50, 95, 200, 500, 1_000, 1_500, 5_000, 10_000, 20_000, 100_000];
    for (stage, want) in SPIRITUAL.iter().zip(expected.iter()) {
        assert_eq!(stage.value(), *want, "{:?}", stage);
    }
}

#[test]
fn spiritual_multipliers_span_a_hundredth_to_a_hundred() {
    assert_eq!(SpiritualCultivation::Mortal.value() * 100, QI_UNIT);
    assert_eq!(SpiritualCultivation::SovereignEmpyrean.value(), 100 * QI_UNIT);
}

#[test]
fn spiritual_multipliers_are_positive_and_strictly_increasing() {
    for pair in SPIRITUAL.windows(2) {
        assert!(pair[0].ordinal() < pair[1].ordinal());
        assert!(0 < pair[0].value());
        assert!(pair[0].value() < pair[1].value(), "{:?} {:?}", pair[0], pair[1]);
    }
    for lower in SPIRITUAL.iter() {
        for higher in SPIRITUAL.iter() {
            if lower.ordinal() < higher.ordinal() {
                assert!(lower.value() < higher.value());
            }
        }
    }
}

#[test]
fn spiritual_ordinals_count_from_zero() {
    for (place, stage) in SPIRITUAL.iter().enumerate() {
        assert_eq!(stage.ordinal() as usize, place);
    }
}

#[test]
fn spiritual_labels_are_the_table() {
    let expected = [
        "Mortal",
        "Qi Condensation",
        "Foundation Establishment",
        "Core Formation",
        "Spiritual Sea",
        "Nascent Soul",
        "Spiritual Lord",
        "Spiritual Empyrean",
        "Dao Lord",
        "Dao Empyrean",
        "Sovereign Empyrean",
    ];
    for (stage, want) in SPIRITUAL.iter().zip(expected.iter()) {
        assert_eq!(stage.text_value(), *want);
    }
}

#[test]
fn physical_labels_are_the_table() {
    let expected = ["Qi Gathering", "Organ Refinement", "Meridian Reforging"];
    for (stage, want) in PHYSICAL.iter().zip(expected.iter()) {
        assert_eq!(stage.text_value(), *want);
    }
}

#[test]
fn physical_ordinals_count_from_zero() {
    for (place, stage) in PHYSICAL.iter().enumerate() {
        assert_eq!(stage.ordinal() as usize, place);
    }
}

#[test]
fn quality_multipliers_are_the_table() {
    let expected: [u64; 11] = [100, 300, 400, 500, 800, 1_000, 1_200, 1_500, 3_000, 4_000, 10_000];
    for (rating, want) in QUALITY.iter().zip(expected.iter()) {
        assert_eq!(rating.value(), *want, "{:?}", rating);
    }
}

#[test]
fn quality_multipliers_span_a_tenth_to_ten() {
    assert_eq!(Quality::Worst.value() * 10, QI_UNIT);
    assert_eq!(Quality::Best.value(), 10 * QI_UNIT);
    assert_eq!(Quality::Average.value(), QI_UNIT);
}

#[test]
fn quality_multipliers_are_positive_and_strictly_increasing() {
    for pair in QUALITY.windows(2) {
        assert!(pair[0].ordinal() < pair[1].ordinal());
        assert!(0 < pair[0].value());
        assert!(pair[0].value() < pair[1].value(), "{:?} {:?}", pair[0], pair[1]);
    }
}

#[test]
fn quality_ordinals_count_from_zero() {
    for (place, rating) in QUALITY.iter().enumerate() {
        assert_eq!(rating.ordinal() as usize, place);
    }
}

#[test]
fn quality_labels_are_the_table() {
    let expected = [
        "Worst",
        "Very Horrible",
        "Horrible",
        "Very Poor",
        "Poor",
        "Average",
        "Good",
        "Very Good",
        "Great",
        "Very Great",
        "Best",
    ];
    for (rating, want) in QUALITY.iter().zip(expected.iter()) {
        assert_eq!(rating.text_value(), *want);
    }
}

#[test]
fn no_label_is_empty() {
    for stage in SPIRITUAL.iter() {
        assert!(!stage.text_value().is_empty());
    }
    for stage in PHYSICAL.iter() {
        assert!(!stage.text_value().is_empty());
    }
    for rating in QUALITY.iter() {
        assert!(!rating.text_value().is_empty());
    }
}
