//! Display-text checks for the value and attribute types.

use gamemstr::action::attack::{Melee, Range, Ranged, TargetType};
use gamemstr::creature::{Health, MovementSpeed, Sense, Skill, SkillType, Language};
use gamemstr::item::{Attuneable, Charge, ItemRarity, ItemType, TimeDivision};
use gamemstr::spell::{Area, CastingTime, Components, Duration, Save, SpellLevel, SpellRange};
use gamemstr::{Alignment, DamageType, Die, DieStat, OtherAttribute};

#[test]
fn test_item_type_display() {
    assert_eq!(ItemType::WondrousItem.to_string(), "Wondrous Item");
}

#[test]
fn test_item_rarity_display() {
    assert_eq!(ItemRarity::VeryRare.to_string(), "Very Rare");
    assert_eq!(ItemRarity::Unknown.to_string(), "Unknown Rarity");
}

#[test]
fn test_attuneable_display() {
    assert_eq!(
        Attuneable {
            alignments: Some(vec![Alignment::ChaoticGood])
        }
        .to_string(),
        "(requires attunement, chaotic good)"
    );
    assert_eq!(
        Attuneable { alignments: None }.to_string(),
        "(requires attunement)"
    );
}

#[test]
fn test_charge_display() {
    assert_eq!(
        Charge {
            num: 1,
            time: TimeDivision::Round
        }
        .to_string(),
        "1/Round"
    );
}

#[test]
fn test_time_division_display() {
    assert_eq!(TimeDivision::Round.to_string(), "Round");
}

#[test]
fn test_time_division_to_plural_string() {
    assert_eq!(TimeDivision::Round.to_plural_string(), "Rounds");
}

#[test]
fn test_item_type_all() {
    assert_eq!(ItemType::all().len(), 9);
}

#[test]
fn test_attuneable_display_several_alignments() {
    assert_eq!(
        Attuneable {
            alignments: Some(vec![Alignment::ChaoticGood, Alignment::LawfulEvil])
        }
        .to_string(),
        "(requires attunement, chaotic good,lawful evil)"
    );
    assert_eq!(
        Attuneable {
            alignments: Some(vec![])
        }
        .to_string(),
        "(requires attunement, )"
    );
}

#[test]
fn test_die_display() {
    assert_eq!(Die::D20.to_string(), "d20");
    assert_eq!(Die::D100.to_string(), "d100");
    assert_eq!(Die::D4.to_i32(), 4);
}

#[test]
fn test_die_stat_display() {
    let dice = DieStat {
        die_count: 6,
        die_type: Die::D10,
        extra: 12,
    };
    assert_eq!(dice.to_string(), "6d10 + 12");
    let negative = DieStat {
        die_count: 2,
        die_type: Die::D6,
        extra: -3,
    };
    assert_eq!(negative.to_string(), "2d6 + -3");
}

#[test]
fn test_health_display_round_trips_fixture() {
    let health = Health::from_dice(6, Die::D10, 12);
    assert_eq!(health.to_string(), "45 (6d10 + 12)");
}

#[test]
fn test_die_stat_value() {
    let dice = DieStat {
        die_count: 2,
        die_type: Die::D6,
        extra: 3,
    };
    assert_eq!(dice.value(), 10);
    let plain = DieStat {
        die_count: 1,
        die_type: Die::D20,
        extra: 0,
    };
    assert_eq!(plain.value(), 10);
}

#[test]
fn test_target_type_display() {
    assert_eq!(TargetType::OneTarget.to_string(), "one target");
    assert_eq!(TargetType::MultipleTargets(3).to_string(), "three targets");
    assert_eq!(TargetType::Cone(30).to_string(), "thirty ft. Cone");
    assert_eq!(TargetType::Line(100).to_string(), "one hundred ft. Line");
}

#[test]
fn test_range_display() {
    let range = Range {
        close_range: 20,
        long_range: 60,
    };
    assert_eq!(range.to_string(), "20 ft. / 60 ft.");
}

#[test]
fn test_melee_attack_display() {
    let bite = Melee {
        name: "Bite".to_string(),
        modifier: 4,
        reach: None,
        target_type: TargetType::OneTarget,
        damage: DieStat {
            die_count: 2,
            die_type: Die::D6,
            extra: 3,
        },
        damage_type: DamageType::Piercing,
        description: "A vicious bite.".to_string(),
    };
    assert_eq!(
        bite.display_with_kind("Weapon"),
        "Bite. Melee Weapon Attack: 4 to hit, reach 5, one target. \
         Hit: 2d6 + 3 Piercing. A vicious bite."
    );
}

#[test]
fn test_ranged_attack_display_defaults_range() {
    let bow = Ranged {
        name: "Shortbow".to_string(),
        modifier: 6,
        range: None,
        target_type: TargetType::OneTarget,
        damage: DieStat {
            die_count: 1,
            die_type: Die::D6,
            extra: 2,
        },
        damage_type: DamageType::Piercing,
        description: "An arrow.".to_string(),
    };
    assert_eq!(
        bow.display_with_kind("Weapon"),
        "Shortbow. Ranged Weapon Attack: 6 to hit, range 0 ft. / 0 ft., one target. \
         Hit: 1d6 + 2 Piercing. An arrow."
    );
}

#[test]
fn test_movement_speed_display() {
    assert_eq!(MovementSpeed::Walk(30).to_string(), "30ft.");
    assert_eq!(MovementSpeed::Swim(40).to_string(), "swim 40ft.");
    assert_eq!(MovementSpeed::Burrow(10).to_string(), "burrow 10ft.");
    assert_eq!(MovementSpeed::Climb(20).to_string(), "climb 20ft.");
    assert_eq!(
        MovementSpeed::Fly {
            speed: 60,
            hover: true
        }
        .to_string(),
        "fly 60ft. (hover)"
    );
    assert_eq!(
        MovementSpeed::Fly {
            speed: 60,
            hover: false
        }
        .to_string(),
        "fly 60ft."
    );
}

#[test]
fn test_sense_display() {
    assert_eq!(Sense::Blindsight(30).to_string(), "Blindsight 30 ft.");
    assert_eq!(Sense::Truesight(120).to_string(), "Truesight 120 ft.");
}

#[test]
fn test_skill_display() {
    assert_eq!(SkillType::SleightOfHand.to_string(), "Sleight of Hand (Dex)");
    assert_eq!(
        Skill {
            skill_type: SkillType::Acrobatics,
            modifier: 3
        }
        .to_string(),
        "Acrobatics (Dex) 3"
    );
}

#[test]
fn test_language_display() {
    assert_eq!(Language::DeepSpeech.to_string(), "Deep Speech");
    assert_eq!(Language::ThriKreen.to_string(), "Thri-Kreen");
    assert_eq!(Language::Common.to_string(), "Common");
}

#[test]
fn test_alignment_display() {
    assert_eq!(Alignment::ChaoticEvil.to_string(), "chaotic evil");
    assert_eq!(Alignment::AnyNonLawful.to_string(), "any non-lawful alignment");
    assert_eq!(
        Alignment::TypicallyNeutralGood.to_string(),
        "typically neutral good"
    );
}

#[test]
fn test_other_attribute_display() {
    let attr = OtherAttribute {
        title: "Amphibious".to_string(),
        description: "Breathing".to_string(),
        value: "air and water".to_string(),
    };
    assert_eq!(attr.to_string(), "Amphibious: air and water");
}

#[test]
fn test_spell_level_display() {
    assert_eq!(SpellLevel::Cantrip.to_string(), "Cantrip");
    assert_eq!(SpellLevel::Level1.to_string(), "1st Level");
    assert_eq!(SpellLevel::Level3.to_string(), "3rd Level");
    assert_eq!(SpellLevel::Level9.to_string(), "9th Level");
}

#[test]
fn test_casting_time_display() {
    assert_eq!(CastingTime::BonusAction.to_string(), "Bonus Action");
}

#[test]
fn test_duration_display() {
    assert_eq!(
        Duration::UntilDispelledOrTriggered.to_string(),
        "Until Dispelled or Triggered"
    );
}

#[test]
fn test_spell_range_display() {
    assert_eq!(SpellRange::S.to_string(), "Self");
    assert_eq!(SpellRange::Touch.to_string(), "Touch");
    assert_eq!(SpellRange::Range(60).to_string(), "60");
}

#[test]
fn test_area_display() {
    assert_eq!(Area::Cone(30).to_string(), "30 ft. Cone");
    assert_eq!(Area::Wall(100).to_string(), "100 ft. Wall");
}

#[test]
fn test_components_display() {
    assert_eq!(Components::VSM.to_string(), "V, S, M");
    assert_eq!(Components::SM.to_string(), "S, M");
}

#[test]
fn test_save_display() {
    assert_eq!(Save::Strength(Some(13)).to_string(), "Strength DC 13");
    assert_eq!(Save::Wisdom(None).to_string(), "Wisdom");
}
