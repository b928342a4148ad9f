//! Record encode/decode round-trips for every modeled entity type.

use gamemstr::action::attack::{Attack, Melee, MeleeOrRanged, Range, Ranged, TargetType};
use gamemstr::action::{Action, ActionType};
use gamemstr::creature::monster::Monster;
use gamemstr::creature::{
    Creature, CreatureType, Health, Lair, Language, MonsterType, MovementSpeed, Paragraph,
    RacialTrait, Sense, Skill, SkillType, Stat, StatType,
};
use gamemstr::item::{Attuneable, ArmorType, Charge, Item, ItemRarity, ItemType, TimeDivision, WeaponType};
use gamemstr::record::{Codec, DecodeError, Record};
use gamemstr::spell::{Area, CastingTime, Components, Duration, Save, Spell, SpellLevel, SpellRange};
use gamemstr::world::campaign::Campaign;
use gamemstr::world::location::Location;
use gamemstr::world::map::{GameMap, MapCoordinates};
use gamemstr::world::npc::NPC;
use gamemstr::world::player::{Class, Player, Race};
use gamemstr::world::session::{Note, Plan, Recap, Session};
use gamemstr::world::World;
use gamemstr::{Alignment, ConditionType, DamageType, Die, DieStat, OtherAttribute};

fn sample_attack() -> Attack {
    Attack::MeleeWeaponAttack(Melee {
        name: "Bite".to_string(),
        modifier: 4,
        reach: Some(10),
        target_type: TargetType::MultipleTargets(2),
        damage: DieStat {
            die_count: 2,
            die_type: Die::D6,
            extra: 3,
        },
        damage_type: DamageType::Piercing,
        description: "A vicious bite.".to_string(),
    })
}

fn sample_spell() -> Spell {
    Spell {
        id: 7,
        name: "Fireball".to_string(),
        description: "A bright streak.".to_string(),
        level: SpellLevel::Level3,
        casting_time: CastingTime::Action,
        duration: Duration::Instantaneous,
        damage: Some(DieStat {
            die_count: 8,
            die_type: Die::D6,
            extra: 0,
        }),
        range: SpellRange::Range(150),
        area: Some(Area::Sphere(20)),
        damage_type: Some(DamageType::Fire),
        components: Components::VSM,
        attack_bonus: None,
        save: Some(Save::Dexterity(Some(15))),
    }
}

fn sample_item(with_inventory: bool) -> Item {
    let inventory = if with_inventory {
        Some(vec![sample_item(false)])
    } else {
        None
    };
    Item {
        id: "item-1".to_string(),
        name: "Bag of Holding".to_string(),
        item_type: ItemType::WondrousItem,
        rarity: ItemRarity::Uncommon,
        attunement: Some(Attuneable {
            alignments: Some(vec![Alignment::ChaoticGood]),
        }),
        weapon_type: Some(WeaponType::Sword),
        armor_type: Some(ArmorType::Shield),
        conditions: Some(vec![ConditionType::Charmed, ConditionType::Prone]),
        attached_spell: Some(sample_spell()),
        has_charges: Some(Charge {
            num: 3,
            time: TimeDivision::Day,
        }),
        inventory,
        others: Some(vec![OtherAttribute {
            title: "Capacity".to_string(),
            description: "How much fits inside".to_string(),
            value: "500 pounds".to_string(),
        }]),
        actions: Some(vec![Action::new(ActionType::Attack(sample_attack()))]),
    }
}

fn sample_creature(kind: CreatureType) -> Creature {
    Creature::new(
        "creature-1".to_string(),
        "Owlbear".to_string(),
        kind,
        Alignment::Unaligned,
        13,
        Health::from_dice(7, Die::D10, 21),
        MovementSpeed::Walk(40),
        vec![
            Stat::from_value(StatType::Strength, 20),
            Stat::from_value(StatType::Dexterity, 12),
        ],
        Some(vec![Stat::from_value(StatType::Constitution, 17)]),
        Some(vec![DamageType::Bludgeoning]),
        Some(vec![DamageType::Poison]),
        Some(vec![DamageType::Fire]),
        Some(vec![ConditionType::Frightened]),
        Some(vec![Skill {
            skill_type: SkillType::Perception,
            modifier: 3,
        }]),
        Some(vec![Sense::Darkvision(60)]),
        Some(vec![Language::Common, Language::DeepSpeech]),
        "3".to_string(),
        Some(vec![RacialTrait {
            name: "Keen Sight".to_string(),
            description: "Advantage on sight checks.".to_string(),
        }]),
        Some("A cross between a bear and an owl.".to_string()),
        Some(vec![Action::new(ActionType::Attack(sample_attack()))]),
        Some(Lair {
            name: "Den".to_string(),
            description: "A dark cave.".to_string(),
            lair_actions: vec![Paragraph {
                paragraph: "The lair shakes.".to_string(),
                bullet: true,
            }],
            regional_effects: vec![],
        }),
        Some(vec![OtherAttribute {
            title: "Hoots".to_string(),
            description: "Noises".to_string(),
            value: "often".to_string(),
        }]),
    )
    .expect("the identifier is non-empty")
}

fn sample_campaign() -> Campaign {
    Campaign::new(
        "The Long Road".to_string(),
        "A journey north.".to_string(),
        "world-1".to_string(),
    )
}

fn sample_player() -> Player {
    let mut player = Player::new(
        sample_creature(CreatureType::Player),
        Race::Elf,
        Class::Wizard,
        3,
        900,
        sample_campaign(),
    )
    .expect("the creature is of the player kind");
    player.add_item(sample_item(true));
    player.add_spell(sample_spell());
    player
}

#[test]
fn test_die_stat_round_trip() {
    let value = DieStat {
        die_count: 6,
        die_type: Die::D10,
        extra: 12,
    };
    assert_eq!(DieStat::from_record(&value.to_record()), Ok(value));
}

#[test]
fn test_enum_round_trips() {
    assert_eq!(
        Alignment::from_record(&Alignment::TypicallyLawfulGood.to_record()),
        Ok(Alignment::TypicallyLawfulGood)
    );
    assert_eq!(
        Language::from_record(&Language::ThriKreen.to_record()),
        Ok(Language::ThriKreen)
    );
    assert_eq!(
        MovementSpeed::from_record(
            &MovementSpeed::Fly {
                speed: 60,
                hover: true
            }
            .to_record()
        ),
        Ok(MovementSpeed::Fly {
            speed: 60,
            hover: true
        })
    );
    assert_eq!(
        TargetType::from_record(&TargetType::Cone(30).to_record()),
        Ok(TargetType::Cone(30))
    );
    assert_eq!(
        Save::from_record(&Save::Wisdom(None).to_record()),
        Ok(Save::Wisdom(None))
    );
}

#[test]
fn test_attack_round_trip() {
    let attack = sample_attack();
    assert_eq!(Attack::from_record(&attack.to_record()), Ok(attack));
    let combined = Attack::MeleeOrRangedWeaponAttack(MeleeOrRanged {
        name: "Spear".to_string(),
        modifier: 5,
        reach: None,
        range: Some(Range {
            close_range: 20,
            long_range: 60,
        }),
        target_type: TargetType::OneTarget,
        damage: DieStat {
            die_count: 1,
            die_type: Die::D8,
            extra: 2,
        },
        damage_type: DamageType::Slashing,
        description: "Thrown or thrust.".to_string(),
    });
    assert_eq!(Attack::from_record(&combined.to_record()), Ok(combined));
    let spell_attack = Attack::RangedSpellAttack(Ranged {
        name: "Fire Bolt".to_string(),
        modifier: 7,
        range: None,
        target_type: TargetType::OneTarget,
        damage: DieStat {
            die_count: 2,
            die_type: Die::D10,
            extra: 0,
        },
        damage_type: DamageType::Fire,
        description: "A mote of fire.".to_string(),
    });
    assert_eq!(Attack::from_record(&spell_attack.to_record()), Ok(spell_attack));
}

#[test]
fn test_action_round_trip() {
    let action = Action::new(ActionType::Attack(sample_attack()));
    let encoded = action.to_record();
    assert_eq!(Action::from_record(&encoded), Ok(action));
}

#[test]
fn test_spell_round_trip() {
    let spell = sample_spell();
    assert_eq!(Spell::from_record(&spell.to_record()), Ok(spell));
}

#[test]
fn test_spell_round_trip_preserves_absent_fields() {
    let mut spell = sample_spell();
    spell.damage = None;
    spell.area = None;
    spell.damage_type = None;
    spell.attack_bonus = Some(0);
    spell.save = None;
    let decoded = Spell::from_record(&spell.to_record()).expect("decodes");
    assert_eq!(decoded.damage, None);
    assert_eq!(decoded.attack_bonus, Some(0));
    assert_eq!(decoded, spell);
}

#[test]
fn test_item_round_trip_with_nested_inventory() {
    let item = sample_item(true);
    assert_eq!(Item::from_record(&item.to_record()), Ok(item));
}

#[test]
fn test_creature_round_trip() {
    let creature = sample_creature(CreatureType::Monster(MonsterType::Monstrosity));
    assert_eq!(Creature::from_record(&creature.to_record()), Ok(creature));
}

#[test]
fn test_monster_round_trip() {
    let monster = Monster::new(sample_creature(CreatureType::Monster(MonsterType::Beast)));
    assert_eq!(Monster::from_record(&monster.to_record()), Ok(monster));
}

#[test]
fn test_player_round_trip() {
    let player = sample_player();
    assert_eq!(Player::from_record(&player.to_record()), Ok(player));
}

#[test]
fn test_campaign_round_trip() {
    let campaign = sample_campaign();
    assert_eq!(Campaign::from_record(&campaign.to_record()), Ok(campaign));
}

#[test]
fn test_world_round_trip() {
    let world = World::new("Toril".to_string(), "A wide world.".to_string());
    assert_eq!(World::from_record(&world.to_record()), Ok(world));
}

#[test]
fn test_session_round_trip() {
    let mut session = Session::new(
        "Session Zero".to_string(),
        "Introductions.".to_string(),
        "campaign-1".to_string(),
    );
    session.notes.push(Note::new(
        "Hook".to_string(),
        "The letter arrives.".to_string(),
    ));
    session.plan = Plan("Meet the patron.".to_string());
    session.recap = Recap("They met the patron.".to_string());
    assert_eq!(Session::from_record(&session.to_record()), Ok(session));
}

#[test]
fn test_map_and_location_round_trip() {
    let mut map = GameMap::new(
        "map-1".to_string(),
        "The North".to_string(),
        "Snowfields.".to_string(),
        "world-1".to_string(),
        4,
        3,
    );
    map.map[1][2] = "village".to_string();
    let location = Location {
        id: "loc-1".to_string(),
        name: "Frosthollow".to_string(),
        description: "A village under snow.".to_string(),
        world_id: "world-1".to_string(),
        map_coordinates: MapCoordinates::new("map-1".to_string(), 2, 1),
        npcs: vec![NPC::new(
            sample_creature(CreatureType::NPC),
            "world-1".to_string(),
        )],
    };
    map.locations.push(location);
    let decoded = GameMap::from_record(&map.to_record()).expect("decodes");
    assert_eq!(decoded, map);
}

#[test]
fn test_npc_round_trip() {
    let npc = NPC::new(sample_creature(CreatureType::NPC), "world-1".to_string());
    assert_eq!(NPC::from_record(&npc.to_record()), Ok(npc));
}

#[test]
fn test_decode_rejects_wrong_shape() {
    assert_eq!(
        Item::from_record(&Record::Bool(true)),
        Err(DecodeError::Malformed)
    );
    assert_eq!(
        Spell::from_record(&Record::Int(3)),
        Err(DecodeError::Malformed)
    );
    assert_eq!(
        Alignment::from_record(&Record::Tag("NoSuchAlignment".to_string(), vec![])),
        Err(DecodeError::Malformed)
    );
    assert_eq!(
        DieStat::from_record(&Record::Obj(vec![(
            "die_count".to_string(),
            Record::Int(1)
        )])),
        Err(DecodeError::Malformed)
    );
}

#[test]
fn test_decode_rejects_out_of_range_scalars() {
    let record = Record::Tag("Walk".to_string(), vec![Record::Int(300)]);
    assert_eq!(
        MovementSpeed::from_record(&record),
        Err(DecodeError::Malformed)
    );
}
