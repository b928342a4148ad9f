//! Construction, validation and mutation checks for the entity types.

use gamemstr::creature::{
    Creature, CreatureRequest, CreatureType, Health, MovementSpeed, Stat, StatType,
};
use gamemstr::item::{Item, ItemRarity, ItemType};
use gamemstr::spell::{CastingTime, Components, Duration, Spell, SpellLevel, SpellRange};
use gamemstr::world::campaign::Campaign;
use gamemstr::world::map::GameMap;
use gamemstr::world::player::{Class, Player, Race};
use gamemstr::world::World;
use gamemstr::{Alignment, ConstructionError, Die};

fn bare_creature(id: &str, kind: CreatureType) -> Result<Creature, ConstructionError> {
    Creature::new(
        id.to_string(),
        "Shopkeeper".to_string(),
        kind,
        Alignment::NeutralGood,
        10,
        Health::from_dice(2, Die::D8, 1),
        MovementSpeed::Walk(30),
        vec![Stat::from_value(StatType::Charisma, 14)],
        None,
        None,
        None,
        None,
        None,
        None,
        None,
        None,
        "0".to_string(),
        None,
        None,
        None,
        None,
        None,
    )
}

fn bare_item(id: &str) -> Item {
    Item {
        id: id.to_string(),
        name: "Lantern".to_string(),
        item_type: ItemType::WondrousItem,
        rarity: ItemRarity::Common,
        attunement: None,
        weapon_type: None,
        armor_type: None,
        conditions: None,
        attached_spell: None,
        has_charges: None,
        inventory: None,
        others: None,
        actions: None,
    }
}

fn bare_spell(id: i32) -> Spell {
    Spell {
        id,
        name: "Light".to_string(),
        description: "An object sheds light.".to_string(),
        level: SpellLevel::Cantrip,
        casting_time: CastingTime::Action,
        duration: Duration::Hour,
        damage: None,
        range: SpellRange::Touch,
        area: None,
        damage_type: None,
        components: Components::VM,
        attack_bonus: None,
        save: None,
    }
}

#[test]
fn test_stat_modifier_derivation() {
    assert_eq!(Stat::from_value(StatType::Strength, 15).modifier, 2);
    assert_eq!(Stat::from_value(StatType::Dexterity, 8).modifier, -1);
    assert_eq!(Stat::from_value(StatType::Wisdom, 10).modifier, 0);
    assert_eq!(Stat::from_value(StatType::Charisma, 7).modifier, -2);
    assert_eq!(Stat::from_value(StatType::Constitution, 30).modifier, 10);
}

#[test]
fn test_creature_new_rejects_empty_identifier() {
    assert_eq!(
        bare_creature("", CreatureType::NPC).unwrap_err(),
        ConstructionError::EmptyIdentifier
    );
    let creature = bare_creature("npc-1", CreatureType::NPC).expect("non-empty identifier");
    assert_eq!(creature.id(), "npc-1");
    assert_eq!(creature.name(), "Shopkeeper");
}

#[test]
fn test_creature_setters() {
    let mut creature = bare_creature("npc-1", CreatureType::NPC).unwrap();
    creature.set_name("Innkeeper".to_string());
    creature.set_armor_class(12);
    creature.set_description(Some("Runs the inn.".to_string()));
    assert_eq!(creature.name(), "Innkeeper");
    assert_eq!(*creature.armor_class(), 12);
    assert_eq!(creature.description(), Some("Runs the inn."));
    assert_eq!(creature.lair(), None);
}

#[test]
fn test_creature_request_missing_name_fails() {
    let mut request = CreatureRequest::default();
    request.creature_type = Some(CreatureType::NPC);
    request.alignment = Some(Alignment::TrueNeutral);
    request.armor_class = Some(11);
    request.health_points = Some(Health::from_dice(1, Die::D8, 0));
    request.speed = Some(MovementSpeed::Walk(30));
    request.stats = Some(vec![Stat::from_value(StatType::Strength, 10)]);
    request.challenge_rating = Some("0".to_string());
    assert_eq!(
        request.to_creature().unwrap_err(),
        ConstructionError::MissingField
    );
}

#[test]
fn test_creature_request_with_all_required_fields_succeeds() {
    let mut request = CreatureRequest::default();
    request.name = Some("Stray Dog".to_string());
    request.creature_type = Some(CreatureType::NPC);
    request.alignment = Some(Alignment::Unaligned);
    request.armor_class = Some(10);
    request.health_points = Some(Health::from_dice(1, Die::D6, 0));
    request.speed = Some(MovementSpeed::Walk(40));
    request.stats = Some(vec![Stat::from_value(StatType::Dexterity, 13)]);
    request.challenge_rating = Some("0".to_string());
    let creature = request.to_creature().expect("all required fields present");
    assert!(!creature.id().is_empty());
    assert_eq!(creature.name(), "Stray Dog");
    assert_eq!(creature.description(), None);
}

#[test]
fn test_player_new_rejects_non_player_creature() {
    let creature = bare_creature("npc-1", CreatureType::NPC).unwrap();
    let campaign = Campaign::new(
        "Arc".to_string(),
        "An arc.".to_string(),
        "world-1".to_string(),
    );
    assert_eq!(
        Player::new(creature, Race::Human, Class::Fighter, 1, 0, campaign).unwrap_err(),
        ConstructionError::WrongCreatureKind
    );
}

#[test]
fn test_player_inventory_add_and_remove() {
    let creature = bare_creature("pc-1", CreatureType::Player).unwrap();
    let campaign = Campaign::new(
        "Arc".to_string(),
        "An arc.".to_string(),
        "world-1".to_string(),
    );
    let mut player =
        Player::new(creature, Race::Dwarf, Class::Cleric, 2, 300, campaign).unwrap();
    player.add_item(bare_item("a"));
    player.add_item(bare_item("b"));
    player.add_item(bare_item("a"));
    assert_eq!(player.inventory().len(), 3);

    player.remove_item(bare_item("a"));
    assert_eq!(player.inventory().len(), 2);
    assert_eq!(player.inventory()[0].id, "b");
    assert_eq!(player.inventory()[1].id, "a");

    player.remove_item(bare_item("missing"));
    assert_eq!(player.inventory().len(), 2);
}

#[test]
fn test_player_spells_add_and_remove() {
    let creature = bare_creature("pc-2", CreatureType::Player).unwrap();
    let campaign = Campaign::new(
        "Arc".to_string(),
        "An arc.".to_string(),
        "world-1".to_string(),
    );
    let mut player =
        Player::new(creature, Race::Gnome, Class::Wizard, 5, 6500, campaign).unwrap();
    player.add_spell(bare_spell(1));
    player.add_spell(bare_spell(2));
    player.remove_spell(bare_spell(1));
    assert_eq!(player.spells().len(), 1);
    assert_eq!(player.spells()[0].id, 2);
    player.remove_spell(bare_spell(9));
    assert_eq!(player.spells().len(), 1);
}

#[test]
fn test_player_levels_and_experience() {
    let creature = bare_creature("pc-3", CreatureType::Player).unwrap();
    let campaign = Campaign::new(
        "Arc".to_string(),
        "An arc.".to_string(),
        "world-1".to_string(),
    );
    let mut player = Player::new(creature, Race::Elf, Class::Ranger, 1, 0, campaign).unwrap();
    player.set_level(2);
    player.set_experience(300);
    assert_eq!(*player.level(), 2);
    assert_eq!(*player.experience(), 300);
    assert_eq!(player.name(), "Shopkeeper");
    player.set_name("Faelar".to_string());
    assert_eq!(player.name(), "Faelar");
    assert_eq!(player.lair(), None);
}

#[test]
fn test_world_and_campaign_identifiers_are_fresh() {
    let world = World::new("Toril".to_string(), "Wide.".to_string());
    let other = World::new("Toril".to_string(), "Wide.".to_string());
    assert_eq!(world.id.len(), 36);
    assert_eq!(other.id.len(), 36);
    assert_ne!(world.id, other.id);
    let campaign = Campaign::new("Arc".to_string(), "An arc.".to_string(), world.id.clone());
    assert_eq!(campaign.id.len(), 36);
    assert!(campaign.players.is_empty());
}

#[test]
fn test_map_new_builds_empty_grid() {
    let map = GameMap::new(
        "map-1".to_string(),
        "The North".to_string(),
        "Snowfields.".to_string(),
        "world-1".to_string(),
        4,
        3,
    );
    assert_eq!(map.map.len(), 3);
    for row in &map.map {
        assert_eq!(row.len(), 4);
        for cell in row {
            assert_eq!(cell, "");
        }
    }
    assert!(map.locations.is_empty());
}
