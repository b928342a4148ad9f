//! Players: a creature played at the table, with a race, class, level,
//! experience, inventory, spells and campaign.

use vstd::prelude::*;

verus! {

broadcast use vstd::std_specs::vec::axiom_vec_index_decreases, vstd::seq::axiom_seq_index_decreases, vstd::seq::axiom_seq_subrange_decreases;

use crate::action::Action;
use crate::creature::{Creature, CreatureType, CreatureView, Health, Lair, Language, MovementSpeed, RacialTrait, Sense, Skill, Stat};
use crate::item::{Item, ItemView};
use crate::record::{Codec, DecodeError, Record, RecordV, field_views, rec_view, rec_views, str_eq};
use crate::spell::{Spell, SpellView};
use crate::world::campaign::{Campaign, CampaignView, campaign_from_record, campaign_to_record, dec_campaign, enc_campaign, lemma_campaign_round_trip};
use crate::{Alignment, ConditionType, ConstructionError, DamageType, OtherAttribute};

/// A player: a creature of the player kind, with table-side state.
#[derive(Debug, PartialEq)]
pub struct Player {
    creature: Creature,
    race: Race,
    class: Class,
    level: u8,
    experience: u32,
    inventory: Vec<Item>,
    spells: Vec<Spell>,
    campaign: Campaign,
}

/// The mathematical form of a [`Player`].
#[verifier::ext_equal]
pub struct PlayerView {
    pub creature: CreatureView,
    pub race: Race,
    pub class: Class,
    pub level: u8,
    pub experience: u32,
    pub inventory: Seq<ItemView>,
    pub spells: Seq<SpellView>,
    pub campaign: CampaignView,
}

/// The mathematical form of a player, spelled out so the recursion through
/// its campaign is visibly well-founded.
pub closed spec fn player_view(p: Player) -> PlayerView
    decreases p,
{
    PlayerView {
        creature: p.creature.deep_view(),
        race: p.race,
        class: p.class,
        level: p.level,
        experience: p.experience,
        inventory: p.inventory.deep_view(),
        spells: p.spells.deep_view(),
        campaign: crate::world::campaign::campaign_view(p.campaign),
    }
}

/// The mathematical forms of a vector of players.
pub open spec fn players_view(v: Vec<Player>) -> Seq<PlayerView>
    decreases v,
{
    Seq::new(
        v@.len(),
        |j: int|
            if 0 <= j < v@.len() {
                player_view(v@[j])
            } else {
                vstd::pervasive::arbitrary()
            },
    )
}

impl DeepView for Player {
    type V = PlayerView;

    closed spec fn deep_view(&self) -> PlayerView {
        player_view(*self)
    }
}

/// A player character's race.
#[derive(Debug, Clone, Copy, PartialEq, Eq, Structural)]
pub enum Race {
    Human,
    Elf,
    Dwarf,
    Halfling,
    Gnome,
    HalfElf,
    HalfOrc,
    Tiefling,
}

impl DeepView for Race {
    type V = Race;

    open spec fn deep_view(&self) -> Race {
        *self
    }
}

impl Race {
    /// The display text of this race: its name.
    pub open spec fn spec_display(self) -> Seq<char> {
        match self {
            Race::Human => "Human"@,
            Race::Elf => "Elf"@,
            Race::Dwarf => "Dwarf"@,
            Race::Halfling => "Halfling"@,
            Race::Gnome => "Gnome"@,
            Race::HalfElf => "HalfElf"@,
            Race::HalfOrc => "HalfOrc"@,
            Race::Tiefling => "Tiefling"@,
        }
    }

    /// Renders the display text of this value.
    pub fn to_string(&self) -> (s: String)
        ensures
            s@ == self.spec_display(),
    {
        match self {
            Race::Human => String::from_str("Human"),
            Race::Elf => String::from_str("Elf"),
            Race::Dwarf => String::from_str("Dwarf"),
            Race::Halfling => String::from_str("Halfling"),
            Race::Gnome => String::from_str("Gnome"),
            Race::HalfElf => String::from_str("HalfElf"),
            Race::HalfOrc => String::from_str("HalfOrc"),
            Race::Tiefling => String::from_str("Tiefling"),
        }
    }
}

impl Codec for Race {
    open spec fn spec_enc(v: Race) -> RecordV {
        match v {
            Race::Human => RecordV::Tag("Human"@, Seq::empty()),
            Race::Elf => RecordV::Tag("Elf"@, Seq::empty()),
            Race::Dwarf => RecordV::Tag("Dwarf"@, Seq::empty()),
            Race::Halfling => RecordV::Tag("Halfling"@, Seq::empty()),
            Race::Gnome => RecordV::Tag("Gnome"@, Seq::empty()),
            Race::HalfElf => RecordV::Tag("HalfElf"@, Seq::empty()),
            Race::HalfOrc => RecordV::Tag("HalfOrc"@, Seq::empty()),
            Race::Tiefling => RecordV::Tag("Tiefling"@, Seq::empty()),
        }
    }

    open spec fn spec_dec(r: RecordV) -> Option<Race> {
        match r {
            RecordV::Tag(t, args) => {
                if t == "Human"@ && args.len() == 0 {
                    Some(Race::Human)
                } else if t == "Elf"@ && args.len() == 0 {
                    Some(Race::Elf)
                } else if t == "Dwarf"@ && args.len() == 0 {
                    Some(Race::Dwarf)
                } else if t == "Halfling"@ && args.len() == 0 {
                    Some(Race::Halfling)
                } else if t == "Gnome"@ && args.len() == 0 {
                    Some(Race::Gnome)
                } else if t == "HalfElf"@ && args.len() == 0 {
                    Some(Race::HalfElf)
                } else if t == "HalfOrc"@ && args.len() == 0 {
                    Some(Race::HalfOrc)
                } else if t == "Tiefling"@ && args.len() == 0 {
                    Some(Race::Tiefling)
                } else {
                    None
                }
            },
            _ => None,
        }
    }

    fn to_record(&self) -> (r: Record) {
        match self {
            Race::Human => {
                let r = Record::Tag(String::from_str("Human"), Vec::new());
                proof {
                    assert(rec_views(Seq::<Record>::empty()) =~= Seq::<RecordV>::empty());
                }
                r
            },
            Race::Elf => {
                let r = Record::Tag(String::from_str("Elf"), Vec::new());
                proof {
                    assert(rec_views(Seq::<Record>::empty()) =~= Seq::<RecordV>::empty());
                }
                r
            },
            Race::Dwarf => {
                let r = Record::Tag(String::from_str("Dwarf"), Vec::new());
                proof {
                    assert(rec_views(Seq::<Record>::empty()) =~= Seq::<RecordV>::empty());
                }
                r
            },
            Race::Halfling => {
                let r = Record::Tag(String::from_str("Halfling"), Vec::new());
                proof {
                    assert(rec_views(Seq::<Record>::empty()) =~= Seq::<RecordV>::empty());
                }
                r
            },
            Race::Gnome => {
                let r = Record::Tag(String::from_str("Gnome"), Vec::new());
                proof {
                    assert(rec_views(Seq::<Record>::empty()) =~= Seq::<RecordV>::empty());
                }
                r
            },
            Race::HalfElf => {
                let r = Record::Tag(String::from_str("HalfElf"), Vec::new());
                proof {
                    assert(rec_views(Seq::<Record>::empty()) =~= Seq::<RecordV>::empty());
                }
                r
            },
            Race::HalfOrc => {
                let r = Record::Tag(String::from_str("HalfOrc"), Vec::new());
                proof {
                    assert(rec_views(Seq::<Record>::empty()) =~= Seq::<RecordV>::empty());
                }
                r
            },
            Race::Tiefling => {
                let r = Record::Tag(String::from_str("Tiefling"), Vec::new());
                proof {
                    assert(rec_views(Seq::<Record>::empty()) =~= Seq::<RecordV>::empty());
                }
                r
            },
        }
    }

    fn from_record(r: &Record) -> (res: Result<Race, DecodeError>) {
        match r {
            Record::Tag(t, args) => {
                if str_eq(t.as_str(), "Human") && args.len() == 0 {
                    Ok(Race::Human)
                } else if str_eq(t.as_str(), "Elf") && args.len() == 0 {
                    Ok(Race::Elf)
                } else if str_eq(t.as_str(), "Dwarf") && args.len() == 0 {
                    Ok(Race::Dwarf)
                } else if str_eq(t.as_str(), "Halfling") && args.len() == 0 {
                    Ok(Race::Halfling)
                } else if str_eq(t.as_str(), "Gnome") && args.len() == 0 {
                    Ok(Race::Gnome)
                } else if str_eq(t.as_str(), "HalfElf") && args.len() == 0 {
                    Ok(Race::HalfElf)
                } else if str_eq(t.as_str(), "HalfOrc") && args.len() == 0 {
                    Ok(Race::HalfOrc)
                } else if str_eq(t.as_str(), "Tiefling") && args.len() == 0 {
                    Ok(Race::Tiefling)
                } else {
                    Err(DecodeError::Malformed)
                }
            },
            _ => Err(DecodeError::Malformed),
        }
    }

    proof fn lemma_round_trip(v: Race) {
        reveal_strlit("Human");
        reveal_strlit("Elf");
        reveal_strlit("Dwarf");
        reveal_strlit("Halfling");
        reveal_strlit("Gnome");
        reveal_strlit("HalfElf");
        reveal_strlit("HalfOrc");
        reveal_strlit("Tiefling");
        assert(("Elf"@) != ("Human"@)) by {
            assert(("Elf"@)[0] == 'E');
            assert(("Human"@)[0] == 'H');
        }
        assert(("Dwarf"@) != ("Human"@)) by {
            assert(("Dwarf"@)[0] == 'D');
            assert(("Human"@)[0] == 'H');
        }
        assert(("Dwarf"@) != ("Elf"@)) by {
            assert(("Dwarf"@)[0] == 'D');
            assert(("Elf"@)[0] == 'E');
        }
        assert(("Halfling"@) != ("Human"@)) by {
            assert(("Halfling"@)[1] == 'a');
            assert(("Human"@)[1] == 'u');
        }
        assert(("Halfling"@) != ("Elf"@)) by {
            assert(("Halfling"@)[0] == 'H');
            assert(("Elf"@)[0] == 'E');
        }
        assert(("Halfling"@) != ("Dwarf"@)) by {
            assert(("Halfling"@)[0] == 'H');
            assert(("Dwarf"@)[0] == 'D');
        }
        assert(("Gnome"@) != ("Human"@)) by {
            assert(("Gnome"@)[0] == 'G');
            assert(("Human"@)[0] == 'H');
        }
        assert(("Gnome"@) != ("Elf"@)) by {
            assert(("Gnome"@)[0] == 'G');
            assert(("Elf"@)[0] == 'E');
        }
        assert(("Gnome"@) != ("Dwarf"@)) by {
            assert(("Gnome"@)[0] == 'G');
            assert(("Dwarf"@)[0] == 'D');
        }
        assert(("Gnome"@) != ("Halfling"@)) by {
            assert(("Gnome"@)[0] == 'G');
            assert(("Halfling"@)[0] == 'H');
        }
        assert(("HalfElf"@) != ("Human"@)) by {
            assert(("HalfElf"@)[1] == 'a');
            assert(("Human"@)[1] == 'u');
        }
        assert(("HalfElf"@) != ("Elf"@)) by {
            assert(("HalfElf"@)[0] == 'H');
            assert(("Elf"@)[0] == 'E');
        }
        assert(("HalfElf"@) != ("Dwarf"@)) by {
            assert(("HalfElf"@)[0] == 'H');
            assert(("Dwarf"@)[0] == 'D');
        }
        assert(("HalfElf"@) != ("Halfling"@)) by {
            assert(("HalfElf"@)[4] == 'E');
            assert(("Halfling"@)[4] == 'l');
        }
        assert(("HalfElf"@) != ("Gnome"@)) by {
            assert(("HalfElf"@)[0] == 'H');
            assert(("Gnome"@)[0] == 'G');
        }
        assert(("HalfOrc"@) != ("Human"@)) by {
            assert(("HalfOrc"@)[1] == 'a');
            assert(("Human"@)[1] == 'u');
        }
        assert(("HalfOrc"@) != ("Elf"@)) by {
            assert(("HalfOrc"@)[0] == 'H');
            assert(("Elf"@)[0] == 'E');
        }
        assert(("HalfOrc"@) != ("Dwarf"@)) by {
            assert(("HalfOrc"@)[0] == 'H');
            assert(("Dwarf"@)[0] == 'D');
        }
        assert(("HalfOrc"@) != ("Halfling"@)) by {
            assert(("HalfOrc"@)[4] == 'O');
            assert(("Halfling"@)[4] == 'l');
        }
        assert(("HalfOrc"@) != ("Gnome"@)) by {
            assert(("HalfOrc"@)[0] == 'H');
            assert(("Gnome"@)[0] == 'G');
        }
        assert(("HalfOrc"@) != ("HalfElf"@)) by {
            assert(("HalfOrc"@)[4] == 'O');
            assert(("HalfElf"@)[4] == 'E');
        }
        assert(("Tiefling"@) != ("Human"@)) by {
            assert(("Tiefling"@)[0] == 'T');
            assert(("Human"@)[0] == 'H');
        }
        assert(("Tiefling"@) != ("Elf"@)) by {
            assert(("Tiefling"@)[0] == 'T');
            assert(("Elf"@)[0] == 'E');
        }
        assert(("Tiefling"@) != ("Dwarf"@)) by {
            assert(("Tiefling"@)[0] == 'T');
            assert(("Dwarf"@)[0] == 'D');
        }
        assert(("Tiefling"@) != ("Halfling"@)) by {
            assert(("Tiefling"@)[0] == 'T');
            assert(("Halfling"@)[0] == 'H');
        }
        assert(("Tiefling"@) != ("Gnome"@)) by {
            assert(("Tiefling"@)[0] == 'T');
            assert(("Gnome"@)[0] == 'G');
        }
        assert(("Tiefling"@) != ("HalfElf"@)) by {
            assert(("Tiefling"@)[0] == 'T');
            assert(("HalfElf"@)[0] == 'H');
        }
        assert(("Tiefling"@) != ("HalfOrc"@)) by {
            assert(("Tiefling"@)[0] == 'T');
            assert(("HalfOrc"@)[0] == 'H');
        }
        match v {
            Race::Human => {
                assert(Self::spec_dec(Self::spec_enc(Race::Human)) == Some(Race::Human));
            },
            Race::Elf => {
                assert(Self::spec_dec(Self::spec_enc(Race::Elf)) == Some(Race::Elf));
            },
            Race::Dwarf => {
                assert(Self::spec_dec(Self::spec_enc(Race::Dwarf)) == Some(Race::Dwarf));
            },
            Race::Halfling => {
                assert(Self::spec_dec(Self::spec_enc(Race::Halfling)) == Some(Race::Halfling));
            },
            Race::Gnome => {
                assert(Self::spec_dec(Self::spec_enc(Race::Gnome)) == Some(Race::Gnome));
            },
            Race::HalfElf => {
                assert(Self::spec_dec(Self::spec_enc(Race::HalfElf)) == Some(Race::HalfElf));
            },
            Race::HalfOrc => {
                assert(Self::spec_dec(Self::spec_enc(Race::HalfOrc)) == Some(Race::HalfOrc));
            },
            Race::Tiefling => {
                assert(Self::spec_dec(Self::spec_enc(Race::Tiefling)) == Some(Race::Tiefling));
            },
        }
    }
}

/// A player character's class.
#[derive(Debug, Clone, Copy, PartialEq, Eq, Structural)]
pub enum Class {
    Barbarian,
    Bard,
    Cleric,
    Druid,
    Fighter,
    Monk,
    Paladin,
    Ranger,
    Rogue,
    Sorcerer,
    Warlock,
    Wizard,
}

impl DeepView for Class {
    type V = Class;

    open spec fn deep_view(&self) -> Class {
        *self
    }
}

impl Class {
    /// The display text of this class: its name.
    pub open spec fn spec_display(self) -> Seq<char> {
        match self {
            Class::Barbarian => "Barbarian"@,
            Class::Bard => "Bard"@,
            Class::Cleric => "Cleric"@,
            Class::Druid => "Druid"@,
            Class::Fighter => "Fighter"@,
            Class::Monk => "Monk"@,
            Class::Paladin => "Paladin"@,
            Class::Ranger => "Ranger"@,
            Class::Rogue => "Rogue"@,
            Class::Sorcerer => "Sorcerer"@,
            Class::Warlock => "Warlock"@,
            Class::Wizard => "Wizard"@,
        }
    }

    /// Renders the display text of this value.
    pub fn to_string(&self) -> (s: String)
        ensures
            s@ == self.spec_display(),
    {
        match self {
            Class::Barbarian => String::from_str("Barbarian"),
            Class::Bard => String::from_str("Bard"),
            Class::Cleric => String::from_str("Cleric"),
            Class::Druid => String::from_str("Druid"),
            Class::Fighter => String::from_str("Fighter"),
            Class::Monk => String::from_str("Monk"),
            Class::Paladin => String::from_str("Paladin"),
            Class::Ranger => String::from_str("Ranger"),
            Class::Rogue => String::from_str("Rogue"),
            Class::Sorcerer => String::from_str("Sorcerer"),
            Class::Warlock => String::from_str("Warlock"),
            Class::Wizard => String::from_str("Wizard"),
        }
    }
}

impl Codec for Class {
    open spec fn spec_enc(v: Class) -> RecordV {
        match v {
            Class::Barbarian => RecordV::Tag("Barbarian"@, Seq::empty()),
            Class::Bard => RecordV::Tag("Bard"@, Seq::empty()),
            Class::Cleric => RecordV::Tag("Cleric"@, Seq::empty()),
            Class::Druid => RecordV::Tag("Druid"@, Seq::empty()),
            Class::Fighter => RecordV::Tag("Fighter"@, Seq::empty()),
            Class::Monk => RecordV::Tag("Monk"@, Seq::empty()),
            Class::Paladin => RecordV::Tag("Paladin"@, Seq::empty()),
            Class::Ranger => RecordV::Tag("Ranger"@, Seq::empty()),
            Class::Rogue => RecordV::Tag("Rogue"@, Seq::empty()),
            Class::Sorcerer => RecordV::Tag("Sorcerer"@, Seq::empty()),
            Class::Warlock => RecordV::Tag("Warlock"@, Seq::empty()),
            Class::Wizard => RecordV::Tag("Wizard"@, Seq::empty()),
        }
    }

    open spec fn spec_dec(r: RecordV) -> Option<Class> {
        match r {
            RecordV::Tag(t, args) => {
                if t == "Barbarian"@ && args.len() == 0 {
                    Some(Class::Barbarian)
                } else if t == "Bard"@ && args.len() == 0 {
                    Some(Class::Bard)
                } else if t == "Cleric"@ && args.len() == 0 {
                    Some(Class::Cleric)
                } else if t == "Druid"@ && args.len() == 0 {
                    Some(Class::Druid)
                } else if t == "Fighter"@ && args.len() == 0 {
                    Some(Class::Fighter)
                } else if t == "Monk"@ && args.len() == 0 {
                    Some(Class::Monk)
                } else if t == "Paladin"@ && args.len() == 0 {
                    Some(Class::Paladin)
                } else if t == "Ranger"@ && args.len() == 0 {
                    Some(Class::Ranger)
                } else if t == "Rogue"@ && args.len() == 0 {
                    Some(Class::Rogue)
                } else if t == "Sorcerer"@ && args.len() == 0 {
                    Some(Class::Sorcerer)
                } else if t == "Warlock"@ && args.len() == 0 {
                    Some(Class::Warlock)
                } else if t == "Wizard"@ && args.len() == 0 {
                    Some(Class::Wizard)
                } else {
                    None
                }
            },
            _ => None,
        }
    }

    fn to_record(&self) -> (r: Record) {
        match self {
            Class::Barbarian => {
                let r = Record::Tag(String::from_str("Barbarian"), Vec::new());
                proof {
                    assert(rec_views(Seq::<Record>::empty()) =~= Seq::<RecordV>::empty());
                }
                r
            },
            Class::Bard => {
                let r = Record::Tag(String::from_str("Bard"), Vec::new());
                proof {
                    assert(rec_views(Seq::<Record>::empty()) =~= Seq::<RecordV>::empty());
                }
                r
            },
            Class::Cleric => {
                let r = Record::Tag(String::from_str("Cleric"), Vec::new());
                proof {
                    assert(rec_views(Seq::<Record>::empty()) =~= Seq::<RecordV>::empty());
                }
                r
            },
            Class::Druid => {
                let r = Record::Tag(String::from_str("Druid"), Vec::new());
                proof {
                    assert(rec_views(Seq::<Record>::empty()) =~= Seq::<RecordV>::empty());
                }
                r
            },
            Class::Fighter => {
                let r = Record::Tag(String::from_str("Fighter"), Vec::new());
                proof {
                    assert(rec_views(Seq::<Record>::empty()) =~= Seq::<RecordV>::empty());
                }
                r
            },
            Class::Monk => {
                let r = Record::Tag(String::from_str("Monk"), Vec::new());
                proof {
                    assert(rec_views(Seq::<Record>::empty()) =~= Seq::<RecordV>::empty());
                }
                r
            },
            Class::Paladin => {
                let r = Record::Tag(String::from_str("Paladin"), Vec::new());
                proof {
                    assert(rec_views(Seq::<Record>::empty()) =~= Seq::<RecordV>::empty());
                }
                r
            },
            Class::Ranger => {
                let r = Record::Tag(String::from_str("Ranger"), Vec::new());
                proof {
                    assert(rec_views(Seq::<Record>::empty()) =~= Seq::<RecordV>::empty());
                }
                r
            },
            Class::Rogue => {
                let r = Record::Tag(String::from_str("Rogue"), Vec::new());
                proof {
                    assert(rec_views(Seq::<Record>::empty()) =~= Seq::<RecordV>::empty());
                }
                r
            },
            Class::Sorcerer => {
                let r = Record::Tag(String::from_str("Sorcerer"), Vec::new());
                proof {
                    assert(rec_views(Seq::<Record>::empty()) =~= Seq::<RecordV>::empty());
                }
                r
            },
            Class::Warlock => {
                let r = Record::Tag(String::from_str("Warlock"), Vec::new());
                proof {
                    assert(rec_views(Seq::<Record>::empty()) =~= Seq::<RecordV>::empty());
                }
                r
            },
            Class::Wizard => {
                let r = Record::Tag(String::from_str("Wizard"), Vec::new());
                proof {
                    assert(rec_views(Seq::<Record>::empty()) =~= Seq::<RecordV>::empty());
                }
                r
            },
        }
    }

    fn from_record(r: &Record) -> (res: Result<Class, DecodeError>) {
        match r {
            Record::Tag(t, args) => {
                if str_eq(t.as_str(), "Barbarian") && args.len() == 0 {
                    Ok(Class::Barbarian)
                } else if str_eq(t.as_str(), "Bard") && args.len() == 0 {
                    Ok(Class::Bard)
                } else if str_eq(t.as_str(), "Cleric") && args.len() == 0 {
                    Ok(Class::Cleric)
                } else if str_eq(t.as_str(), "Druid") && args.len() == 0 {
                    Ok(Class::Druid)
                } else if str_eq(t.as_str(), "Fighter") && args.len() == 0 {
                    Ok(Class::Fighter)
                } else if str_eq(t.as_str(), "Monk") && args.len() == 0 {
                    Ok(Class::Monk)
                } else if str_eq(t.as_str(), "Paladin") && args.len() == 0 {
                    Ok(Class::Paladin)
                } else if str_eq(t.as_str(), "Ranger") && args.len() == 0 {
                    Ok(Class::Ranger)
                } else if str_eq(t.as_str(), "Rogue") && args.len() == 0 {
                    Ok(Class::Rogue)
                } else if str_eq(t.as_str(), "Sorcerer") && args.len() == 0 {
                    Ok(Class::Sorcerer)
                } else if str_eq(t.as_str(), "Warlock") && args.len() == 0 {
                    Ok(Class::Warlock)
                } else if str_eq(t.as_str(), "Wizard") && args.len() == 0 {
                    Ok(Class::Wizard)
                } else {
                    Err(DecodeError::Malformed)
                }
            },
            _ => Err(DecodeError::Malformed),
        }
    }

    proof fn lemma_round_trip(v: Class) {
        reveal_strlit("Barbarian");
        reveal_strlit("Bard");
        reveal_strlit("Cleric");
        reveal_strlit("Druid");
        reveal_strlit("Fighter");
        reveal_strlit("Monk");
        reveal_strlit("Paladin");
        reveal_strlit("Ranger");
        reveal_strlit("Rogue");
        reveal_strlit("Sorcerer");
        reveal_strlit("Warlock");
        reveal_strlit("Wizard");
        assert(("Bard"@) != ("Barbarian"@)) by {
            assert(("Bard"@)[3] == 'd');
            assert(("Barbarian"@)[3] == 'b');
        }
        assert(("Cleric"@) != ("Barbarian"@)) by {
            assert(("Cleric"@)[0] == 'C');
            assert(("Barbarian"@)[0] == 'B');
        }
        assert(("Cleric"@) != ("Bard"@)) by {
            assert(("Cleric"@)[0] == 'C');
            assert(("Bard"@)[0] == 'B');
        }
        assert(("Druid"@) != ("Barbarian"@)) by {
            assert(("Druid"@)[0] == 'D');
            assert(("Barbarian"@)[0] == 'B');
        }
        assert(("Druid"@) != ("Bard"@)) by {
            assert(("Druid"@)[0] == 'D');
            assert(("Bard"@)[0] == 'B');
        }
        assert(("Druid"@) != ("Cleric"@)) by {
            assert(("Druid"@)[0] == 'D');
            assert(("Cleric"@)[0] == 'C');
        }
        assert(("Fighter"@) != ("Barbarian"@)) by {
            assert(("Fighter"@)[0] == 'F');
            assert(("Barbarian"@)[0] == 'B');
        }
        assert(("Fighter"@) != ("Bard"@)) by {
            assert(("Fighter"@)[0] == 'F');
            assert(("Bard"@)[0] == 'B');
        }
        assert(("Fighter"@) != ("Cleric"@)) by {
            assert(("Fighter"@)[0] == 'F');
            assert(("Cleric"@)[0] == 'C');
        }
        assert(("Fighter"@) != ("Druid"@)) by {
            assert(("Fighter"@)[0] == 'F');
            assert(("Druid"@)[0] == 'D');
        }
        assert(("Monk"@) != ("Barbarian"@)) by {
            assert(("Monk"@)[0] == 'M');
            assert(("Barbarian"@)[0] == 'B');
        }
        assert(("Monk"@) != ("Bard"@)) by {
            assert(("Monk"@)[0] == 'M');
            assert(("Bard"@)[0] == 'B');
        }
        assert(("Monk"@) != ("Cleric"@)) by {
            assert(("Monk"@)[0] == 'M');
            assert(("Cleric"@)[0] == 'C');
        }
        assert(("Monk"@) != ("Druid"@)) by {
            assert(("Monk"@)[0] == 'M');
            assert(("Druid"@)[0] == 'D');
        }
        assert(("Monk"@) != ("Fighter"@)) by {
            assert(("Monk"@)[0] == 'M');
            assert(("Fighter"@)[0] == 'F');
        }
        assert(("Paladin"@) != ("Barbarian"@)) by {
            assert(("Paladin"@)[0] == 'P');
            assert(("Barbarian"@)[0] == 'B');
        }
        assert(("Paladin"@) != ("Bard"@)) by {
            assert(("Paladin"@)[0] == 'P');
            assert(("Bard"@)[0] == 'B');
        }
        assert(("Paladin"@) != ("Cleric"@)) by {
            assert(("Paladin"@)[0] == 'P');
            assert(("Cleric"@)[0] == 'C');
        }
        assert(("Paladin"@) != ("Druid"@)) by {
            assert(("Paladin"@)[0] == 'P');
            assert(("Druid"@)[0] == 'D');
        }
        assert(("Paladin"@) != ("Fighter"@)) by {
            assert(("Paladin"@)[0] == 'P');
            assert(("Fighter"@)[0] == 'F');
        }
        assert(("Paladin"@) != ("Monk"@)) by {
            assert(("Paladin"@)[0] == 'P');
            assert(("Monk"@)[0] == 'M');
        }
        assert(("Ranger"@) != ("Barbarian"@)) by {
            assert(("Ranger"@)[0] == 'R');
            assert(("Barbarian"@)[0] == 'B');
        }
        assert(("Ranger"@) != ("Bard"@)) by {
            assert(("Ranger"@)[0] == 'R');
            assert(("Bard"@)[0] == 'B');
        }
        assert(("Ranger"@) != ("Cleric"@)) by {
            assert(("Ranger"@)[0] == 'R');
            assert(("Cleric"@)[0] == 'C');
        }
        assert(("Ranger"@) != ("Druid"@)) by {
            assert(("Ranger"@)[0] == 'R');
            assert(("Druid"@)[0] == 'D');
        }
        assert(("Ranger"@) != ("Fighter"@)) by {
            assert(("Ranger"@)[0] == 'R');
            assert(("Fighter"@)[0] == 'F');
        }
        assert(("Ranger"@) != ("Monk"@)) by {
            assert(("Ranger"@)[0] == 'R');
            assert(("Monk"@)[0] == 'M');
        }
        assert(("Ranger"@) != ("Paladin"@)) by {
            assert(("Ranger"@)[0] == 'R');
            assert(("Paladin"@)[0] == 'P');
        }
        assert(("Rogue"@) != ("Barbarian"@)) by {
            assert(("Rogue"@)[0] == 'R');
            assert(("Barbarian"@)[0] == 'B');
        }
        assert(("Rogue"@) != ("Bard"@)) by {
            assert(("Rogue"@)[0] == 'R');
            assert(("Bard"@)[0] == 'B');
        }
        assert(("Rogue"@) != ("Cleric"@)) by {
            assert(("Rogue"@)[0] == 'R');
            assert(("Cleric"@)[0] == 'C');
        }
        assert(("Rogue"@) != ("Druid"@)) by {
            assert(("Rogue"@)[0] == 'R');
            assert(("Druid"@)[0] == 'D');
        }
        assert(("Rogue"@) != ("Fighter"@)) by {
            assert(("Rogue"@)[0] == 'R');
            assert(("Fighter"@)[0] == 'F');
        }
        assert(("Rogue"@) != ("Monk"@)) by {
            assert(("Rogue"@)[0] == 'R');
            assert(("Monk"@)[0] == 'M');
        }
        assert(("Rogue"@) != ("Paladin"@)) by {
            assert(("Rogue"@)[0] == 'R');
            assert(("Paladin"@)[0] == 'P');
        }
        assert(("Rogue"@) != ("Ranger"@)) by {
            assert(("Rogue"@)[1] == 'o');
            assert(("Ranger"@)[1] == 'a');
        }
        assert(("Sorcerer"@) != ("Barbarian"@)) by {
            assert(("Sorcerer"@)[0] == 'S');
            assert(("Barbarian"@)[0] == 'B');
        }
        assert(("Sorcerer"@) != ("Bard"@)) by {
            assert(("Sorcerer"@)[0] == 'S');
            assert(("Bard"@)[0] == 'B');
        }
        assert(("Sorcerer"@) != ("Cleric"@)) by {
            assert(("Sorcerer"@)[0] == 'S');
            assert(("Cleric"@)[0] == 'C');
        }
        assert(("Sorcerer"@) != ("Druid"@)) by {
            assert(("Sorcerer"@)[0] == 'S');
            assert(("Druid"@)[0] == 'D');
        }
        assert(("Sorcerer"@) != ("Fighter"@)) by {
            assert(("Sorcerer"@)[0] == 'S');
            assert(("Fighter"@)[0] == 'F');
        }
        assert(("Sorcerer"@) != ("Monk"@)) by {
            assert(("Sorcerer"@)[0] == 'S');
            assert(("Monk"@)[0] == 'M');
        }
        assert(("Sorcerer"@) != ("Paladin"@)) by {
            assert(("Sorcerer"@)[0] == 'S');
            assert(("Paladin"@)[0] == 'P');
        }
        assert(("Sorcerer"@) != ("Ranger"@)) by {
            assert(("Sorcerer"@)[0] == 'S');
            assert(("Ranger"@)[0] == 'R');
        }
        assert(("Sorcerer"@) != ("Rogue"@)) by {
            assert(("Sorcerer"@)[0] == 'S');
            assert(("Rogue"@)[0] == 'R');
        }
        assert(("Warlock"@) != ("Barbarian"@)) by {
            assert(("Warlock"@)[0] == 'W');
            assert(("Barbarian"@)[0] == 'B');
        }
        assert(("Warlock"@) != ("Bard"@)) by {
            assert(("Warlock"@)[0] == 'W');
            assert(("Bard"@)[0] == 'B');
        }
        assert(("Warlock"@) != ("Cleric"@)) by {
            assert(("Warlock"@)[0] == 'W');
            assert(("Cleric"@)[0] == 'C');
        }
        assert(("Warlock"@) != ("Druid"@)) by {
            assert(("Warlock"@)[0] == 'W');
            assert(("Druid"@)[0] == 'D');
        }
        assert(("Warlock"@) != ("Fighter"@)) by {
            assert(("Warlock"@)[0] == 'W');
            assert(("Fighter"@)[0] == 'F');
        }
        assert(("Warlock"@) != ("Monk"@)) by {
            assert(("Warlock"@)[0] == 'W');
            assert(("Monk"@)[0] == 'M');
        }
        assert(("Warlock"@) != ("Paladin"@)) by {
            assert(("Warlock"@)[0] == 'W');
            assert(("Paladin"@)[0] == 'P');
        }
        assert(("Warlock"@) != ("Ranger"@)) by {
            assert(("Warlock"@)[0] == 'W');
            assert(("Ranger"@)[0] == 'R');
        }
        assert(("Warlock"@) != ("Rogue"@)) by {
            assert(("Warlock"@)[0] == 'W');
            assert(("Rogue"@)[0] == 'R');
        }
        assert(("Warlock"@) != ("Sorcerer"@)) by {
            assert(("Warlock"@)[0] == 'W');
            assert(("Sorcerer"@)[0] == 'S');
        }
        assert(("Wizard"@) != ("Barbarian"@)) by {
            assert(("Wizard"@)[0] == 'W');
            assert(("Barbarian"@)[0] == 'B');
        }
        assert(("Wizard"@) != ("Bard"@)) by {
            assert(("Wizard"@)[0] == 'W');
            assert(("Bard"@)[0] == 'B');
        }
        assert(("Wizard"@) != ("Cleric"@)) by {
            assert(("Wizard"@)[0] == 'W');
            assert(("Cleric"@)[0] == 'C');
        }
        assert(("Wizard"@) != ("Druid"@)) by {
            assert(("Wizard"@)[0] == 'W');
            assert(("Druid"@)[0] == 'D');
        }
        assert(("Wizard"@) != ("Fighter"@)) by {
            assert(("Wizard"@)[0] == 'W');
            assert(("Fighter"@)[0] == 'F');
        }
        assert(("Wizard"@) != ("Monk"@)) by {
            assert(("Wizard"@)[0] == 'W');
            assert(("Monk"@)[0] == 'M');
        }
        assert(("Wizard"@) != ("Paladin"@)) by {
            assert(("Wizard"@)[0] == 'W');
            assert(("Paladin"@)[0] == 'P');
        }
        assert(("Wizard"@) != ("Ranger"@)) by {
            assert(("Wizard"@)[0] == 'W');
            assert(("Ranger"@)[0] == 'R');
        }
        assert(("Wizard"@) != ("Rogue"@)) by {
            assert(("Wizard"@)[0] == 'W');
            assert(("Rogue"@)[0] == 'R');
        }
        assert(("Wizard"@) != ("Sorcerer"@)) by {
            assert(("Wizard"@)[0] == 'W');
            assert(("Sorcerer"@)[0] == 'S');
        }
        assert(("Wizard"@) != ("Warlock"@)) by {
            assert(("Wizard"@)[1] == 'i');
            assert(("Warlock"@)[1] == 'a');
        }
        match v {
            Class::Barbarian => {
                assert(Self::spec_dec(Self::spec_enc(Class::Barbarian)) == Some(Class::Barbarian));
            },
            Class::Bard => {
                assert(Self::spec_dec(Self::spec_enc(Class::Bard)) == Some(Class::Bard));
            },
            Class::Cleric => {
                assert(Self::spec_dec(Self::spec_enc(Class::Cleric)) == Some(Class::Cleric));
            },
            Class::Druid => {
                assert(Self::spec_dec(Self::spec_enc(Class::Druid)) == Some(Class::Druid));
            },
            Class::Fighter => {
                assert(Self::spec_dec(Self::spec_enc(Class::Fighter)) == Some(Class::Fighter));
            },
            Class::Monk => {
                assert(Self::spec_dec(Self::spec_enc(Class::Monk)) == Some(Class::Monk));
            },
            Class::Paladin => {
                assert(Self::spec_dec(Self::spec_enc(Class::Paladin)) == Some(Class::Paladin));
            },
            Class::Ranger => {
                assert(Self::spec_dec(Self::spec_enc(Class::Ranger)) == Some(Class::Ranger));
            },
            Class::Rogue => {
                assert(Self::spec_dec(Self::spec_enc(Class::Rogue)) == Some(Class::Rogue));
            },
            Class::Sorcerer => {
                assert(Self::spec_dec(Self::spec_enc(Class::Sorcerer)) == Some(Class::Sorcerer));
            },
            Class::Warlock => {
                assert(Self::spec_dec(Self::spec_enc(Class::Warlock)) == Some(Class::Warlock));
            },
            Class::Wizard => {
                assert(Self::spec_dec(Self::spec_enc(Class::Wizard)) == Some(Class::Wizard));
            },
        }
    }
}

/// The position of the first item bearing `id`, if any.
pub open spec fn find_item(s: Seq<ItemView>, id: Seq<char>) -> Option<int>
    decreases s.len(),
{
    if s.len() == 0 {
        None
    } else if s[0].id == id {
        Some(0int)
    } else {
        match find_item(s.drop_first(), id) {
            Some(k) => Some(k + 1),
            None => None,
        }
    }
}

/// The position of the first spell bearing `id`, if any.
pub open spec fn find_spell(s: Seq<SpellView>, id: i32) -> Option<int>
    decreases s.len(),
{
    if s.len() == 0 {
        None
    } else if s[0].id == id {
        Some(0int)
    } else {
        match find_spell(s.drop_first(), id) {
            Some(k) => Some(k + 1),
            None => None,
        }
    }
}

/// A scan that saw no match through position `i` pins down `find_item`.
proof fn lemma_find_item_at(s: Seq<ItemView>, id: Seq<char>, i: int)
    requires
        0 <= i <= s.len(),
        forall|j: int| 0 <= j < i ==> (#[trigger] s[j]).id != id,
        i < s.len() ==> s[i].id == id,
    ensures
        find_item(s, id) == if i == s.len() {
            None::<int>
        } else {
            Some(i)
        },
    decreases i, s.len(),
{
    if s.len() == 0 {
    } else if i == 0 {
    } else {
        assert(s[0].id != id);
        assert forall|j: int| 0 <= j < i - 1 implies (#[trigger] s.drop_first()[j]).id != id by {
            assert(s.drop_first()[j] == s[j + 1]);
        }
        assert(i - 1 < s.drop_first().len() ==> s.drop_first()[i - 1].id == id);
        lemma_find_item_at(s.drop_first(), id, i - 1);
    }
}

/// A scan that saw no match through position `i` pins down `find_spell`.
proof fn lemma_find_spell_at(s: Seq<SpellView>, id: i32, i: int)
    requires
        0 <= i <= s.len(),
        forall|j: int| 0 <= j < i ==> (#[trigger] s[j]).id != id,
        i < s.len() ==> s[i].id == id,
    ensures
        find_spell(s, id) == if i == s.len() {
            None::<int>
        } else {
            Some(i)
        },
    decreases i, s.len(),
{
    if s.len() == 0 {
    } else if i == 0 {
    } else {
        assert(s[0].id != id);
        assert forall|j: int| 0 <= j < i - 1 implies (#[trigger] s.drop_first()[j]).id != id by {
            assert(s.drop_first()[j] == s[j + 1]);
        }
        assert(i - 1 < s.drop_first().len() ==> s.drop_first()[i - 1].id == id);
        lemma_find_spell_at(s.drop_first(), id, i - 1);
    }
}

impl Player {
    /// Builds a player around a creature. The creature must be of the player
    /// kind; any other kind is a construction error.
    pub fn new(
        creature: Creature,
        race: Race,
        class: Class,
        level: u8,
        experience: u32,
        campaign: Campaign,
    ) -> (res: Result<Player, ConstructionError>)
        ensures
            res is Ok <==> creature.deep_view().creature_type == CreatureType::Player,
            match res {
                Ok(p) => p.deep_view() == (PlayerView {
                    creature: creature.deep_view(),
                    race,
                    class,
                    level,
                    experience,
                    inventory: Seq::<ItemView>::empty(),
                    spells: Seq::<SpellView>::empty(),
                    campaign: campaign.deep_view(),
                }),
                Err(e) => e == ConstructionError::WrongCreatureKind,
            },
    {
        let is_player = match creature.creature_type() {
            CreatureType::Player => true,
            _ => false,
        };
        if !is_player {
            return Err(ConstructionError::WrongCreatureKind);
        }
        let p = Player {
            creature,
            race,
            class,
            level,
            experience,
            inventory: Vec::new(),
            spells: Vec::new(),
            campaign,
        };
        proof {
            assert(p.deep_view().inventory =~= Seq::<ItemView>::empty());
            assert(p.deep_view().spells =~= Seq::<SpellView>::empty());
        }
        Ok(p)
    }

    /// Reads the `race` field.
    pub fn race(&self) -> (r: &Race)
        ensures
            *r == self.deep_view().race,
    {
        &self.race
    }

    /// Reads the `class` field.
    pub fn class(&self) -> (r: &Class)
        ensures
            *r == self.deep_view().class,
    {
        &self.class
    }

    /// Reads the `level` field.
    pub fn level(&self) -> (r: &u8)
        ensures
            *r == self.deep_view().level,
    {
        &self.level
    }

    /// Reads the `experience` field.
    pub fn experience(&self) -> (r: &u32)
        ensures
            *r == self.deep_view().experience,
    {
        &self.experience
    }

    /// Reads the `campaign` field.
    pub fn campaign(&self) -> (r: &Campaign)
        ensures
            r.deep_view() == self.deep_view().campaign,
    {
        &self.campaign
    }

    /// Reads the `inventory` field.
    pub fn inventory(&self) -> (r: &Vec<Item>)
        ensures
            r.deep_view() == self.deep_view().inventory,
    {
        &self.inventory
    }

    /// Reads the `spells` field.
    pub fn spells(&self) -> (r: &Vec<Spell>)
        ensures
            r.deep_view() == self.deep_view().spells,
    {
        &self.spells
    }

    /// Appends an item to the inventory.
    pub fn add_item(&mut self, item: Item)
        ensures
            final(self).deep_view() == (PlayerView {
                inventory: old(self).deep_view().inventory.push(item.deep_view()),
                ..old(self).deep_view()
            }),
    {
        self.inventory.push(item);
        proof {
            assert(self.deep_view().inventory =~= old(self).deep_view().inventory.push(
                self.inventory@.last().deep_view(),
            ));
        }
    }

    /// Removes the first inventory item bearing the given item's identifier;
    /// when no item bears it, the inventory is unchanged.
    pub fn remove_item(&mut self, item: Item)
        ensures
            final(self).deep_view() == (match find_item(
                old(self).deep_view().inventory,
                item.deep_view().id,
            ) {
                Some(k) => PlayerView {
                    inventory: old(self).deep_view().inventory.remove(k),
                    ..old(self).deep_view()
                },
                None => old(self).deep_view(),
            }),
    {
        let ghost inv = old(self).deep_view().inventory;
        let ghost id = item.deep_view().id;
        let mut i: usize = 0;
        while i < self.inventory.len()
            invariant
                *self == *old(self),
                i <= inv.len(),
                inv == self.deep_view().inventory,
                id == item.deep_view().id,
                forall|j: int| 0 <= j < i ==> (#[trigger] inv[j]).id != id,
            decreases inv.len() - i,
        {
            let hit = {
                let cur = &self.inventory[i];
                str_eq(cur.id.as_str(), item.id.as_str())
            };
            if hit {
                proof {
                    lemma_find_item_at(inv, id, i as int);
                }
                self.inventory.remove(i);
                proof {
                    assert(self.deep_view().inventory =~= inv.remove(i as int));
                    assert(self.deep_view() =~= (PlayerView {
                        inventory: inv.remove(i as int),
                        ..old(self).deep_view()
                    }));
                }
                return ;
            }
            i += 1;
        }
        proof {
            lemma_find_item_at(inv, id, inv.len() as int);
        }
    }

    /// Appends a spell to the spell list.
    pub fn add_spell(&mut self, spell: Spell)
        ensures
            final(self).deep_view() == (PlayerView {
                spells: old(self).deep_view().spells.push(spell.deep_view()),
                ..old(self).deep_view()
            }),
    {
        self.spells.push(spell);
        proof {
            assert(self.deep_view().spells =~= old(self).deep_view().spells.push(
                self.spells@.last().deep_view(),
            ));
        }
    }

    /// Removes the first spell bearing the given spell's identifier; when no
    /// spell bears it, the spell list is unchanged.
    pub fn remove_spell(&mut self, spell: Spell)
        ensures
            final(self).deep_view() == (match find_spell(
                old(self).deep_view().spells,
                spell.deep_view().id,
            ) {
                Some(k) => PlayerView {
                    spells: old(self).deep_view().spells.remove(k),
                    ..old(self).deep_view()
                },
                None => old(self).deep_view(),
            }),
    {
        let ghost sp = old(self).deep_view().spells;
        let ghost id = spell.deep_view().id;
        let mut i: usize = 0;
        while i < self.spells.len()
            invariant
                *self == *old(self),
                i <= sp.len(),
                sp == self.deep_view().spells,
                id == spell.deep_view().id,
                forall|j: int| 0 <= j < i ==> (#[trigger] sp[j]).id != id,
            decreases sp.len() - i,
        {
            let hit = {
                let cur = &self.spells[i];
                cur.id == spell.id
            };
            if hit {
                proof {
                    lemma_find_spell_at(sp, id, i as int);
                }
                self.spells.remove(i);
                proof {
                    assert(self.deep_view().spells =~= sp.remove(i as int));
                    assert(self.deep_view() =~= (PlayerView {
                        spells: sp.remove(i as int),
                        ..old(self).deep_view()
                    }));
                }
                return ;
            }
            i += 1;
        }
        proof {
            lemma_find_spell_at(sp, id, sp.len() as int);
        }
    }

    /// Replaces the `experience` field.
    pub fn set_experience(&mut self, experience: u32)
        ensures
            final(self).deep_view() == (PlayerView { experience, ..old(self).deep_view() }),
    {
        self.experience = experience;
    }

    /// Replaces the `level` field.
    pub fn set_level(&mut self, level: u8)
        ensures
            final(self).deep_view() == (PlayerView { level, ..old(self).deep_view() }),
    {
        self.level = level;
    }

    /// Replaces the `campaign` field.
    pub fn set_campaign(&mut self, campaign: Campaign)
        ensures
            final(self).deep_view() == (PlayerView {
                campaign: campaign.deep_view(),
                ..old(self).deep_view()
            }),
    {
        self.campaign = campaign;
    }

    /// The player never presents a lair.
    pub fn lair(&self) -> (r: Option<&Lair>)
        ensures
            r is None,
    {
        None
    }


    /// Reads the creature's `id` field.
    pub fn id(&self) -> (r: &str)
        ensures
            r@ == self.deep_view().creature.id,
    {
        self.creature.id()
    }

    /// Reads the creature's `name` field.
    pub fn name(&self) -> (r: &str)
        ensures
            r@ == self.deep_view().creature.name,
    {
        self.creature.name()
    }

    /// Reads the creature's `creature_type` field.
    pub fn creature_type(&self) -> (r: &CreatureType)
        ensures
            *r == self.deep_view().creature.creature_type,
    {
        self.creature.creature_type()
    }

    /// Reads the creature's `alignment` field.
    pub fn alignment(&self) -> (r: &Alignment)
        ensures
            *r == self.deep_view().creature.alignment,
    {
        self.creature.alignment()
    }

    /// Reads the creature's `armor_class` field.
    pub fn armor_class(&self) -> (r: &i32)
        ensures
            *r == self.deep_view().creature.armor_class,
    {
        self.creature.armor_class()
    }

    /// Reads the creature's `health_points` field.
    pub fn hit_points(&self) -> (r: &Health)
        ensures
            *r == self.deep_view().creature.health_points,
    {
        self.creature.health_points()
    }

    /// Reads the creature's `speed` field.
    pub fn speed(&self) -> (r: &MovementSpeed)
        ensures
            *r == self.deep_view().creature.speed,
    {
        self.creature.speed()
    }

    /// Reads the creature's `stats` field.
    pub fn stats(&self) -> (r: &Vec<Stat>)
        ensures
            r.deep_view() == self.deep_view().creature.stats,
    {
        self.creature.stats()
    }

    /// Reads the creature's `saving_throws` field.
    pub fn saving_throws(&self) -> (r: Option<&Vec<Stat>>)
        ensures
            match r {
                Some(v) => self.deep_view().creature.saving_throws == Some(v.deep_view()),
                None => self.deep_view().creature.saving_throws is None,
            },
    {
        self.creature.saving_throws()
    }

    /// Reads the creature's `damage_resistances` field.
    pub fn damage_resistances(&self) -> (r: Option<&Vec<DamageType>>)
        ensures
            match r {
                Some(v) => self.deep_view().creature.damage_resistances == Some(v.deep_view()),
                None => self.deep_view().creature.damage_resistances is None,
            },
    {
        self.creature.damage_resistances()
    }

    /// Reads the creature's `damage_immunities` field.
    pub fn damage_immunities(&self) -> (r: Option<&Vec<DamageType>>)
        ensures
            match r {
                Some(v) => self.deep_view().creature.damage_immunities == Some(v.deep_view()),
                None => self.deep_view().creature.damage_immunities is None,
            },
    {
        self.creature.damage_immunities()
    }

    /// Reads the creature's `damage_vulnerabilities` field.
    pub fn damage_vulnerabilities(&self) -> (r: Option<&Vec<DamageType>>)
        ensures
            match r {
                Some(v) => self.deep_view().creature.damage_vulnerabilities == Some(v.deep_view()),
                None => self.deep_view().creature.damage_vulnerabilities is None,
            },
    {
        self.creature.damage_vulnerabilities()
    }

    /// Reads the creature's `condition_immunities` field.
    pub fn condition_immunities(&self) -> (r: Option<&Vec<ConditionType>>)
        ensures
            match r {
                Some(v) => self.deep_view().creature.condition_immunities == Some(v.deep_view()),
                None => self.deep_view().creature.condition_immunities is None,
            },
    {
        self.creature.condition_immunities()
    }

    /// Reads the creature's `skills` field.
    pub fn skills(&self) -> (r: Option<&Vec<Skill>>)
        ensures
            match r {
                Some(v) => self.deep_view().creature.skills == Some(v.deep_view()),
                None => self.deep_view().creature.skills is None,
            },
    {
        self.creature.skills()
    }

    /// Reads the creature's `senses` field.
    pub fn senses(&self) -> (r: Option<&Vec<Sense>>)
        ensures
            match r {
                Some(v) => self.deep_view().creature.senses == Some(v.deep_view()),
                None => self.deep_view().creature.senses is None,
            },
    {
        self.creature.senses()
    }

    /// Reads the creature's `languages` field.
    pub fn languages(&self) -> (r: Option<&Vec<Language>>)
        ensures
            match r {
                Some(v) => self.deep_view().creature.languages == Some(v.deep_view()),
                None => self.deep_view().creature.languages is None,
            },
    {
        self.creature.languages()
    }

    /// Reads the creature's `challenge_rating` field.
    pub fn challenge_rating(&self) -> (r: &str)
        ensures
            r@ == self.deep_view().creature.challenge_rating,
    {
        self.creature.challenge_rating()
    }

    /// Reads the creature's `racial_traits` field.
    pub fn racial_traits(&self) -> (r: Option<&Vec<RacialTrait>>)
        ensures
            match r {
                Some(v) => self.deep_view().creature.racial_traits == Some(v.deep_view()),
                None => self.deep_view().creature.racial_traits is None,
            },
    {
        self.creature.racial_traits()
    }

    /// Reads the creature's `description` field.
    pub fn description(&self) -> (r: Option<&str>)
        ensures
            match r {
                Some(s) => self.deep_view().creature.description == Some(s@),
                None => self.deep_view().creature.description is None,
            },
    {
        self.creature.description()
    }

    /// Reads the creature's `actions` field.
    pub fn actions(&self) -> (r: Option<&Vec<Action>>)
        ensures
            match r {
                Some(v) => self.deep_view().creature.actions == Some(v.deep_view()),
                None => self.deep_view().creature.actions is None,
            },
    {
        self.creature.actions()
    }

    /// Reads the creature's `others` field.
    pub fn others(&self) -> (r: Option<&Vec<OtherAttribute>>)
        ensures
            match r {
                Some(v) => self.deep_view().creature.others == Some(v.deep_view()),
                None => self.deep_view().creature.others is None,
            },
    {
        self.creature.others()
    }

    /// Replaces the creature's `name` field.
    pub fn set_name(&mut self, name: String)
        ensures
            final(self).deep_view() == (PlayerView {
                creature: (CreatureView { name: name@, ..old(self).deep_view().creature }),
                ..old(self).deep_view()
            }),
    {
        self.creature.set_name(name);
    }

    /// Replaces the creature's `alignment` field.
    pub fn set_alignment(&mut self, alignment: Alignment)
        ensures
            final(self).deep_view() == (PlayerView {
                creature: (CreatureView { alignment: alignment, ..old(self).deep_view().creature }),
                ..old(self).deep_view()
            }),
    {
        self.creature.set_alignment(alignment);
    }

    /// Replaces the creature's `armor_class` field.
    pub fn set_armor_class(&mut self, armor_class: i32)
        ensures
            final(self).deep_view() == (PlayerView {
                creature: (CreatureView { armor_class: armor_class, ..old(self).deep_view().creature }),
                ..old(self).deep_view()
            }),
    {
        self.creature.set_armor_class(armor_class);
    }

    /// Replaces the creature's `health_points` field.
    pub fn set_hit_points(&mut self, health_points: Health)
        ensures
            final(self).deep_view() == (PlayerView {
                creature: (CreatureView { health_points: health_points, ..old(self).deep_view().creature }),
                ..old(self).deep_view()
            }),
    {
        self.creature.set_health_points(health_points);
    }

    /// Replaces the creature's `speed` field.
    pub fn set_speed(&mut self, speed: MovementSpeed)
        ensures
            final(self).deep_view() == (PlayerView {
                creature: (CreatureView { speed: speed, ..old(self).deep_view().creature }),
                ..old(self).deep_view()
            }),
    {
        self.creature.set_speed(speed);
    }

    /// Replaces the creature's `stats` field.
    pub fn set_stats(&mut self, stats: Vec<Stat>)
        ensures
            final(self).deep_view() == (PlayerView {
                creature: (CreatureView { stats: stats.deep_view(), ..old(self).deep_view().creature }),
                ..old(self).deep_view()
            }),
    {
        self.creature.set_stats(stats);
    }

    /// Replaces the creature's `saving_throws` field.
    pub fn set_saving_throws(&mut self, saving_throws: Option<Vec<Stat>>)
        ensures
            final(self).deep_view() == (PlayerView {
                creature: (CreatureView { saving_throws: saving_throws.deep_view(), ..old(self).deep_view().creature }),
                ..old(self).deep_view()
            }),
    {
        self.creature.set_saving_throws(saving_throws);
    }

    /// Replaces the creature's `damage_resistances` field.
    pub fn set_damage_resistances(&mut self, damage_resistances: Option<Vec<DamageType>>)
        ensures
            final(self).deep_view() == (PlayerView {
                creature: (CreatureView { damage_resistances: damage_resistances.deep_view(), ..old(self).deep_view().creature }),
                ..old(self).deep_view()
            }),
    {
        self.creature.set_damage_resistances(damage_resistances);
    }

    /// Replaces the creature's `damage_immunities` field.
    pub fn set_damage_immunities(&mut self, damage_immunities: Option<Vec<DamageType>>)
        ensures
            final(self).deep_view() == (PlayerView {
                creature: (CreatureView { damage_immunities: damage_immunities.deep_view(), ..old(self).deep_view().creature }),
                ..old(self).deep_view()
            }),
    {
        self.creature.set_damage_immunities(damage_immunities);
    }

    /// Replaces the creature's `damage_vulnerabilities` field.
    pub fn set_damage_vulnerabilities(&mut self, damage_vulnerabilities: Option<Vec<DamageType>>)
        ensures
            final(self).deep_view() == (PlayerView {
                creature: (CreatureView { damage_vulnerabilities: damage_vulnerabilities.deep_view(), ..old(self).deep_view().creature }),
                ..old(self).deep_view()
            }),
    {
        self.creature.set_damage_vulnerabilities(damage_vulnerabilities);
    }

    /// Replaces the creature's `condition_immunities` field.
    pub fn set_condition_immunities(&mut self, condition_immunities: Option<Vec<ConditionType>>)
        ensures
            final(self).deep_view() == (PlayerView {
                creature: (CreatureView { condition_immunities: condition_immunities.deep_view(), ..old(self).deep_view().creature }),
                ..old(self).deep_view()
            }),
    {
        self.creature.set_condition_immunities(condition_immunities);
    }

    /// Replaces the creature's `skills` field.
    pub fn set_skills(&mut self, skills: Option<Vec<Skill>>)
        ensures
            final(self).deep_view() == (PlayerView {
                creature: (CreatureView { skills: skills.deep_view(), ..old(self).deep_view().creature }),
                ..old(self).deep_view()
            }),
    {
        self.creature.set_skills(skills);
    }

    /// Replaces the creature's `senses` field.
    pub fn set_senses(&mut self, senses: Option<Vec<Sense>>)
        ensures
            final(self).deep_view() == (PlayerView {
                creature: (CreatureView { senses: senses.deep_view(), ..old(self).deep_view().creature }),
                ..old(self).deep_view()
            }),
    {
        self.creature.set_senses(senses);
    }

    /// Replaces the creature's `languages` field.
    pub fn set_languages(&mut self, languages: Option<Vec<Language>>)
        ensures
            final(self).deep_view() == (PlayerView {
                creature: (CreatureView { languages: languages.deep_view(), ..old(self).deep_view().creature }),
                ..old(self).deep_view()
            }),
    {
        self.creature.set_languages(languages);
    }

    /// Replaces the creature's `challenge_rating` field.
    pub fn set_challenge_rating(&mut self, challenge_rating: String)
        ensures
            final(self).deep_view() == (PlayerView {
                creature: (CreatureView { challenge_rating: challenge_rating@, ..old(self).deep_view().creature }),
                ..old(self).deep_view()
            }),
    {
        self.creature.set_challenge_rating(challenge_rating);
    }

    /// Replaces the creature's `racial_traits` field.
    pub fn set_racial_traits(&mut self, racial_traits: Option<Vec<RacialTrait>>)
        ensures
            final(self).deep_view() == (PlayerView {
                creature: (CreatureView { racial_traits: racial_traits.deep_view(), ..old(self).deep_view().creature }),
                ..old(self).deep_view()
            }),
    {
        self.creature.set_racial_traits(racial_traits);
    }

    /// Replaces the creature's `description` field.
    pub fn set_description(&mut self, description: Option<String>)
        ensures
            final(self).deep_view() == (PlayerView {
                creature: (CreatureView { description: description.deep_view(), ..old(self).deep_view().creature }),
                ..old(self).deep_view()
            }),
    {
        self.creature.set_description(description);
    }

    /// Replaces the creature's `actions` field.
    pub fn set_actions(&mut self, actions: Option<Vec<Action>>)
        ensures
            final(self).deep_view() == (PlayerView {
                creature: (CreatureView { actions: actions.deep_view(), ..old(self).deep_view().creature }),
                ..old(self).deep_view()
            }),
    {
        self.creature.set_actions(actions);
    }

    /// Replaces the creature's `others` field.
    pub fn set_others(&mut self, others: Option<Vec<OtherAttribute>>)
        ensures
            final(self).deep_view() == (PlayerView {
                creature: (CreatureView { others: others.deep_view(), ..old(self).deep_view().creature }),
                ..old(self).deep_view()
            }),
    {
        self.creature.set_others(others);
    }
}

/// The record form of a player.
pub open spec fn enc_player(v: PlayerView) -> RecordV
    decreases v,
{
    RecordV::Obj(
        seq![
            ("creature"@, <Creature as Codec>::spec_enc(v.creature)),
            ("race"@, <Race as Codec>::spec_enc(v.race)),
            ("class"@, <Class as Codec>::spec_enc(v.class)),
            ("level"@, <u8 as Codec>::spec_enc(v.level)),
            ("experience"@, <u32 as Codec>::spec_enc(v.experience)),
            ("inventory"@, <Vec<Item> as Codec>::spec_enc(v.inventory)),
            ("spells"@, <Vec<Spell> as Codec>::spec_enc(v.spells)),
            ("campaign"@, enc_campaign(v.campaign)),
        ],
    )
}

/// The record forms of a player list.
pub open spec fn enc_players(s: Seq<PlayerView>) -> Seq<RecordV>
    decreases s,
{
    Seq::new(
        s.len(),
        |j: int|
            if 0 <= j < s.len() {
                enc_player(s[j])
            } else {
                RecordV::Bool(false)
            },
    )
}

/// The player a record decodes to, when it has the shape `enc_player`
/// produces.
pub open spec fn dec_player(r: RecordV) -> Option<PlayerView>
    decreases r,
{
    match r {
        RecordV::Obj(fields) => if fields.len() == 8
            && fields[0].0 == "creature"@
            && fields[1].0 == "race"@
            && fields[2].0 == "class"@
            && fields[3].0 == "level"@
            && fields[4].0 == "experience"@
            && fields[5].0 == "inventory"@
            && fields[6].0 == "spells"@
            && fields[7].0 == "campaign"@ {
            match (
                <Creature as Codec>::spec_dec(fields[0].1),
                <Race as Codec>::spec_dec(fields[1].1),
                <Class as Codec>::spec_dec(fields[2].1),
                <u8 as Codec>::spec_dec(fields[3].1),
                <u32 as Codec>::spec_dec(fields[4].1),
                <Vec<Item> as Codec>::spec_dec(fields[5].1),
                <Vec<Spell> as Codec>::spec_dec(fields[6].1),
                dec_campaign(fields[7].1),
            ) {
                (
                    Some(f_creature),
                    Some(f_race),
                    Some(f_class),
                    Some(f_level),
                    Some(f_experience),
                    Some(f_inventory),
                    Some(f_spells),
                    Some(f_campaign),
                ) => Some(
                    PlayerView {
                        creature: f_creature,
                        race: f_race,
                        class: f_class,
                        level: f_level,
                        experience: f_experience,
                        inventory: f_inventory,
                        spells: f_spells,
                        campaign: f_campaign,
                    },
                ),
                _ => None,
            }
        } else {
            None
        },
        _ => None,
    }
}

/// The player list a record decodes to.
pub open spec fn dec_players(r: RecordV) -> Option<Seq<PlayerView>>
    decreases r,
{
    match r {
        RecordV::List(items) => dec_player_seq(items),
        _ => None,
    }
}

/// The players a record sequence decodes to, element by element.
pub open spec fn dec_player_seq(items: Seq<RecordV>) -> Option<Seq<PlayerView>>
    decreases items,
{
    if items.len() == 0 {
        Some(Seq::empty())
    } else {
        match dec_player(items.first()) {
            Some(x) => match dec_player_seq(items.drop_first()) {
                Some(rest) => Some(seq![x] + rest),
                None => None,
            },
            None => None,
        }
    }
}

/// Elementwise decoding carries over to whole record sequences.
pub proof fn lemma_dec_player_seq_pointwise(views: Seq<RecordV>, xs: Seq<PlayerView>)
    requires
        views.len() == xs.len(),
        forall|k: int| 0 <= k < views.len() ==> dec_player(#[trigger] views[k]) == Some(xs[k]),
    ensures
        dec_player_seq(views) == Some(xs),
    decreases views.len(),
{
    if views.len() == 0 {
        assert(xs =~= Seq::<PlayerView>::empty());
    } else {
        assert forall|k: int| 0 <= k < views.drop_first().len() implies dec_player(
            #[trigger] views.drop_first()[k],
        ) == Some(xs.drop_first()[k]) by {
            assert(views.drop_first()[k] == views[k + 1]);
        }
        lemma_dec_player_seq_pointwise(views.drop_first(), xs.drop_first());
        assert(views.first() == views[0]);
        assert(seq![xs[0]] + xs.drop_first() =~= xs);
    }
}

/// A record sequence with one undecodable element does not decode.
pub proof fn lemma_dec_player_seq_none(views: Seq<RecordV>, j: int)
    requires
        0 <= j < views.len(),
        dec_player(views[j]) is None,
    ensures
        dec_player_seq(views) is None,
    decreases views.len(),
{
    if j > 0 {
        assert(views.drop_first()[j - 1] == views[j]);
        lemma_dec_player_seq_none(views.drop_first(), j - 1);
    } else {
        assert(views.first() == views[0]);
    }
}

/// Decoding inverts encoding for players.
pub proof fn lemma_player_round_trip(v: PlayerView)
    ensures
        dec_player(enc_player(v)) == Some(v),
    decreases v,
{
    <Creature as Codec>::lemma_round_trip(v.creature);
    <Race as Codec>::lemma_round_trip(v.race);
    <Class as Codec>::lemma_round_trip(v.class);
    <u8 as Codec>::lemma_round_trip(v.level);
    <u32 as Codec>::lemma_round_trip(v.experience);
    <Vec<Item> as Codec>::lemma_round_trip(v.inventory);
    <Vec<Spell> as Codec>::lemma_round_trip(v.spells);
    lemma_campaign_round_trip(v.campaign);
}

/// Decoding inverts encoding for player lists.
pub proof fn lemma_players_round_trip(s: Seq<PlayerView>)
    ensures
        dec_player_seq(enc_players(s)) == Some(s),
        dec_players(RecordV::List(enc_players(s))) == Some(s),
    decreases s,
{
    let e = enc_players(s);
    assert forall|j: int| 0 <= j < e.len() implies dec_player(#[trigger] e[j]) == Some(s[j]) by {
        lemma_player_round_trip(s[j]);
    }
    lemma_dec_player_seq_pointwise(e, s);
}

pub(crate) fn player_to_record(p: &Player) -> (r: Record)
    ensures
        r.deep_view() == enc_player(p.deep_view()),
    decreases *p,
{
    let mut fs: Vec<(String, Record)> = Vec::new();
    fs.push((String::from_str("creature"), p.creature.to_record()));
    fs.push((String::from_str("race"), p.race.to_record()));
    fs.push((String::from_str("class"), p.class.to_record()));
    fs.push((String::from_str("level"), p.level.to_record()));
    fs.push((String::from_str("experience"), p.experience.to_record()));
    fs.push((String::from_str("inventory"), p.inventory.to_record()));
    fs.push((String::from_str("spells"), p.spells.to_record()));
    fs.push((String::from_str("campaign"), campaign_to_record(&p.campaign)));
    let r = Record::Obj(fs);
    proof {
        assert(field_views(fs@) =~= seq![
            ("creature"@, <Creature as Codec>::spec_enc(p.creature.deep_view())),
            ("race"@, <Race as Codec>::spec_enc(p.race)),
            ("class"@, <Class as Codec>::spec_enc(p.class)),
            ("level"@, <u8 as Codec>::spec_enc(p.level)),
            ("experience"@, <u32 as Codec>::spec_enc(p.experience)),
            ("inventory"@, <Vec<Item> as Codec>::spec_enc(p.inventory.deep_view())),
            ("spells"@, <Vec<Spell> as Codec>::spec_enc(p.spells.deep_view())),
            ("campaign"@, enc_campaign(p.campaign.deep_view())),
        ]);
    }
    r
}

pub(crate) fn players_to_record(v: &Vec<Player>) -> (r: Record)
    ensures
        r.deep_view() == RecordV::List(enc_players(players_view(*v))),
    decreases *v,
{
    let mut items: Vec<Record> = Vec::new();
    let mut j: usize = 0;
    while j < v.len()
        invariant
            j <= v@.len(),
            items@.len() == j,
            forall|k: int|
                0 <= k < j ==> rec_view(#[trigger] items@[k]) == enc_player(player_view(v@[k])),
        decreases v@.len() - j,
    {
        let rec = player_to_record(&v[j]);
        items.push(rec);
        j += 1;
    }
    let r = Record::List(items);
    proof {
        assert(rec_views(items@) =~= enc_players(players_view(*v)));
    }
    r
}

pub(crate) fn player_from_record(r: &Record) -> (res: Result<Player, DecodeError>)
    ensures
        match res {
            Ok(x) => dec_player(r.deep_view()) == Some(x.deep_view()),
            Err(_) => dec_player(r.deep_view()) is None,
        },
    decreases *r,
{
    match r {
        Record::Obj(fs) => {
            if fs.len() != 8 {
                return Err(DecodeError::Malformed);
            }
            let e0 = &fs[0];
            if !str_eq(e0.0.as_str(), "creature") {
                return Err(DecodeError::Malformed);
            }
            let f_creature = match <Creature>::from_record(&e0.1) {
                Ok(x) => x,
                Err(e) => return Err(e),
            };
            let e1 = &fs[1];
            if !str_eq(e1.0.as_str(), "race") {
                return Err(DecodeError::Malformed);
            }
            let f_race = match <Race>::from_record(&e1.1) {
                Ok(x) => x,
                Err(e) => return Err(e),
            };
            let e2 = &fs[2];
            if !str_eq(e2.0.as_str(), "class") {
                return Err(DecodeError::Malformed);
            }
            let f_class = match <Class>::from_record(&e2.1) {
                Ok(x) => x,
                Err(e) => return Err(e),
            };
            let e3 = &fs[3];
            if !str_eq(e3.0.as_str(), "level") {
                return Err(DecodeError::Malformed);
            }
            let f_level = match <u8>::from_record(&e3.1) {
                Ok(x) => x,
                Err(e) => return Err(e),
            };
            let e4 = &fs[4];
            if !str_eq(e4.0.as_str(), "experience") {
                return Err(DecodeError::Malformed);
            }
            let f_experience = match <u32>::from_record(&e4.1) {
                Ok(x) => x,
                Err(e) => return Err(e),
            };
            let e5 = &fs[5];
            if !str_eq(e5.0.as_str(), "inventory") {
                return Err(DecodeError::Malformed);
            }
            let f_inventory = match <Vec<Item>>::from_record(&e5.1) {
                Ok(x) => x,
                Err(e) => return Err(e),
            };
            let e6 = &fs[6];
            if !str_eq(e6.0.as_str(), "spells") {
                return Err(DecodeError::Malformed);
            }
            let f_spells = match <Vec<Spell>>::from_record(&e6.1) {
                Ok(x) => x,
                Err(e) => return Err(e),
            };
            let e7 = &fs[7];
            if !str_eq(e7.0.as_str(), "campaign") {
                return Err(DecodeError::Malformed);
            }
            let f_campaign = match campaign_from_record(&e7.1) {
                Ok(x) => x,
                Err(e) => return Err(e),
            };
            Ok(
                Player {
                    creature: f_creature,
                    race: f_race,
                    class: f_class,
                    level: f_level,
                    experience: f_experience,
                    inventory: f_inventory,
                    spells: f_spells,
                    campaign: f_campaign,
                },
            )
        },
        _ => Err(DecodeError::Malformed),
    }
}

#[verifier::loop_isolation(false)]
pub(crate) fn players_from_record(r: &Record) -> (res: Result<Vec<Player>, DecodeError>)
    ensures
        match res {
            Ok(v) => dec_players(r.deep_view()) == Some(players_view(v)),
            Err(_) => dec_players(r.deep_view()) is None,
        },
    decreases *r,
{
    match r {
        Record::List(items) => {
            let ghost views = rec_views(items@);
            let mut out: Vec<Player> = Vec::new();
            let mut j: usize = 0;
            while j < items.len()
                invariant
                    j <= items@.len(),
                    out@.len() == j,
                    views == rec_views(items@),
                    r.deep_view() == RecordV::List(views),
                    forall|k: int|
                        0 <= k < j ==> dec_player(#[trigger] views[k]) == Some(
                            player_view(out@[k]),
                        ),
                decreases items@.len() - j,
            {
                match player_from_record(&items[j]) {
                    Ok(x) => {
                        out.push(x);
                    },
                    Err(e) => {
                        proof {
                            lemma_dec_player_seq_none(views, j as int);
                        }
                        return Err(e);
                    },
                }
                j += 1;
            }
            proof {
                assert forall|k: int| 0 <= k < views.len() implies dec_player(
                    #[trigger] views[k],
                ) == Some(players_view(out)[k]) by {
                    assert(dec_player(views[k]) == Some(player_view(out@[k])));
                }
                lemma_dec_player_seq_pointwise(views, players_view(out));
            }
            Ok(out)
        },
        _ => Err(DecodeError::Malformed),
    }
}

impl Codec for Player {
    open spec fn spec_enc(v: PlayerView) -> RecordV {
        enc_player(v)
    }

    open spec fn spec_dec(r: RecordV) -> Option<PlayerView> {
        dec_player(r)
    }

    fn to_record(&self) -> (r: Record) {
        player_to_record(self)
    }

    fn from_record(r: &Record) -> (res: Result<Player, DecodeError>) {
        player_from_record(r)
    }

    proof fn lemma_round_trip(v: PlayerView) {
        lemma_player_round_trip(v);
    }
}

} // verus!
