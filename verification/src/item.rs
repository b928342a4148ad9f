//! Items: equipment and treasure, with rarity, attunement, charges, attached
//! spells, nested inventories and actions.

use vstd::prelude::*;

verus! {

broadcast use vstd::std_specs::vec::axiom_vec_index_decreases, vstd::seq::axiom_seq_index_decreases, vstd::seq::axiom_seq_subrange_decreases;

use crate::action::{Action, ActionView};
use crate::record::{Codec, DecodeError, Record, RecordV, field_views, rec_view, rec_views, str_eq};
use crate::spell::{Spell, SpellView};
use crate::text::{dec_str, dec_string};
use crate::{Alignment, ConditionType, OtherAttribute, OtherAttributeView};


/// The broad kind of an item.
#[derive(Debug, Clone, Copy, PartialEq, Eq, Structural)]
pub enum ItemType {
    Armor,
    Potion,
    Ring,
    Rod,
    Scroll,
    Staff,
    Wand,
    Weapon,
    WondrousItem,
}

impl DeepView for ItemType {
    type V = ItemType;

    open spec fn deep_view(&self) -> ItemType {
        *self
    }
}

impl ItemType {
    /// The display text of this item kind.
    pub open spec fn spec_display(self) -> Seq<char> {
        match self {
            ItemType::Armor => "Armor"@,
            ItemType::Potion => "Potion"@,
            ItemType::Ring => "Ring"@,
            ItemType::Rod => "Rod"@,
            ItemType::Scroll => "Scroll"@,
            ItemType::Staff => "Staff"@,
            ItemType::Wand => "Wand"@,
            ItemType::Weapon => "Weapon"@,
            ItemType::WondrousItem => "Wondrous Item"@,
        }
    }

    /// Renders the display text of this value.
    pub fn to_string(&self) -> (s: String)
        ensures
            s@ == self.spec_display(),
    {
        match self {
            ItemType::Armor => String::from_str("Armor"),
            ItemType::Potion => String::from_str("Potion"),
            ItemType::Ring => String::from_str("Ring"),
            ItemType::Rod => String::from_str("Rod"),
            ItemType::Scroll => String::from_str("Scroll"),
            ItemType::Staff => String::from_str("Staff"),
            ItemType::Wand => String::from_str("Wand"),
            ItemType::Weapon => String::from_str("Weapon"),
            ItemType::WondrousItem => String::from_str("Wondrous Item"),
        }
    }
}

impl Codec for ItemType {
    open spec fn spec_enc(v: ItemType) -> RecordV {
        match v {
            ItemType::Armor => RecordV::Tag("Armor"@, Seq::empty()),
            ItemType::Potion => RecordV::Tag("Potion"@, Seq::empty()),
            ItemType::Ring => RecordV::Tag("Ring"@, Seq::empty()),
            ItemType::Rod => RecordV::Tag("Rod"@, Seq::empty()),
            ItemType::Scroll => RecordV::Tag("Scroll"@, Seq::empty()),
            ItemType::Staff => RecordV::Tag("Staff"@, Seq::empty()),
            ItemType::Wand => RecordV::Tag("Wand"@, Seq::empty()),
            ItemType::Weapon => RecordV::Tag("Weapon"@, Seq::empty()),
            ItemType::WondrousItem => RecordV::Tag("WondrousItem"@, Seq::empty()),
        }
    }

    open spec fn spec_dec(r: RecordV) -> Option<ItemType> {
        match r {
            RecordV::Tag(t, args) => {
                if t == "Armor"@ && args.len() == 0 {
                    Some(ItemType::Armor)
                } else if t == "Potion"@ && args.len() == 0 {
                    Some(ItemType::Potion)
                } else if t == "Ring"@ && args.len() == 0 {
                    Some(ItemType::Ring)
                } else if t == "Rod"@ && args.len() == 0 {
                    Some(ItemType::Rod)
                } else if t == "Scroll"@ && args.len() == 0 {
                    Some(ItemType::Scroll)
                } else if t == "Staff"@ && args.len() == 0 {
                    Some(ItemType::Staff)
                } else if t == "Wand"@ && args.len() == 0 {
                    Some(ItemType::Wand)
                } else if t == "Weapon"@ && args.len() == 0 {
                    Some(ItemType::Weapon)
                } else if t == "WondrousItem"@ && args.len() == 0 {
                    Some(ItemType::WondrousItem)
                } else {
                    None
                }
            },
            _ => None,
        }
    }

    fn to_record(&self) -> (r: Record) {
        match self {
            ItemType::Armor => {
                let r = Record::Tag(String::from_str("Armor"), Vec::new());
                proof {
                    assert(rec_views(Seq::<Record>::empty()) =~= Seq::<RecordV>::empty());
                }
                r
            },
            ItemType::Potion => {
                let r = Record::Tag(String::from_str("Potion"), Vec::new());
                proof {
                    assert(rec_views(Seq::<Record>::empty()) =~= Seq::<RecordV>::empty());
                }
                r
            },
            ItemType::Ring => {
                let r = Record::Tag(String::from_str("Ring"), Vec::new());
                proof {
                    assert(rec_views(Seq::<Record>::empty()) =~= Seq::<RecordV>::empty());
                }
                r
            },
            ItemType::Rod => {
                let r = Record::Tag(String::from_str("Rod"), Vec::new());
                proof {
                    assert(rec_views(Seq::<Record>::empty()) =~= Seq::<RecordV>::empty());
                }
                r
            },
            ItemType::Scroll => {
                let r = Record::Tag(String::from_str("Scroll"), Vec::new());
                proof {
                    assert(rec_views(Seq::<Record>::empty()) =~= Seq::<RecordV>::empty());
                }
                r
            },
            ItemType::Staff => {
                let r = Record::Tag(String::from_str("Staff"), Vec::new());
                proof {
                    assert(rec_views(Seq::<Record>::empty()) =~= Seq::<RecordV>::empty());
                }
                r
            },
            ItemType::Wand => {
                let r = Record::Tag(String::from_str("Wand"), Vec::new());
                proof {
                    assert(rec_views(Seq::<Record>::empty()) =~= Seq::<RecordV>::empty());
                }
                r
            },
            ItemType::Weapon => {
                let r = Record::Tag(String::from_str("Weapon"), Vec::new());
                proof {
                    assert(rec_views(Seq::<Record>::empty()) =~= Seq::<RecordV>::empty());
                }
                r
            },
            ItemType::WondrousItem => {
                let r = Record::Tag(String::from_str("WondrousItem"), Vec::new());
                proof {
                    assert(rec_views(Seq::<Record>::empty()) =~= Seq::<RecordV>::empty());
                }
                r
            },
        }
    }

    fn from_record(r: &Record) -> (res: Result<ItemType, DecodeError>) {
        match r {
            Record::Tag(t, args) => {
                if str_eq(t.as_str(), "Armor") && args.len() == 0 {
                    Ok(ItemType::Armor)
                } else if str_eq(t.as_str(), "Potion") && args.len() == 0 {
                    Ok(ItemType::Potion)
                } else if str_eq(t.as_str(), "Ring") && args.len() == 0 {
                    Ok(ItemType::Ring)
                } else if str_eq(t.as_str(), "Rod") && args.len() == 0 {
                    Ok(ItemType::Rod)
                } else if str_eq(t.as_str(), "Scroll") && args.len() == 0 {
                    Ok(ItemType::Scroll)
                } else if str_eq(t.as_str(), "Staff") && args.len() == 0 {
                    Ok(ItemType::Staff)
                } else if str_eq(t.as_str(), "Wand") && args.len() == 0 {
                    Ok(ItemType::Wand)
                } else if str_eq(t.as_str(), "Weapon") && args.len() == 0 {
                    Ok(ItemType::Weapon)
                } else if str_eq(t.as_str(), "WondrousItem") && args.len() == 0 {
                    Ok(ItemType::WondrousItem)
                } else {
                    Err(DecodeError::Malformed)
                }
            },
            _ => Err(DecodeError::Malformed),
        }
    }

    proof fn lemma_round_trip(v: ItemType) {
        reveal_strlit("Armor");
        reveal_strlit("Potion");
        reveal_strlit("Ring");
        reveal_strlit("Rod");
        reveal_strlit("Scroll");
        reveal_strlit("Staff");
        reveal_strlit("Wand");
        reveal_strlit("Weapon");
        reveal_strlit("WondrousItem");
        assert(("Potion"@) != ("Armor"@)) by {
            assert(("Potion"@)[0] == 'P');
            assert(("Armor"@)[0] == 'A');
        }
        assert(("Ring"@) != ("Armor"@)) by {
            assert(("Ring"@)[0] == 'R');
            assert(("Armor"@)[0] == 'A');
        }
        assert(("Ring"@) != ("Potion"@)) by {
            assert(("Ring"@)[0] == 'R');
            assert(("Potion"@)[0] == 'P');
        }
        assert(("Rod"@) != ("Armor"@)) by {
            assert(("Rod"@)[0] == 'R');
            assert(("Armor"@)[0] == 'A');
        }
        assert(("Rod"@) != ("Potion"@)) by {
            assert(("Rod"@)[0] == 'R');
            assert(("Potion"@)[0] == 'P');
        }
        assert(("Rod"@) != ("Ring"@)) by {
            assert(("Rod"@)[1] == 'o');
            assert(("Ring"@)[1] == 'i');
        }
        assert(("Scroll"@) != ("Armor"@)) by {
            assert(("Scroll"@)[0] == 'S');
            assert(("Armor"@)[0] == 'A');
        }
        assert(("Scroll"@) != ("Potion"@)) by {
            assert(("Scroll"@)[0] == 'S');
            assert(("Potion"@)[0] == 'P');
        }
        assert(("Scroll"@) != ("Ring"@)) by {
            assert(("Scroll"@)[0] == 'S');
            assert(("Ring"@)[0] == 'R');
        }
        assert(("Scroll"@) != ("Rod"@)) by {
            assert(("Scroll"@)[0] == 'S');
            assert(("Rod"@)[0] == 'R');
        }
        assert(("Staff"@) != ("Armor"@)) by {
            assert(("Staff"@)[0] == 'S');
            assert(("Armor"@)[0] == 'A');
        }
        assert(("Staff"@) != ("Potion"@)) by {
            assert(("Staff"@)[0] == 'S');
            assert(("Potion"@)[0] == 'P');
        }
        assert(("Staff"@) != ("Ring"@)) by {
            assert(("Staff"@)[0] == 'S');
            assert(("Ring"@)[0] == 'R');
        }
        assert(("Staff"@) != ("Rod"@)) by {
            assert(("Staff"@)[0] == 'S');
            assert(("Rod"@)[0] == 'R');
        }
        assert(("Staff"@) != ("Scroll"@)) by {
            assert(("Staff"@)[1] == 't');
            assert(("Scroll"@)[1] == 'c');
        }
        assert(("Wand"@) != ("Armor"@)) by {
            assert(("Wand"@)[0] == 'W');
            assert(("Armor"@)[0] == 'A');
        }
        assert(("Wand"@) != ("Potion"@)) by {
            assert(("Wand"@)[0] == 'W');
            assert(("Potion"@)[0] == 'P');
        }
        assert(("Wand"@) != ("Ring"@)) by {
            assert(("Wand"@)[0] == 'W');
            assert(("Ring"@)[0] == 'R');
        }
        assert(("Wand"@) != ("Rod"@)) by {
            assert(("Wand"@)[0] == 'W');
            assert(("Rod"@)[0] == 'R');
        }
        assert(("Wand"@) != ("Scroll"@)) by {
            assert(("Wand"@)[0] == 'W');
            assert(("Scroll"@)[0] == 'S');
        }
        assert(("Wand"@) != ("Staff"@)) by {
            assert(("Wand"@)[0] == 'W');
            assert(("Staff"@)[0] == 'S');
        }
        assert(("Weapon"@) != ("Armor"@)) by {
            assert(("Weapon"@)[0] == 'W');
            assert(("Armor"@)[0] == 'A');
        }
        assert(("Weapon"@) != ("Potion"@)) by {
            assert(("Weapon"@)[0] == 'W');
            assert(("Potion"@)[0] == 'P');
        }
        assert(("Weapon"@) != ("Ring"@)) by {
            assert(("Weapon"@)[0] == 'W');
            assert(("Ring"@)[0] == 'R');
        }
        assert(("Weapon"@) != ("Rod"@)) by {
            assert(("Weapon"@)[0] == 'W');
            assert(("Rod"@)[0] == 'R');
        }
        assert(("Weapon"@) != ("Scroll"@)) by {
            assert(("Weapon"@)[0] == 'W');
            assert(("Scroll"@)[0] == 'S');
        }
        assert(("Weapon"@) != ("Staff"@)) by {
            assert(("Weapon"@)[0] == 'W');
            assert(("Staff"@)[0] == 'S');
        }
        assert(("Weapon"@) != ("Wand"@)) by {
            assert(("Weapon"@)[1] == 'e');
            assert(("Wand"@)[1] == 'a');
        }
        assert(("WondrousItem"@) != ("Armor"@)) by {
            assert(("WondrousItem"@)[0] == 'W');
            assert(("Armor"@)[0] == 'A');
        }
        assert(("WondrousItem"@) != ("Potion"@)) by {
            assert(("WondrousItem"@)[0] == 'W');
            assert(("Potion"@)[0] == 'P');
        }
        assert(("WondrousItem"@) != ("Ring"@)) by {
            assert(("WondrousItem"@)[0] == 'W');
            assert(("Ring"@)[0] == 'R');
        }
        assert(("WondrousItem"@) != ("Rod"@)) by {
            assert(("WondrousItem"@)[0] == 'W');
            assert(("Rod"@)[0] == 'R');
        }
        assert(("WondrousItem"@) != ("Scroll"@)) by {
            assert(("WondrousItem"@)[0] == 'W');
            assert(("Scroll"@)[0] == 'S');
        }
        assert(("WondrousItem"@) != ("Staff"@)) by {
            assert(("WondrousItem"@)[0] == 'W');
            assert(("Staff"@)[0] == 'S');
        }
        assert(("WondrousItem"@) != ("Wand"@)) by {
            assert(("WondrousItem"@)[1] == 'o');
            assert(("Wand"@)[1] == 'a');
        }
        assert(("WondrousItem"@) != ("Weapon"@)) by {
            assert(("WondrousItem"@)[1] == 'o');
            assert(("Weapon"@)[1] == 'e');
        }
        match v {
            ItemType::Armor => {
                assert(Self::spec_dec(Self::spec_enc(ItemType::Armor)) == Some(ItemType::Armor));
            },
            ItemType::Potion => {
                assert(Self::spec_dec(Self::spec_enc(ItemType::Potion)) == Some(ItemType::Potion));
            },
            ItemType::Ring => {
                assert(Self::spec_dec(Self::spec_enc(ItemType::Ring)) == Some(ItemType::Ring));
            },
            ItemType::Rod => {
                assert(Self::spec_dec(Self::spec_enc(ItemType::Rod)) == Some(ItemType::Rod));
            },
            ItemType::Scroll => {
                assert(Self::spec_dec(Self::spec_enc(ItemType::Scroll)) == Some(ItemType::Scroll));
            },
            ItemType::Staff => {
                assert(Self::spec_dec(Self::spec_enc(ItemType::Staff)) == Some(ItemType::Staff));
            },
            ItemType::Wand => {
                assert(Self::spec_dec(Self::spec_enc(ItemType::Wand)) == Some(ItemType::Wand));
            },
            ItemType::Weapon => {
                assert(Self::spec_dec(Self::spec_enc(ItemType::Weapon)) == Some(ItemType::Weapon));
            },
            ItemType::WondrousItem => {
                assert(Self::spec_dec(Self::spec_enc(ItemType::WondrousItem)) == Some(ItemType::WondrousItem));
            },
        }
    }
}

impl ItemType {
    /// Every item kind, in declaration order.
    pub fn all() -> (r: Vec<ItemType>)
        ensures
            r.deep_view() == seq![
                ItemType::Armor,
                ItemType::Potion,
                ItemType::Ring,
                ItemType::Rod,
                ItemType::Scroll,
                ItemType::Staff,
                ItemType::Wand,
                ItemType::Weapon,
                ItemType::WondrousItem,
            ],
    {
        let mut r: Vec<ItemType> = Vec::new();
        r.push(ItemType::Armor);
        r.push(ItemType::Potion);
        r.push(ItemType::Ring);
        r.push(ItemType::Rod);
        r.push(ItemType::Scroll);
        r.push(ItemType::Staff);
        r.push(ItemType::Wand);
        r.push(ItemType::Weapon);
        r.push(ItemType::WondrousItem);
        proof {
            assert(r.deep_view() =~= seq![
                ItemType::Armor,
                ItemType::Potion,
                ItemType::Ring,
                ItemType::Rod,
                ItemType::Scroll,
                ItemType::Staff,
                ItemType::Wand,
                ItemType::Weapon,
                ItemType::WondrousItem,
            ]);
        }
        r
    }
}

/// How rare an item is.
#[derive(Debug, Clone, Copy, PartialEq, Eq, Structural)]
pub enum ItemRarity {
    Common,
    Uncommon,
    Rare,
    VeryRare,
    Legendary,
    Artifact,
    Varies,
    Unknown,
}

impl DeepView for ItemRarity {
    type V = ItemRarity;

    open spec fn deep_view(&self) -> ItemRarity {
        *self
    }
}

impl ItemRarity {
    /// The display text of this rarity.
    pub open spec fn spec_display(self) -> Seq<char> {
        match self {
            ItemRarity::Common => "Common"@,
            ItemRarity::Uncommon => "Uncommon"@,
            ItemRarity::Rare => "Rare"@,
            ItemRarity::VeryRare => "Very Rare"@,
            ItemRarity::Legendary => "Legendary"@,
            ItemRarity::Artifact => "Artifact"@,
            ItemRarity::Varies => "Varies"@,
            ItemRarity::Unknown => "Unknown Rarity"@,
        }
    }

    /// Renders the display text of this value.
    pub fn to_string(&self) -> (s: String)
        ensures
            s@ == self.spec_display(),
    {
        match self {
            ItemRarity::Common => String::from_str("Common"),
            ItemRarity::Uncommon => String::from_str("Uncommon"),
            ItemRarity::Rare => String::from_str("Rare"),
            ItemRarity::VeryRare => String::from_str("Very Rare"),
            ItemRarity::Legendary => String::from_str("Legendary"),
            ItemRarity::Artifact => String::from_str("Artifact"),
            ItemRarity::Varies => String::from_str("Varies"),
            ItemRarity::Unknown => String::from_str("Unknown Rarity"),
        }
    }
}

impl Codec for ItemRarity {
    open spec fn spec_enc(v: ItemRarity) -> RecordV {
        match v {
            ItemRarity::Common => RecordV::Tag("Common"@, Seq::empty()),
            ItemRarity::Uncommon => RecordV::Tag("Uncommon"@, Seq::empty()),
            ItemRarity::Rare => RecordV::Tag("Rare"@, Seq::empty()),
            ItemRarity::VeryRare => RecordV::Tag("VeryRare"@, Seq::empty()),
            ItemRarity::Legendary => RecordV::Tag("Legendary"@, Seq::empty()),
            ItemRarity::Artifact => RecordV::Tag("Artifact"@, Seq::empty()),
            ItemRarity::Varies => RecordV::Tag("Varies"@, Seq::empty()),
            ItemRarity::Unknown => RecordV::Tag("Unknown"@, Seq::empty()),
        }
    }

    open spec fn spec_dec(r: RecordV) -> Option<ItemRarity> {
        match r {
            RecordV::Tag(t, args) => {
                if t == "Common"@ && args.len() == 0 {
                    Some(ItemRarity::Common)
                } else if t == "Uncommon"@ && args.len() == 0 {
                    Some(ItemRarity::Uncommon)
                } else if t == "Rare"@ && args.len() == 0 {
                    Some(ItemRarity::Rare)
                } else if t == "VeryRare"@ && args.len() == 0 {
                    Some(ItemRarity::VeryRare)
                } else if t == "Legendary"@ && args.len() == 0 {
                    Some(ItemRarity::Legendary)
                } else if t == "Artifact"@ && args.len() == 0 {
                    Some(ItemRarity::Artifact)
                } else if t == "Varies"@ && args.len() == 0 {
                    Some(ItemRarity::Varies)
                } else if t == "Unknown"@ && args.len() == 0 {
                    Some(ItemRarity::Unknown)
                } else {
                    None
                }
            },
            _ => None,
        }
    }

    fn to_record(&self) -> (r: Record) {
        match self {
            ItemRarity::Common => {
                let r = Record::Tag(String::from_str("Common"), Vec::new());
                proof {
                    assert(rec_views(Seq::<Record>::empty()) =~= Seq::<RecordV>::empty());
                }
                r
            },
            ItemRarity::Uncommon => {
                let r = Record::Tag(String::from_str("Uncommon"), Vec::new());
                proof {
                    assert(rec_views(Seq::<Record>::empty()) =~= Seq::<RecordV>::empty());
                }
                r
            },
            ItemRarity::Rare => {
                let r = Record::Tag(String::from_str("Rare"), Vec::new());
                proof {
                    assert(rec_views(Seq::<Record>::empty()) =~= Seq::<RecordV>::empty());
                }
                r
            },
            ItemRarity::VeryRare => {
                let r = Record::Tag(String::from_str("VeryRare"), Vec::new());
                proof {
                    assert(rec_views(Seq::<Record>::empty()) =~= Seq::<RecordV>::empty());
                }
                r
            },
            ItemRarity::Legendary => {
                let r = Record::Tag(String::from_str("Legendary"), Vec::new());
                proof {
                    assert(rec_views(Seq::<Record>::empty()) =~= Seq::<RecordV>::empty());
                }
                r
            },
            ItemRarity::Artifact => {
                let r = Record::Tag(String::from_str("Artifact"), Vec::new());
                proof {
                    assert(rec_views(Seq::<Record>::empty()) =~= Seq::<RecordV>::empty());
                }
                r
            },
            ItemRarity::Varies => {
                let r = Record::Tag(String::from_str("Varies"), Vec::new());
                proof {
                    assert(rec_views(Seq::<Record>::empty()) =~= Seq::<RecordV>::empty());
                }
                r
            },
            ItemRarity::Unknown => {
                let r = Record::Tag(String::from_str("Unknown"), Vec::new());
                proof {
                    assert(rec_views(Seq::<Record>::empty()) =~= Seq::<RecordV>::empty());
                }
                r
            },
        }
    }

    fn from_record(r: &Record) -> (res: Result<ItemRarity, DecodeError>) {
        match r {
            Record::Tag(t, args) => {
                if str_eq(t.as_str(), "Common") && args.len() == 0 {
                    Ok(ItemRarity::Common)
                } else if str_eq(t.as_str(), "Uncommon") && args.len() == 0 {
                    Ok(ItemRarity::Uncommon)
                } else if str_eq(t.as_str(), "Rare") && args.len() == 0 {
                    Ok(ItemRarity::Rare)
                } else if str_eq(t.as_str(), "VeryRare") && args.len() == 0 {
                    Ok(ItemRarity::VeryRare)
                } else if str_eq(t.as_str(), "Legendary") && args.len() == 0 {
                    Ok(ItemRarity::Legendary)
                } else if str_eq(t.as_str(), "Artifact") && args.len() == 0 {
                    Ok(ItemRarity::Artifact)
                } else if str_eq(t.as_str(), "Varies") && args.len() == 0 {
                    Ok(ItemRarity::Varies)
                } else if str_eq(t.as_str(), "Unknown") && args.len() == 0 {
                    Ok(ItemRarity::Unknown)
                } else {
                    Err(DecodeError::Malformed)
                }
            },
            _ => Err(DecodeError::Malformed),
        }
    }

    proof fn lemma_round_trip(v: ItemRarity) {
        reveal_strlit("Common");
        reveal_strlit("Uncommon");
        reveal_strlit("Rare");
        reveal_strlit("VeryRare");
        reveal_strlit("Legendary");
        reveal_strlit("Artifact");
        reveal_strlit("Varies");
        reveal_strlit("Unknown");
        assert(("Uncommon"@) != ("Common"@)) by {
            assert(("Uncommon"@)[0] == 'U');
            assert(("Common"@)[0] == 'C');
        }
        assert(("Rare"@) != ("Common"@)) by {
            assert(("Rare"@)[0] == 'R');
            assert(("Common"@)[0] == 'C');
        }
        assert(("Rare"@) != ("Uncommon"@)) by {
            assert(("Rare"@)[0] == 'R');
            assert(("Uncommon"@)[0] == 'U');
        }
        assert(("VeryRare"@) != ("Common"@)) by {
            assert(("VeryRare"@)[0] == 'V');
            assert(("Common"@)[0] == 'C');
        }
        assert(("VeryRare"@) != ("Uncommon"@)) by {
            assert(("VeryRare"@)[0] == 'V');
            assert(("Uncommon"@)[0] == 'U');
        }
        assert(("VeryRare"@) != ("Rare"@)) by {
            assert(("VeryRare"@)[0] == 'V');
            assert(("Rare"@)[0] == 'R');
        }
        assert(("Legendary"@) != ("Common"@)) by {
            assert(("Legendary"@)[0] == 'L');
            assert(("Common"@)[0] == 'C');
        }
        assert(("Legendary"@) != ("Uncommon"@)) by {
            assert(("Legendary"@)[0] == 'L');
            assert(("Uncommon"@)[0] == 'U');
        }
        assert(("Legendary"@) != ("Rare"@)) by {
            assert(("Legendary"@)[0] == 'L');
            assert(("Rare"@)[0] == 'R');
        }
        assert(("Legendary"@) != ("VeryRare"@)) by {
            assert(("Legendary"@)[0] == 'L');
            assert(("VeryRare"@)[0] == 'V');
        }
        assert(("Artifact"@) != ("Common"@)) by {
            assert(("Artifact"@)[0] == 'A');
            assert(("Common"@)[0] == 'C');
        }
        assert(("Artifact"@) != ("Uncommon"@)) by {
            assert(("Artifact"@)[0] == 'A');
            assert(("Uncommon"@)[0] == 'U');
        }
        assert(("Artifact"@) != ("Rare"@)) by {
            assert(("Artifact"@)[0] == 'A');
            assert(("Rare"@)[0] == 'R');
        }
        assert(("Artifact"@) != ("VeryRare"@)) by {
            assert(("Artifact"@)[0] == 'A');
            assert(("VeryRare"@)[0] == 'V');
        }
        assert(("Artifact"@) != ("Legendary"@)) by {
            assert(("Artifact"@)[0] == 'A');
            assert(("Legendary"@)[0] == 'L');
        }
        assert(("Varies"@) != ("Common"@)) by {
            assert(("Varies"@)[0] == 'V');
            assert(("Common"@)[0] == 'C');
        }
        assert(("Varies"@) != ("Uncommon"@)) by {
            assert(("Varies"@)[0] == 'V');
            assert(("Uncommon"@)[0] == 'U');
        }
        assert(("Varies"@) != ("Rare"@)) by {
            assert(("Varies"@)[0] == 'V');
            assert(("Rare"@)[0] == 'R');
        }
        assert(("Varies"@) != ("VeryRare"@)) by {
            assert(("Varies"@)[1] == 'a');
            assert(("VeryRare"@)[1] == 'e');
        }
        assert(("Varies"@) != ("Legendary"@)) by {
            assert(("Varies"@)[0] == 'V');
            assert(("Legendary"@)[0] == 'L');
        }
        assert(("Varies"@) != ("Artifact"@)) by {
            assert(("Varies"@)[0] == 'V');
            assert(("Artifact"@)[0] == 'A');
        }
        assert(("Unknown"@) != ("Common"@)) by {
            assert(("Unknown"@)[0] == 'U');
            assert(("Common"@)[0] == 'C');
        }
        assert(("Unknown"@) != ("Uncommon"@)) by {
            assert(("Unknown"@)[2] == 'k');
            assert(("Uncommon"@)[2] == 'c');
        }
        assert(("Unknown"@) != ("Rare"@)) by {
            assert(("Unknown"@)[0] == 'U');
            assert(("Rare"@)[0] == 'R');
        }
        assert(("Unknown"@) != ("VeryRare"@)) by {
            assert(("Unknown"@)[0] == 'U');
            assert(("VeryRare"@)[0] == 'V');
        }
        assert(("Unknown"@) != ("Legendary"@)) by {
            assert(("Unknown"@)[0] == 'U');
            assert(("Legendary"@)[0] == 'L');
        }
        assert(("Unknown"@) != ("Artifact"@)) by {
            assert(("Unknown"@)[0] == 'U');
            assert(("Artifact"@)[0] == 'A');
        }
        assert(("Unknown"@) != ("Varies"@)) by {
            assert(("Unknown"@)[0] == 'U');
            assert(("Varies"@)[0] == 'V');
        }
        match v {
            ItemRarity::Common => {
                assert(Self::spec_dec(Self::spec_enc(ItemRarity::Common)) == Some(ItemRarity::Common));
            },
            ItemRarity::Uncommon => {
                assert(Self::spec_dec(Self::spec_enc(ItemRarity::Uncommon)) == Some(ItemRarity::Uncommon));
            },
            ItemRarity::Rare => {
                assert(Self::spec_dec(Self::spec_enc(ItemRarity::Rare)) == Some(ItemRarity::Rare));
            },
            ItemRarity::VeryRare => {
                assert(Self::spec_dec(Self::spec_enc(ItemRarity::VeryRare)) == Some(ItemRarity::VeryRare));
            },
            ItemRarity::Legendary => {
                assert(Self::spec_dec(Self::spec_enc(ItemRarity::Legendary)) == Some(ItemRarity::Legendary));
            },
            ItemRarity::Artifact => {
                assert(Self::spec_dec(Self::spec_enc(ItemRarity::Artifact)) == Some(ItemRarity::Artifact));
            },
            ItemRarity::Varies => {
                assert(Self::spec_dec(Self::spec_enc(ItemRarity::Varies)) == Some(ItemRarity::Varies));
            },
            ItemRarity::Unknown => {
                assert(Self::spec_dec(Self::spec_enc(ItemRarity::Unknown)) == Some(ItemRarity::Unknown));
            },
        }
    }
}

/// An attunement requirement, optionally restricted to certain alignments.
#[derive(Debug, Clone, PartialEq)]
pub struct Attuneable {
    pub alignments: Option<Vec<Alignment>>,
}

/// The mathematical form of a [`Attuneable`].
#[verifier::ext_equal]
pub struct AttuneableView {
    pub alignments: Option<Seq<Alignment>>,
}

impl DeepView for Attuneable {
    type V = AttuneableView;

    open spec fn deep_view(&self) -> AttuneableView {
        AttuneableView {
            alignments: self.alignments.deep_view(),
        }
    }
}

/// The display text of a list of alignments, joined by commas.
pub open spec fn alignments_text(s: Seq<Alignment>) -> Seq<char>
    decreases s.len(),
{
    if s.len() == 0 {
        Seq::empty()
    } else if s.len() == 1 {
        s[0].spec_display()
    } else {
        alignments_text(s.drop_last()) + ","@ + s.last().spec_display()
    }
}

impl AttuneableView {
    /// The display text of an attunement clause: `"(requires attunement"`,
    /// then a comma and the permitted alignments when they are restricted,
    /// closed by `")"`. An absent alignment list means unrestricted
    /// attunement.
    pub open spec fn spec_display(self) -> Seq<char> {
        match self.alignments {
            None => "(requires attunement"@ + ")"@,
            Some(al) => "(requires attunement"@ + ", "@ + alignments_text(al) + ")"@,
        }
    }
}

impl Attuneable {
    /// Renders the display text of this attunement clause.
    pub fn to_string(&self) -> (s: String)
        ensures
            s@ == self.deep_view().spec_display(),
    {
        let mut s = String::from_str("(requires attunement");
        match &self.alignments {
            None => {},
            Some(al) => {
                s.append(", ");
                let ghost base = s@;
                let mut i: usize = 0;
                while i < al.len()
                    invariant
                        i <= al@.len(),
                        s@ == base + alignments_text(al.deep_view().take(i as int)),
                    decreases al@.len() - i,
                {
                    if i > 0 {
                        s.append(",");
                    }
                    let text = al[i].to_string();
                    s.append(text.as_str());
                    proof {
                        let view = al.deep_view();
                        let t1 = view.take(i as int + 1);
                        assert(t1.drop_last() =~= view.take(i as int));
                        assert(t1.last() == view[i as int]);
                        assert(s@ =~= base + alignments_text(t1));
                    }
                    i += 1;
                }
                proof {
                    assert(al.deep_view().take(al@.len() as int) =~= al.deep_view());
                }
            },
        }
        s.append(")");
        proof {
            assert(s@ =~= self.deep_view().spec_display());
        }
        s
    }
}

impl Codec for Attuneable {
    open spec fn spec_enc(v: AttuneableView) -> RecordV {
        RecordV::Obj(
            seq![
                ("alignments"@, <Option<Vec<Alignment>> as Codec>::spec_enc(v.alignments)),
            ],
        )
    }

    open spec fn spec_dec(r: RecordV) -> Option<AttuneableView> {
        match r {
            RecordV::Obj(fields) => if fields.len() == 1
                && fields[0].0 == "alignments"@ {
                match <Option<Vec<Alignment>> as Codec>::spec_dec(fields[0].1) {
                    Some(f_alignments) => Some(AttuneableView { alignments: f_alignments }),
                    _ => None,
                }
            } else {
                None
            },
            _ => None,
        }
    }

    fn to_record(&self) -> (r: Record) {
        let mut fs: Vec<(String, Record)> = Vec::new();
        fs.push((String::from_str("alignments"), self.alignments.to_record()));
        let r = Record::Obj(fs);
        proof {
            assert(field_views(fs@) =~= seq![
                ("alignments"@, <Option<Vec<Alignment>> as Codec>::spec_enc(self.alignments.deep_view())),
            ]);
        }
        r
    }

    fn from_record(r: &Record) -> (res: Result<Attuneable, DecodeError>) {
        match r {
            Record::Obj(fs) => {
                if fs.len() != 1 {
                    return Err(DecodeError::Malformed);
                }
                let e0 = &fs[0];
                if !str_eq(e0.0.as_str(), "alignments") {
                    return Err(DecodeError::Malformed);
                }
                let f_alignments = match <Option<Vec<Alignment>>>::from_record(&e0.1) {
                    Ok(x) => x,
                    Err(e) => return Err(e),
                };
                Ok(Attuneable { alignments: f_alignments })
            },
            _ => Err(DecodeError::Malformed),
        }
    }

    proof fn lemma_round_trip(v: AttuneableView) {
        <Option<Vec<Alignment>> as Codec>::lemma_round_trip(v.alignments);
    }
}

/// The kind of a weapon.
#[derive(Debug, Clone, Copy, PartialEq, Eq, Structural)]
pub enum WeaponType {
    Sword,
}

impl DeepView for WeaponType {
    type V = WeaponType;

    open spec fn deep_view(&self) -> WeaponType {
        *self
    }
}

impl WeaponType {
    /// The display text of this weapon kind: its name.
    pub open spec fn spec_display(self) -> Seq<char> {
        match self {
            WeaponType::Sword => "Sword"@,
        }
    }

    /// Renders the display text of this value.
    pub fn to_string(&self) -> (s: String)
        ensures
            s@ == self.spec_display(),
    {
        match self {
            WeaponType::Sword => String::from_str("Sword"),
        }
    }
}

impl Codec for WeaponType {
    open spec fn spec_enc(v: WeaponType) -> RecordV {
        match v {
            WeaponType::Sword => RecordV::Tag("Sword"@, Seq::empty()),
        }
    }

    open spec fn spec_dec(r: RecordV) -> Option<WeaponType> {
        match r {
            RecordV::Tag(t, args) => {
                if t == "Sword"@ && args.len() == 0 {
                    Some(WeaponType::Sword)
                } else {
                    None
                }
            },
            _ => None,
        }
    }

    fn to_record(&self) -> (r: Record) {
        match self {
            WeaponType::Sword => {
                let r = Record::Tag(String::from_str("Sword"), Vec::new());
                proof {
                    assert(rec_views(Seq::<Record>::empty()) =~= Seq::<RecordV>::empty());
                }
                r
            },
        }
    }

    fn from_record(r: &Record) -> (res: Result<WeaponType, DecodeError>) {
        match r {
            Record::Tag(t, args) => {
                if str_eq(t.as_str(), "Sword") && args.len() == 0 {
                    Ok(WeaponType::Sword)
                } else {
                    Err(DecodeError::Malformed)
                }
            },
            _ => Err(DecodeError::Malformed),
        }
    }

    proof fn lemma_round_trip(v: WeaponType) {
        reveal_strlit("Sword");
        match v {
            WeaponType::Sword => {
                assert(Self::spec_dec(Self::spec_enc(WeaponType::Sword)) == Some(WeaponType::Sword));
            },
        }
    }
}

/// The kind of a piece of armor.
#[derive(Debug, Clone, Copy, PartialEq, Eq, Structural)]
pub enum ArmorType {
    Shield,
}

impl DeepView for ArmorType {
    type V = ArmorType;

    open spec fn deep_view(&self) -> ArmorType {
        *self
    }
}

impl ArmorType {
    /// The display text of this armor kind: its name.
    pub open spec fn spec_display(self) -> Seq<char> {
        match self {
            ArmorType::Shield => "Shield"@,
        }
    }

    /// Renders the display text of this value.
    pub fn to_string(&self) -> (s: String)
        ensures
            s@ == self.spec_display(),
    {
        match self {
            ArmorType::Shield => String::from_str("Shield"),
        }
    }
}

impl Codec for ArmorType {
    open spec fn spec_enc(v: ArmorType) -> RecordV {
        match v {
            ArmorType::Shield => RecordV::Tag("Shield"@, Seq::empty()),
        }
    }

    open spec fn spec_dec(r: RecordV) -> Option<ArmorType> {
        match r {
            RecordV::Tag(t, args) => {
                if t == "Shield"@ && args.len() == 0 {
                    Some(ArmorType::Shield)
                } else {
                    None
                }
            },
            _ => None,
        }
    }

    fn to_record(&self) -> (r: Record) {
        match self {
            ArmorType::Shield => {
                let r = Record::Tag(String::from_str("Shield"), Vec::new());
                proof {
                    assert(rec_views(Seq::<Record>::empty()) =~= Seq::<RecordV>::empty());
                }
                r
            },
        }
    }

    fn from_record(r: &Record) -> (res: Result<ArmorType, DecodeError>) {
        match r {
            Record::Tag(t, args) => {
                if str_eq(t.as_str(), "Shield") && args.len() == 0 {
                    Ok(ArmorType::Shield)
                } else {
                    Err(DecodeError::Malformed)
                }
            },
            _ => Err(DecodeError::Malformed),
        }
    }

    proof fn lemma_round_trip(v: ArmorType) {
        reveal_strlit("Shield");
        match v {
            ArmorType::Shield => {
                assert(Self::spec_dec(Self::spec_enc(ArmorType::Shield)) == Some(ArmorType::Shield));
            },
        }
    }
}

/// A unit of time charges are regained over.
#[derive(Debug, Clone, Copy, PartialEq, Eq, Structural)]
pub enum TimeDivision {
    Round,
    Second,
    Minute,
    Hour,
    Day,
    Month,
    Year,
}

impl DeepView for TimeDivision {
    type V = TimeDivision;

    open spec fn deep_view(&self) -> TimeDivision {
        *self
    }
}

impl TimeDivision {
    /// The display text of this time unit: its name, in the singular.
    pub open spec fn spec_display(self) -> Seq<char> {
        match self {
            TimeDivision::Round => "Round"@,
            TimeDivision::Second => "Second"@,
            TimeDivision::Minute => "Minute"@,
            TimeDivision::Hour => "Hour"@,
            TimeDivision::Day => "Day"@,
            TimeDivision::Month => "Month"@,
            TimeDivision::Year => "Year"@,
        }
    }

    /// Renders the display text of this value.
    pub fn to_string(&self) -> (s: String)
        ensures
            s@ == self.spec_display(),
    {
        match self {
            TimeDivision::Round => String::from_str("Round"),
            TimeDivision::Second => String::from_str("Second"),
            TimeDivision::Minute => String::from_str("Minute"),
            TimeDivision::Hour => String::from_str("Hour"),
            TimeDivision::Day => String::from_str("Day"),
            TimeDivision::Month => String::from_str("Month"),
            TimeDivision::Year => String::from_str("Year"),
        }
    }
}

impl TimeDivision {
    /// The plural display text of this time unit: its name with an `s`.
    pub open spec fn spec_plural(self) -> Seq<char> {
        self.spec_display() + "s"@
    }

    /// Renders the plural display text of this time unit.
    pub fn to_plural_string(&self) -> (s: String)
        ensures
            s@ == self.spec_plural(),
    {
        let mut s = self.to_string();
        s.append("s");
        s
    }
}

impl Codec for TimeDivision {
    open spec fn spec_enc(v: TimeDivision) -> RecordV {
        match v {
            TimeDivision::Round => RecordV::Tag("Round"@, Seq::empty()),
            TimeDivision::Second => RecordV::Tag("Second"@, Seq::empty()),
            TimeDivision::Minute => RecordV::Tag("Minute"@, Seq::empty()),
            TimeDivision::Hour => RecordV::Tag("Hour"@, Seq::empty()),
            TimeDivision::Day => RecordV::Tag("Day"@, Seq::empty()),
            TimeDivision::Month => RecordV::Tag("Month"@, Seq::empty()),
            TimeDivision::Year => RecordV::Tag("Year"@, Seq::empty()),
        }
    }

    open spec fn spec_dec(r: RecordV) -> Option<TimeDivision> {
        match r {
            RecordV::Tag(t, args) => {
                if t == "Round"@ && args.len() == 0 {
                    Some(TimeDivision::Round)
                } else if t == "Second"@ && args.len() == 0 {
                    Some(TimeDivision::Second)
                } else if t == "Minute"@ && args.len() == 0 {
                    Some(TimeDivision::Minute)
                } else if t == "Hour"@ && args.len() == 0 {
                    Some(TimeDivision::Hour)
                } else if t == "Day"@ && args.len() == 0 {
                    Some(TimeDivision::Day)
                } else if t == "Month"@ && args.len() == 0 {
                    Some(TimeDivision::Month)
                } else if t == "Year"@ && args.len() == 0 {
                    Some(TimeDivision::Year)
                } else {
                    None
                }
            },
            _ => None,
        }
    }

    fn to_record(&self) -> (r: Record) {
        match self {
            TimeDivision::Round => {
                let r = Record::Tag(String::from_str("Round"), Vec::new());
                proof {
                    assert(rec_views(Seq::<Record>::empty()) =~= Seq::<RecordV>::empty());
                }
                r
            },
            TimeDivision::Second => {
                let r = Record::Tag(String::from_str("Second"), Vec::new());
                proof {
                    assert(rec_views(Seq::<Record>::empty()) =~= Seq::<RecordV>::empty());
                }
                r
            },
            TimeDivision::Minute => {
                let r = Record::Tag(String::from_str("Minute"), Vec::new());
                proof {
                    assert(rec_views(Seq::<Record>::empty()) =~= Seq::<RecordV>::empty());
                }
                r
            },
            TimeDivision::Hour => {
                let r = Record::Tag(String::from_str("Hour"), Vec::new());
                proof {
                    assert(rec_views(Seq::<Record>::empty()) =~= Seq::<RecordV>::empty());
                }
                r
            },
            TimeDivision::Day => {
                let r = Record::Tag(String::from_str("Day"), Vec::new());
                proof {
                    assert(rec_views(Seq::<Record>::empty()) =~= Seq::<RecordV>::empty());
                }
                r
            },
            TimeDivision::Month => {
                let r = Record::Tag(String::from_str("Month"), Vec::new());
                proof {
                    assert(rec_views(Seq::<Record>::empty()) =~= Seq::<RecordV>::empty());
                }
                r
            },
            TimeDivision::Year => {
                let r = Record::Tag(String::from_str("Year"), Vec::new());
                proof {
                    assert(rec_views(Seq::<Record>::empty()) =~= Seq::<RecordV>::empty());
                }
                r
            },
        }
    }

    fn from_record(r: &Record) -> (res: Result<TimeDivision, DecodeError>) {
        match r {
            Record::Tag(t, args) => {
                if str_eq(t.as_str(), "Round") && args.len() == 0 {
                    Ok(TimeDivision::Round)
                } else if str_eq(t.as_str(), "Second") && args.len() == 0 {
                    Ok(TimeDivision::Second)
                } else if str_eq(t.as_str(), "Minute") && args.len() == 0 {
                    Ok(TimeDivision::Minute)
                } else if str_eq(t.as_str(), "Hour") && args.len() == 0 {
                    Ok(TimeDivision::Hour)
                } else if str_eq(t.as_str(), "Day") && args.len() == 0 {
                    Ok(TimeDivision::Day)
                } else if str_eq(t.as_str(), "Month") && args.len() == 0 {
                    Ok(TimeDivision::Month)
                } else if str_eq(t.as_str(), "Year") && args.len() == 0 {
                    Ok(TimeDivision::Year)
                } else {
                    Err(DecodeError::Malformed)
                }
            },
            _ => Err(DecodeError::Malformed),
        }
    }

    proof fn lemma_round_trip(v: TimeDivision) {
        reveal_strlit("Round");
        reveal_strlit("Second");
        reveal_strlit("Minute");
        reveal_strlit("Hour");
        reveal_strlit("Day");
        reveal_strlit("Month");
        reveal_strlit("Year");
        assert(("Second"@) != ("Round"@)) by {
            assert(("Second"@)[0] == 'S');
            assert(("Round"@)[0] == 'R');
        }
        assert(("Minute"@) != ("Round"@)) by {
            assert(("Minute"@)[0] == 'M');
            assert(("Round"@)[0] == 'R');
        }
        assert(("Minute"@) != ("Second"@)) by {
            assert(("Minute"@)[0] == 'M');
            assert(("Second"@)[0] == 'S');
        }
        assert(("Hour"@) != ("Round"@)) by {
            assert(("Hour"@)[0] == 'H');
            assert(("Round"@)[0] == 'R');
        }
        assert(("Hour"@) != ("Second"@)) by {
            assert(("Hour"@)[0] == 'H');
            assert(("Second"@)[0] == 'S');
        }
        assert(("Hour"@) != ("Minute"@)) by {
            assert(("Hour"@)[0] == 'H');
            assert(("Minute"@)[0] == 'M');
        }
        assert(("Day"@) != ("Round"@)) by {
            assert(("Day"@)[0] == 'D');
            assert(("Round"@)[0] == 'R');
        }
        assert(("Day"@) != ("Second"@)) by {
            assert(("Day"@)[0] == 'D');
            assert(("Second"@)[0] == 'S');
        }
        assert(("Day"@) != ("Minute"@)) by {
            assert(("Day"@)[0] == 'D');
            assert(("Minute"@)[0] == 'M');
        }
        assert(("Day"@) != ("Hour"@)) by {
            assert(("Day"@)[0] == 'D');
            assert(("Hour"@)[0] == 'H');
        }
        assert(("Month"@) != ("Round"@)) by {
            assert(("Month"@)[0] == 'M');
            assert(("Round"@)[0] == 'R');
        }
        assert(("Month"@) != ("Second"@)) by {
            assert(("Month"@)[0] == 'M');
            assert(("Second"@)[0] == 'S');
        }
        assert(("Month"@) != ("Minute"@)) by {
            assert(("Month"@)[1] == 'o');
            assert(("Minute"@)[1] == 'i');
        }
        assert(("Month"@) != ("Hour"@)) by {
            assert(("Month"@)[0] == 'M');
            assert(("Hour"@)[0] == 'H');
        }
        assert(("Month"@) != ("Day"@)) by {
            assert(("Month"@)[0] == 'M');
            assert(("Day"@)[0] == 'D');
        }
        assert(("Year"@) != ("Round"@)) by {
            assert(("Year"@)[0] == 'Y');
            assert(("Round"@)[0] == 'R');
        }
        assert(("Year"@) != ("Second"@)) by {
            assert(("Year"@)[0] == 'Y');
            assert(("Second"@)[0] == 'S');
        }
        assert(("Year"@) != ("Minute"@)) by {
            assert(("Year"@)[0] == 'Y');
            assert(("Minute"@)[0] == 'M');
        }
        assert(("Year"@) != ("Hour"@)) by {
            assert(("Year"@)[0] == 'Y');
            assert(("Hour"@)[0] == 'H');
        }
        assert(("Year"@) != ("Day"@)) by {
            assert(("Year"@)[0] == 'Y');
            assert(("Day"@)[0] == 'D');
        }
        assert(("Year"@) != ("Month"@)) by {
            assert(("Year"@)[0] == 'Y');
            assert(("Month"@)[0] == 'M');
        }
        match v {
            TimeDivision::Round => {
                assert(Self::spec_dec(Self::spec_enc(TimeDivision::Round)) == Some(TimeDivision::Round));
            },
            TimeDivision::Second => {
                assert(Self::spec_dec(Self::spec_enc(TimeDivision::Second)) == Some(TimeDivision::Second));
            },
            TimeDivision::Minute => {
                assert(Self::spec_dec(Self::spec_enc(TimeDivision::Minute)) == Some(TimeDivision::Minute));
            },
            TimeDivision::Hour => {
                assert(Self::spec_dec(Self::spec_enc(TimeDivision::Hour)) == Some(TimeDivision::Hour));
            },
            TimeDivision::Day => {
                assert(Self::spec_dec(Self::spec_enc(TimeDivision::Day)) == Some(TimeDivision::Day));
            },
            TimeDivision::Month => {
                assert(Self::spec_dec(Self::spec_enc(TimeDivision::Month)) == Some(TimeDivision::Month));
            },
            TimeDivision::Year => {
                assert(Self::spec_dec(Self::spec_enc(TimeDivision::Year)) == Some(TimeDivision::Year));
            },
        }
    }
}

/// A limited-use budget: how many charges an item has per unit of time.
#[derive(Debug, Clone, Copy, PartialEq, Eq, Structural)]
pub struct Charge {
    pub num: i32,
    pub time: TimeDivision,
}

impl DeepView for Charge {
    type V = Charge;

    open spec fn deep_view(&self) -> Charge {
        *self
    }
}

impl Charge {
    /// The display text of a charge budget: `"{count}/{unit}"`.
    pub open spec fn spec_display(self) -> Seq<char> {
        dec_str(self.num as int) + "/"@ + self.time.spec_display()
    }

    /// Renders the display text of this charge budget.
    pub fn to_string(&self) -> (s: String)
        ensures
            s@ == self.spec_display(),
    {
        let mut s = dec_string(self.num as i64);
        s.append("/");
        let time = self.time.to_string();
        s.append(time.as_str());
        proof {
            assert(s@ =~= self.spec_display());
        }
        s
    }
}

impl Codec for Charge {
    open spec fn spec_enc(v: Charge) -> RecordV {
        RecordV::Obj(
            seq![
                ("num"@, <i32 as Codec>::spec_enc(v.num)),
                ("time"@, <TimeDivision as Codec>::spec_enc(v.time)),
            ],
        )
    }

    open spec fn spec_dec(r: RecordV) -> Option<Charge> {
        match r {
            RecordV::Obj(fields) => if fields.len() == 2
                && fields[0].0 == "num"@
                && fields[1].0 == "time"@ {
                match (<i32 as Codec>::spec_dec(fields[0].1), <TimeDivision as Codec>::spec_dec(fields[1].1)) {
                    (Some(f_num), Some(f_time)) => Some(Charge { num: f_num, time: f_time }),
                    _ => None,
                }
            } else {
                None
            },
            _ => None,
        }
    }

    fn to_record(&self) -> (r: Record) {
        let mut fs: Vec<(String, Record)> = Vec::new();
        fs.push((String::from_str("num"), self.num.to_record()));
        fs.push((String::from_str("time"), self.time.to_record()));
        let r = Record::Obj(fs);
        proof {
            assert(field_views(fs@) =~= seq![
                ("num"@, <i32 as Codec>::spec_enc(self.num)),
                ("time"@, <TimeDivision as Codec>::spec_enc(self.time)),
            ]);
        }
        r
    }

    fn from_record(r: &Record) -> (res: Result<Charge, DecodeError>) {
        match r {
            Record::Obj(fs) => {
                if fs.len() != 2 {
                    return Err(DecodeError::Malformed);
                }
                let e0 = &fs[0];
                if !str_eq(e0.0.as_str(), "num") {
                    return Err(DecodeError::Malformed);
                }
                let f_num = match <i32>::from_record(&e0.1) {
                    Ok(x) => x,
                    Err(e) => return Err(e),
                };
                let e1 = &fs[1];
                if !str_eq(e1.0.as_str(), "time") {
                    return Err(DecodeError::Malformed);
                }
                let f_time = match <TimeDivision>::from_record(&e1.1) {
                    Ok(x) => x,
                    Err(e) => return Err(e),
                };
                Ok(Charge { num: f_num, time: f_time })
            },
            _ => Err(DecodeError::Malformed),
        }
    }

    proof fn lemma_round_trip(v: Charge) {
        <i32 as Codec>::lemma_round_trip(v.num);
        <TimeDivision as Codec>::lemma_round_trip(v.time);
    }
}

/// An item: equipment or treasure, possibly holding further items.
#[derive(Debug, PartialEq)]
pub struct Item {
    pub id: String,
    pub name: String,
    pub item_type: ItemType,
    pub rarity: ItemRarity,
    pub attunement: Option<Attuneable>,
    pub weapon_type: Option<WeaponType>,
    pub armor_type: Option<ArmorType>,
    pub conditions: Option<Vec<ConditionType>>,
    pub attached_spell: Option<Spell>,
    pub has_charges: Option<Charge>,
    pub inventory: Option<Vec<Item>>,
    pub others: Option<Vec<OtherAttribute>>,
    pub actions: Option<Vec<Action>>,
}

/// The mathematical form of an [`Item`].
#[verifier::ext_equal]
pub struct ItemView {
    pub id: Seq<char>,
    pub name: Seq<char>,
    pub item_type: ItemType,
    pub rarity: ItemRarity,
    pub attunement: Option<AttuneableView>,
    pub weapon_type: Option<WeaponType>,
    pub armor_type: Option<ArmorType>,
    pub conditions: Option<Seq<ConditionType>>,
    pub attached_spell: Option<SpellView>,
    pub has_charges: Option<Charge>,
    pub inventory: Option<Seq<ItemView>>,
    pub others: Option<Seq<OtherAttributeView>>,
    pub actions: Option<Seq<ActionView>>,
}

/// The mathematical form of an item, spelled out so the recursion through
/// the optional inventory is visibly well-founded.
pub open spec fn item_view(i: Item) -> ItemView
    decreases i,
{
    ItemView {
            id: i.id@,
            name: i.name@,
            item_type: i.item_type,
            rarity: i.rarity,
            attunement: i.attunement.deep_view(),
            weapon_type: i.weapon_type.deep_view(),
            armor_type: i.armor_type.deep_view(),
            conditions: i.conditions.deep_view(),
            attached_spell: i.attached_spell.deep_view(),
            has_charges: i.has_charges.deep_view(),
            others: i.others.deep_view(),
            actions: i.actions.deep_view(),
            inventory: match i.inventory {
            Some(v) => Some(items_view(v)),
            None => None,
        },
    }
}

/// The mathematical forms of a vector of items.
pub open spec fn items_view(v: Vec<Item>) -> Seq<ItemView>
    decreases v,
{
    Seq::new(
        v@.len(),
        |j: int|
            if 0 <= j < v@.len() {
                item_view(v@[j])
            } else {
                vstd::pervasive::arbitrary()
            },
    )
}

impl DeepView for Item {
    type V = ItemView;

    open spec fn deep_view(&self) -> ItemView {
        item_view(*self)
    }
}

/// The record form of an item.
pub open spec fn enc_item(v: ItemView) -> RecordV
    decreases v,
{
    RecordV::Obj(
        seq![
            ("id"@, <String as Codec>::spec_enc(v.id)),
            ("name"@, <String as Codec>::spec_enc(v.name)),
            ("item_type"@, <ItemType as Codec>::spec_enc(v.item_type)),
            ("rarity"@, <ItemRarity as Codec>::spec_enc(v.rarity)),
            ("attunement"@, <Option<Attuneable> as Codec>::spec_enc(v.attunement)),
            ("weapon_type"@, <Option<WeaponType> as Codec>::spec_enc(v.weapon_type)),
            ("armor_type"@, <Option<ArmorType> as Codec>::spec_enc(v.armor_type)),
            ("conditions"@, <Option<Vec<ConditionType>> as Codec>::spec_enc(v.conditions)),
            ("attached_spell"@, <Option<Spell> as Codec>::spec_enc(v.attached_spell)),
            ("has_charges"@, <Option<Charge> as Codec>::spec_enc(v.has_charges)),
            ("inventory"@, enc_opt_items(v.inventory)),
            ("others"@, <Option<Vec<OtherAttribute>> as Codec>::spec_enc(v.others)),
            ("actions"@, <Option<Vec<Action>> as Codec>::spec_enc(v.actions)),
        ],
    )
}

/// The record form of an optional item list.
pub open spec fn enc_opt_items(o: Option<Seq<ItemView>>) -> RecordV
    decreases o,
{
    match o {
        Some(s) => RecordV::Tag("Some"@, seq![RecordV::List(enc_items(s))]),
        None => RecordV::Tag("None"@, Seq::empty()),
    }
}

/// The record forms of an item list.
pub open spec fn enc_items(s: Seq<ItemView>) -> Seq<RecordV>
    decreases s,
{
    Seq::new(
        s.len(),
        |j: int|
            if 0 <= j < s.len() {
                enc_item(s[j])
            } else {
                RecordV::Bool(false)
            },
    )
}

/// The item a record decodes to, when it has the shape `enc_item` produces.
pub open spec fn dec_item(r: RecordV) -> Option<ItemView>
    decreases r,
{
    match r {
        RecordV::Obj(fields) => if fields.len() == 13
                && fields[0].0 == "id"@
                && fields[1].0 == "name"@
                && fields[2].0 == "item_type"@
                && fields[3].0 == "rarity"@
                && fields[4].0 == "attunement"@
                && fields[5].0 == "weapon_type"@
                && fields[6].0 == "armor_type"@
                && fields[7].0 == "conditions"@
                && fields[8].0 == "attached_spell"@
                && fields[9].0 == "has_charges"@
                && fields[10].0 == "inventory"@
                && fields[11].0 == "others"@
                && fields[12].0 == "actions"@ {
            match (<String as Codec>::spec_dec(fields[0].1), <String as Codec>::spec_dec(fields[1].1), <ItemType as Codec>::spec_dec(fields[2].1), <ItemRarity as Codec>::spec_dec(fields[3].1), <Option<Attuneable> as Codec>::spec_dec(fields[4].1), <Option<WeaponType> as Codec>::spec_dec(fields[5].1), <Option<ArmorType> as Codec>::spec_dec(fields[6].1), <Option<Vec<ConditionType>> as Codec>::spec_dec(fields[7].1), <Option<Spell> as Codec>::spec_dec(fields[8].1), <Option<Charge> as Codec>::spec_dec(fields[9].1), dec_opt_items(fields[10].1), <Option<Vec<OtherAttribute>> as Codec>::spec_dec(fields[11].1), <Option<Vec<Action>> as Codec>::spec_dec(fields[12].1)) {
                (Some(f_id), Some(f_name), Some(f_item_type), Some(f_rarity), Some(f_attunement), Some(f_weapon_type), Some(f_armor_type), Some(f_conditions), Some(f_attached_spell), Some(f_has_charges), Some(f_inventory), Some(f_others), Some(f_actions)) => Some(ItemView { id: f_id, name: f_name, item_type: f_item_type, rarity: f_rarity, attunement: f_attunement, weapon_type: f_weapon_type, armor_type: f_armor_type, conditions: f_conditions, attached_spell: f_attached_spell, has_charges: f_has_charges, inventory: f_inventory, others: f_others, actions: f_actions }),
                _ => None,
            }
        } else {
            None
        },
        _ => None,
    }
}

/// The optional item list a record decodes to.
pub open spec fn dec_opt_items(r: RecordV) -> Option<Option<Seq<ItemView>>>
    decreases r,
{
    match r {
        RecordV::Tag(t, args) => if t == "Some"@ && args.len() == 1 {
            match dec_items(args[0]) {
                Some(s) => Some(Some(s)),
                None => None,
            }
        } else if t == "None"@ && args.len() == 0 {
            Some(None)
        } else {
            None
        },
        _ => None,
    }
}

/// The item list a record decodes to.
pub open spec fn dec_items(r: RecordV) -> Option<Seq<ItemView>>
    decreases r,
{
    match r {
        RecordV::List(items) => dec_item_seq(items),
        _ => None,
    }
}

/// The items a record sequence decodes to, element by element.
pub open spec fn dec_item_seq(items: Seq<RecordV>) -> Option<Seq<ItemView>>
    decreases items,
{
    if items.len() == 0 {
        Some(Seq::empty())
    } else {
        match dec_item(items.first()) {
            Some(x) => match dec_item_seq(items.drop_first()) {
                Some(rest) => Some(seq![x] + rest),
                None => None,
            },
            None => None,
        }
    }
}

/// Elementwise decoding carries over to whole record sequences.
pub proof fn lemma_dec_item_seq_pointwise(views: Seq<RecordV>, xs: Seq<ItemView>)
    requires
        views.len() == xs.len(),
        forall|k: int| 0 <= k < views.len() ==> dec_item(#[trigger] views[k]) == Some(xs[k]),
    ensures
        dec_item_seq(views) == Some(xs),
    decreases views.len(),
{
    if views.len() == 0 {
        assert(xs =~= Seq::<ItemView>::empty());
    } else {
        assert forall|k: int| 0 <= k < views.drop_first().len() implies dec_item(
            #[trigger] views.drop_first()[k],
        ) == Some(xs.drop_first()[k]) by {
            assert(views.drop_first()[k] == views[k + 1]);
        }
        lemma_dec_item_seq_pointwise(views.drop_first(), xs.drop_first());
        assert(views.first() == views[0]);
        assert(seq![xs[0]] + xs.drop_first() =~= xs);
    }
}

/// A record sequence with one undecodable element does not decode.
pub proof fn lemma_dec_item_seq_none(views: Seq<RecordV>, j: int)
    requires
        0 <= j < views.len(),
        dec_item(views[j]) is None,
    ensures
        dec_item_seq(views) is None,
    decreases views.len(),
{
    if j > 0 {
        assert(views.drop_first()[j - 1] == views[j]);
        lemma_dec_item_seq_none(views.drop_first(), j - 1);
    } else {
        assert(views.first() == views[0]);
    }
}

/// Decoding inverts encoding for items.
pub proof fn lemma_item_round_trip(v: ItemView)
    ensures
        dec_item(enc_item(v)) == Some(v),
    decreases v,
{
    <String as Codec>::lemma_round_trip(v.id);
    <String as Codec>::lemma_round_trip(v.name);
    <ItemType as Codec>::lemma_round_trip(v.item_type);
    <ItemRarity as Codec>::lemma_round_trip(v.rarity);
    <Option<Attuneable> as Codec>::lemma_round_trip(v.attunement);
    <Option<WeaponType> as Codec>::lemma_round_trip(v.weapon_type);
    <Option<ArmorType> as Codec>::lemma_round_trip(v.armor_type);
    <Option<Vec<ConditionType>> as Codec>::lemma_round_trip(v.conditions);
    <Option<Spell> as Codec>::lemma_round_trip(v.attached_spell);
    <Option<Charge> as Codec>::lemma_round_trip(v.has_charges);
    <Option<Vec<OtherAttribute>> as Codec>::lemma_round_trip(v.others);
    <Option<Vec<Action>> as Codec>::lemma_round_trip(v.actions);
    lemma_opt_items_round_trip(v.inventory);
}

/// Decoding inverts encoding for optional item lists.
pub proof fn lemma_opt_items_round_trip(o: Option<Seq<ItemView>>)
    ensures
        dec_opt_items(enc_opt_items(o)) == Some(o),
    decreases o,
{
    reveal_strlit("Some");
    reveal_strlit("None");
    match o {
        Some(s) => {
            lemma_items_round_trip(s);
        },
        None => {},
    }
}

/// Decoding inverts encoding for item lists.
pub proof fn lemma_items_round_trip(s: Seq<ItemView>)
    ensures
        dec_item_seq(enc_items(s)) == Some(s),
        dec_items(RecordV::List(enc_items(s))) == Some(s),
    decreases s,
{
    let e = enc_items(s);
    assert forall|j: int| 0 <= j < e.len() implies dec_item(#[trigger] e[j]) == Some(s[j]) by {
        lemma_item_round_trip(s[j]);
    }
    lemma_dec_item_seq_pointwise(e, s);
}

fn item_to_record(i: &Item) -> (r: Record)
    ensures
        r.deep_view() == enc_item(i.deep_view()),
    decreases *i,
{
    let mut fs: Vec<(String, Record)> = Vec::new();
    fs.push((String::from_str("id"), i.id.to_record()));
    fs.push((String::from_str("name"), i.name.to_record()));
    fs.push((String::from_str("item_type"), i.item_type.to_record()));
    fs.push((String::from_str("rarity"), i.rarity.to_record()));
    fs.push((String::from_str("attunement"), i.attunement.to_record()));
    fs.push((String::from_str("weapon_type"), i.weapon_type.to_record()));
    fs.push((String::from_str("armor_type"), i.armor_type.to_record()));
    fs.push((String::from_str("conditions"), i.conditions.to_record()));
    fs.push((String::from_str("attached_spell"), i.attached_spell.to_record()));
    fs.push((String::from_str("has_charges"), i.has_charges.to_record()));
    fs.push((String::from_str("inventory"), opt_items_to_record(&i.inventory)));
    fs.push((String::from_str("others"), i.others.to_record()));
    fs.push((String::from_str("actions"), i.actions.to_record()));
    let r = Record::Obj(fs);
    proof {
        assert(field_views(fs@) =~= seq![
            ("id"@, <String as Codec>::spec_enc(i.id@)),
            ("name"@, <String as Codec>::spec_enc(i.name@)),
            ("item_type"@, <ItemType as Codec>::spec_enc(i.item_type)),
            ("rarity"@, <ItemRarity as Codec>::spec_enc(i.rarity)),
            ("attunement"@, <Option<Attuneable> as Codec>::spec_enc(i.attunement.deep_view())),
            ("weapon_type"@, <Option<WeaponType> as Codec>::spec_enc(i.weapon_type.deep_view())),
            ("armor_type"@, <Option<ArmorType> as Codec>::spec_enc(i.armor_type.deep_view())),
            ("conditions"@, <Option<Vec<ConditionType>> as Codec>::spec_enc(i.conditions.deep_view())),
            ("attached_spell"@, <Option<Spell> as Codec>::spec_enc(i.attached_spell.deep_view())),
            ("has_charges"@, <Option<Charge> as Codec>::spec_enc(i.has_charges.deep_view())),
            ("inventory"@, enc_opt_items(i.deep_view().inventory)),
            ("others"@, <Option<Vec<OtherAttribute>> as Codec>::spec_enc(i.others.deep_view())),
            ("actions"@, <Option<Vec<Action>> as Codec>::spec_enc(i.actions.deep_view())),
        ]);
    }
    r
}

fn opt_items_to_record(o: &Option<Vec<Item>>) -> (r: Record)
    ensures
        r.deep_view() == enc_opt_items(match o {
            Some(v) => Some(items_view(*v)),
            None => None,
        }),
    decreases *o,
{
    match o {
        Some(v) => {
            let rec = items_to_record(v);
            let mut args: Vec<Record> = Vec::new();
            args.push(rec);
            let r = Record::Tag(String::from_str("Some"), args);
            proof {
                assert(rec_views(args@) =~= seq![RecordV::List(enc_items(items_view(*v)))]);
            }
            r
        },
        None => {
            let r = Record::Tag(String::from_str("None"), Vec::new());
            proof {
                assert(rec_views(Seq::<Record>::empty()) =~= Seq::<RecordV>::empty());
            }
            r
        },
    }
}

fn items_to_record(v: &Vec<Item>) -> (r: Record)
    ensures
        r.deep_view() == RecordV::List(enc_items(items_view(*v))),
    decreases *v,
{
    let mut items: Vec<Record> = Vec::new();
    let mut j: usize = 0;
    while j < v.len()
        invariant
            j <= v@.len(),
            items@.len() == j,
            forall|k: int|
                0 <= k < j ==> rec_view(#[trigger] items@[k]) == enc_item(item_view(v@[k])),
        decreases v@.len() - j,
    {
        let rec = item_to_record(&v[j]);
        items.push(rec);
        j += 1;
    }
    let r = Record::List(items);
    proof {
        assert(rec_views(items@) =~= enc_items(items_view(*v)));
    }
    r
}

fn item_from_record(r: &Record) -> (res: Result<Item, DecodeError>)
    ensures
        match res {
            Ok(x) => dec_item(r.deep_view()) == Some(x.deep_view()),
            Err(_) => dec_item(r.deep_view()) is None,
        },
    decreases *r,
{
    match r {
        Record::Obj(fs) => {
            if fs.len() != 13 {
                return Err(DecodeError::Malformed);
            }
            let e0 = &fs[0];
            if !str_eq(e0.0.as_str(), "id") {
                return Err(DecodeError::Malformed);
            }
            let f_id = match <String>::from_record(&e0.1) {
                Ok(x) => x,
                Err(e) => return Err(e),
            };
            let e1 = &fs[1];
            if !str_eq(e1.0.as_str(), "name") {
                return Err(DecodeError::Malformed);
            }
            let f_name = match <String>::from_record(&e1.1) {
                Ok(x) => x,
                Err(e) => return Err(e),
            };
            let e2 = &fs[2];
            if !str_eq(e2.0.as_str(), "item_type") {
                return Err(DecodeError::Malformed);
            }
            let f_item_type = match <ItemType>::from_record(&e2.1) {
                Ok(x) => x,
                Err(e) => return Err(e),
            };
            let e3 = &fs[3];
            if !str_eq(e3.0.as_str(), "rarity") {
                return Err(DecodeError::Malformed);
            }
            let f_rarity = match <ItemRarity>::from_record(&e3.1) {
                Ok(x) => x,
                Err(e) => return Err(e),
            };
            let e4 = &fs[4];
            if !str_eq(e4.0.as_str(), "attunement") {
                return Err(DecodeError::Malformed);
            }
            let f_attunement = match <Option<Attuneable>>::from_record(&e4.1) {
                Ok(x) => x,
                Err(e) => return Err(e),
            };
            let e5 = &fs[5];
            if !str_eq(e5.0.as_str(), "weapon_type") {
                return Err(DecodeError::Malformed);
            }
            let f_weapon_type = match <Option<WeaponType>>::from_record(&e5.1) {
                Ok(x) => x,
                Err(e) => return Err(e),
            };
            let e6 = &fs[6];
            if !str_eq(e6.0.as_str(), "armor_type") {
                return Err(DecodeError::Malformed);
            }
            let f_armor_type = match <Option<ArmorType>>::from_record(&e6.1) {
                Ok(x) => x,
                Err(e) => return Err(e),
            };
            let e7 = &fs[7];
            if !str_eq(e7.0.as_str(), "conditions") {
                return Err(DecodeError::Malformed);
            }
            let f_conditions = match <Option<Vec<ConditionType>>>::from_record(&e7.1) {
                Ok(x) => x,
                Err(e) => return Err(e),
            };
            let e8 = &fs[8];
            if !str_eq(e8.0.as_str(), "attached_spell") {
                return Err(DecodeError::Malformed);
            }
            let f_attached_spell = match <Option<Spell>>::from_record(&e8.1) {
                Ok(x) => x,
                Err(e) => return Err(e),
            };
            let e9 = &fs[9];
            if !str_eq(e9.0.as_str(), "has_charges") {
                return Err(DecodeError::Malformed);
            }
            let f_has_charges = match <Option<Charge>>::from_record(&e9.1) {
                Ok(x) => x,
                Err(e) => return Err(e),
            };
            let e10 = &fs[10];
            if !str_eq(e10.0.as_str(), "inventory") {
                return Err(DecodeError::Malformed);
            }
            let f_inventory = match opt_items_from_record(&e10.1) {
                Ok(x) => x,
                Err(e) => return Err(e),
            };
            let e11 = &fs[11];
            if !str_eq(e11.0.as_str(), "others") {
                return Err(DecodeError::Malformed);
            }
            let f_others = match <Option<Vec<OtherAttribute>>>::from_record(&e11.1) {
                Ok(x) => x,
                Err(e) => return Err(e),
            };
            let e12 = &fs[12];
            if !str_eq(e12.0.as_str(), "actions") {
                return Err(DecodeError::Malformed);
            }
            let f_actions = match <Option<Vec<Action>>>::from_record(&e12.1) {
                Ok(x) => x,
                Err(e) => return Err(e),
            };
            Ok(Item { id: f_id, name: f_name, item_type: f_item_type, rarity: f_rarity, attunement: f_attunement, weapon_type: f_weapon_type, armor_type: f_armor_type, conditions: f_conditions, attached_spell: f_attached_spell, has_charges: f_has_charges, inventory: f_inventory, others: f_others, actions: f_actions })
        },
        _ => Err(DecodeError::Malformed),
    }
}

fn opt_items_from_record(r: &Record) -> (res: Result<Option<Vec<Item>>, DecodeError>)
    ensures
        match res {
            Ok(x) => dec_opt_items(r.deep_view()) == Some(match x {
                Some(v) => Some(items_view(v)),
                None => None,
            }),
            Err(_) => dec_opt_items(r.deep_view()) is None,
        },
    decreases *r,
{
    proof {
        reveal_strlit("Some");
        reveal_strlit("None");
    }
    match r {
        Record::Tag(t, args) => {
            if str_eq(t.as_str(), "Some") && args.len() == 1 {
                match items_from_record(&args[0]) {
                    Ok(v) => Ok(Some(v)),
                    Err(e) => Err(e),
                }
            } else if str_eq(t.as_str(), "None") && args.len() == 0 {
                Ok(None)
            } else {
                Err(DecodeError::Malformed)
            }
        },
        _ => Err(DecodeError::Malformed),
    }
}

#[verifier::loop_isolation(false)]
fn items_from_record(r: &Record) -> (res: Result<Vec<Item>, DecodeError>)
    ensures
        match res {
            Ok(v) => dec_items(r.deep_view()) == Some(items_view(v)),
            Err(_) => dec_items(r.deep_view()) is None,
        },
    decreases *r,
{
    match r {
        Record::List(items) => {
            let ghost views = rec_views(items@);
            let mut out: Vec<Item> = Vec::new();
            let mut j: usize = 0;
            while j < items.len()
                invariant
                    j <= items@.len(),
                    out@.len() == j,
                    views == rec_views(items@),
                    r.deep_view() == RecordV::List(views),
                    forall|k: int|
                        0 <= k < j ==> dec_item(#[trigger] views[k]) == Some(
                            item_view(out@[k]),
                        ),
                decreases items@.len() - j,
            {
                match item_from_record(&items[j]) {
                    Ok(x) => {
                        out.push(x);
                    },
                    Err(e) => {
                        proof {
                            lemma_dec_item_seq_none(views, j as int);
                        }
                        return Err(e);
                    },
                }
                j += 1;
            }
            proof {
                assert forall|k: int| 0 <= k < views.len() implies dec_item(
                    #[trigger] views[k],
                ) == Some(items_view(out)[k]) by {
                    assert(dec_item(views[k]) == Some(item_view(out@[k])));
                }
                lemma_dec_item_seq_pointwise(views, items_view(out));
            }
            Ok(out)
        },
        _ => Err(DecodeError::Malformed),
    }
}

impl Codec for Item {
    open spec fn spec_enc(v: ItemView) -> RecordV {
        enc_item(v)
    }

    open spec fn spec_dec(r: RecordV) -> Option<ItemView> {
        dec_item(r)
    }

    fn to_record(&self) -> (r: Record) {
        item_to_record(self)
    }

    fn from_record(r: &Record) -> (res: Result<Item, DecodeError>) {
        item_from_record(r)
    }

    proof fn lemma_round_trip(v: ItemView) {
        lemma_item_round_trip(v);
    }
}

} // verus!
