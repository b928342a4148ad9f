//! Data types for tabletop role-playing-game content: creatures, actions,
//! items, spells, and world entities. Each type renders deterministically to
//! stat-block text, and encodes to a structured record with decoding proved
//! to invert encoding.

use vstd::prelude::*;

pub mod action;
pub mod creature;
pub mod ident;
pub mod item;
pub mod monster;
pub mod record;
pub mod spell;
pub mod text;
pub mod world;

verus! {

use crate::record::{Codec, DecodeError, Record, RecordV, field_views, rec_views, str_eq};
use crate::text::{dec_str, dec_string, push_dec_i64};


/// The kind of damage an attack or effect deals.
#[derive(Debug, Clone, Copy, PartialEq, Eq, Structural)]
pub enum DamageType {
    Slashing,
    Piercing,
    Bludgeoning,
    Poison,
    Acid,
    Fire,
    Cold,
    Radiant,
    Necrotic,
    Lightning,
    Thunder,
    Force,
    Psychic,
}

impl DeepView for DamageType {
    type V = DamageType;

    open spec fn deep_view(&self) -> DamageType {
        *self
    }
}

impl DamageType {
    /// The display text of this damage type: its name.
    pub open spec fn spec_display(self) -> Seq<char> {
        match self {
            DamageType::Slashing => "Slashing"@,
            DamageType::Piercing => "Piercing"@,
            DamageType::Bludgeoning => "Bludgeoning"@,
            DamageType::Poison => "Poison"@,
            DamageType::Acid => "Acid"@,
            DamageType::Fire => "Fire"@,
            DamageType::Cold => "Cold"@,
            DamageType::Radiant => "Radiant"@,
            DamageType::Necrotic => "Necrotic"@,
            DamageType::Lightning => "Lightning"@,
            DamageType::Thunder => "Thunder"@,
            DamageType::Force => "Force"@,
            DamageType::Psychic => "Psychic"@,
        }
    }

    /// Renders the display text of this value.
    pub fn to_string(&self) -> (s: String)
        ensures
            s@ == self.spec_display(),
    {
        match self {
            DamageType::Slashing => String::from_str("Slashing"),
            DamageType::Piercing => String::from_str("Piercing"),
            DamageType::Bludgeoning => String::from_str("Bludgeoning"),
            DamageType::Poison => String::from_str("Poison"),
            DamageType::Acid => String::from_str("Acid"),
            DamageType::Fire => String::from_str("Fire"),
            DamageType::Cold => String::from_str("Cold"),
            DamageType::Radiant => String::from_str("Radiant"),
            DamageType::Necrotic => String::from_str("Necrotic"),
            DamageType::Lightning => String::from_str("Lightning"),
            DamageType::Thunder => String::from_str("Thunder"),
            DamageType::Force => String::from_str("Force"),
            DamageType::Psychic => String::from_str("Psychic"),
        }
    }
}

impl Codec for DamageType {
    open spec fn spec_enc(v: DamageType) -> RecordV {
        match v {
            DamageType::Slashing => RecordV::Tag("Slashing"@, Seq::empty()),
            DamageType::Piercing => RecordV::Tag("Piercing"@, Seq::empty()),
            DamageType::Bludgeoning => RecordV::Tag("Bludgeoning"@, Seq::empty()),
            DamageType::Poison => RecordV::Tag("Poison"@, Seq::empty()),
            DamageType::Acid => RecordV::Tag("Acid"@, Seq::empty()),
            DamageType::Fire => RecordV::Tag("Fire"@, Seq::empty()),
            DamageType::Cold => RecordV::Tag("Cold"@, Seq::empty()),
            DamageType::Radiant => RecordV::Tag("Radiant"@, Seq::empty()),
            DamageType::Necrotic => RecordV::Tag("Necrotic"@, Seq::empty()),
            DamageType::Lightning => RecordV::Tag("Lightning"@, Seq::empty()),
            DamageType::Thunder => RecordV::Tag("Thunder"@, Seq::empty()),
            DamageType::Force => RecordV::Tag("Force"@, Seq::empty()),
            DamageType::Psychic => RecordV::Tag("Psychic"@, Seq::empty()),
        }
    }

    open spec fn spec_dec(r: RecordV) -> Option<DamageType> {
        match r {
            RecordV::Tag(t, args) => {
                if t == "Slashing"@ && args.len() == 0 {
                    Some(DamageType::Slashing)
                } else if t == "Piercing"@ && args.len() == 0 {
                    Some(DamageType::Piercing)
                } else if t == "Bludgeoning"@ && args.len() == 0 {
                    Some(DamageType::Bludgeoning)
                } else if t == "Poison"@ && args.len() == 0 {
                    Some(DamageType::Poison)
                } else if t == "Acid"@ && args.len() == 0 {
                    Some(DamageType::Acid)
                } else if t == "Fire"@ && args.len() == 0 {
                    Some(DamageType::Fire)
                } else if t == "Cold"@ && args.len() == 0 {
                    Some(DamageType::Cold)
                } else if t == "Radiant"@ && args.len() == 0 {
                    Some(DamageType::Radiant)
                } else if t == "Necrotic"@ && args.len() == 0 {
                    Some(DamageType::Necrotic)
                } else if t == "Lightning"@ && args.len() == 0 {
                    Some(DamageType::Lightning)
                } else if t == "Thunder"@ && args.len() == 0 {
                    Some(DamageType::Thunder)
                } else if t == "Force"@ && args.len() == 0 {
                    Some(DamageType::Force)
                } else if t == "Psychic"@ && args.len() == 0 {
                    Some(DamageType::Psychic)
                } else {
                    None
                }
            },
            _ => None,
        }
    }

    fn to_record(&self) -> (r: Record) {
        match self {
            DamageType::Slashing => {
                let r = Record::Tag(String::from_str("Slashing"), Vec::new());
                proof {
                    assert(rec_views(Seq::<Record>::empty()) =~= Seq::<RecordV>::empty());
                }
                r
            },
            DamageType::Piercing => {
                let r = Record::Tag(String::from_str("Piercing"), Vec::new());
                proof {
                    assert(rec_views(Seq::<Record>::empty()) =~= Seq::<RecordV>::empty());
                }
                r
            },
            DamageType::Bludgeoning => {
                let r = Record::Tag(String::from_str("Bludgeoning"), Vec::new());
                proof {
                    assert(rec_views(Seq::<Record>::empty()) =~= Seq::<RecordV>::empty());
                }
                r
            },
            DamageType::Poison => {
                let r = Record::Tag(String::from_str("Poison"), Vec::new());
                proof {
                    assert(rec_views(Seq::<Record>::empty()) =~= Seq::<RecordV>::empty());
                }
                r
            },
            DamageType::Acid => {
                let r = Record::Tag(String::from_str("Acid"), Vec::new());
                proof {
                    assert(rec_views(Seq::<Record>::empty()) =~= Seq::<RecordV>::empty());
                }
                r
            },
            DamageType::Fire => {
                let r = Record::Tag(String::from_str("Fire"), Vec::new());
                proof {
                    assert(rec_views(Seq::<Record>::empty()) =~= Seq::<RecordV>::empty());
                }
                r
            },
            DamageType::Cold => {
                let r = Record::Tag(String::from_str("Cold"), Vec::new());
                proof {
                    assert(rec_views(Seq::<Record>::empty()) =~= Seq::<RecordV>::empty());
                }
                r
            },
            DamageType::Radiant => {
                let r = Record::Tag(String::from_str("Radiant"), Vec::new());
                proof {
                    assert(rec_views(Seq::<Record>::empty()) =~= Seq::<RecordV>::empty());
                }
                r
            },
            DamageType::Necrotic => {
                let r = Record::Tag(String::from_str("Necrotic"), Vec::new());
                proof {
                    assert(rec_views(Seq::<Record>::empty()) =~= Seq::<RecordV>::empty());
                }
                r
            },
            DamageType::Lightning => {
                let r = Record::Tag(String::from_str("Lightning"), Vec::new());
                proof {
                    assert(rec_views(Seq::<Record>::empty()) =~= Seq::<RecordV>::empty());
                }
                r
            },
            DamageType::Thunder => {
                let r = Record::Tag(String::from_str("Thunder"), Vec::new());
                proof {
                    assert(rec_views(Seq::<Record>::empty()) =~= Seq::<RecordV>::empty());
                }
                r
            },
            DamageType::Force => {
                let r = Record::Tag(String::from_str("Force"), Vec::new());
                proof {
                    assert(rec_views(Seq::<Record>::empty()) =~= Seq::<RecordV>::empty());
                }
                r
            },
            DamageType::Psychic => {
                let r = Record::Tag(String::from_str("Psychic"), Vec::new());
                proof {
                    assert(rec_views(Seq::<Record>::empty()) =~= Seq::<RecordV>::empty());
                }
                r
            },
        }
    }

    fn from_record(r: &Record) -> (res: Result<DamageType, DecodeError>) {
        match r {
            Record::Tag(t, args) => {
                if str_eq(t.as_str(), "Slashing") && args.len() == 0 {
                    Ok(DamageType::Slashing)
                } else if str_eq(t.as_str(), "Piercing") && args.len() == 0 {
                    Ok(DamageType::Piercing)
                } else if str_eq(t.as_str(), "Bludgeoning") && args.len() == 0 {
                    Ok(DamageType::Bludgeoning)
                } else if str_eq(t.as_str(), "Poison") && args.len() == 0 {
                    Ok(DamageType::Poison)
                } else if str_eq(t.as_str(), "Acid") && args.len() == 0 {
                    Ok(DamageType::Acid)
                } else if str_eq(t.as_str(), "Fire") && args.len() == 0 {
                    Ok(DamageType::Fire)
                } else if str_eq(t.as_str(), "Cold") && args.len() == 0 {
                    Ok(DamageType::Cold)
                } else if str_eq(t.as_str(), "Radiant") && args.len() == 0 {
                    Ok(DamageType::Radiant)
                } else if str_eq(t.as_str(), "Necrotic") && args.len() == 0 {
                    Ok(DamageType::Necrotic)
                } else if str_eq(t.as_str(), "Lightning") && args.len() == 0 {
                    Ok(DamageType::Lightning)
                } else if str_eq(t.as_str(), "Thunder") && args.len() == 0 {
                    Ok(DamageType::Thunder)
                } else if str_eq(t.as_str(), "Force") && args.len() == 0 {
                    Ok(DamageType::Force)
                } else if str_eq(t.as_str(), "Psychic") && args.len() == 0 {
                    Ok(DamageType::Psychic)
                } else {
                    Err(DecodeError::Malformed)
                }
            },
            _ => Err(DecodeError::Malformed),
        }
    }

    proof fn lemma_round_trip(v: DamageType) {
        reveal_strlit("Slashing");
        reveal_strlit("Piercing");
        reveal_strlit("Bludgeoning");
        reveal_strlit("Poison");
        reveal_strlit("Acid");
        reveal_strlit("Fire");
        reveal_strlit("Cold");
        reveal_strlit("Radiant");
        reveal_strlit("Necrotic");
        reveal_strlit("Lightning");
        reveal_strlit("Thunder");
        reveal_strlit("Force");
        reveal_strlit("Psychic");
        assert(("Piercing"@) != ("Slashing"@)) by {
            assert(("Piercing"@)[0] == 'P');
            assert(("Slashing"@)[0] == 'S');
        }
        assert(("Bludgeoning"@) != ("Slashing"@)) by {
            assert(("Bludgeoning"@)[0] == 'B');
            assert(("Slashing"@)[0] == 'S');
        }
        assert(("Bludgeoning"@) != ("Piercing"@)) by {
            assert(("Bludgeoning"@)[0] == 'B');
            assert(("Piercing"@)[0] == 'P');
        }
        assert(("Poison"@) != ("Slashing"@)) by {
            assert(("Poison"@)[0] == 'P');
            assert(("Slashing"@)[0] == 'S');
        }
        assert(("Poison"@) != ("Piercing"@)) by {
            assert(("Poison"@)[1] == 'o');
            assert(("Piercing"@)[1] == 'i');
        }
        assert(("Poison"@) != ("Bludgeoning"@)) by {
            assert(("Poison"@)[0] == 'P');
            assert(("Bludgeoning"@)[0] == 'B');
        }
        assert(("Acid"@) != ("Slashing"@)) by {
            assert(("Acid"@)[0] == 'A');
            assert(("Slashing"@)[0] == 'S');
        }
        assert(("Acid"@) != ("Piercing"@)) by {
            assert(("Acid"@)[0] == 'A');
            assert(("Piercing"@)[0] == 'P');
        }
        assert(("Acid"@) != ("Bludgeoning"@)) by {
            assert(("Acid"@)[0] == 'A');
            assert(("Bludgeoning"@)[0] == 'B');
        }
        assert(("Acid"@) != ("Poison"@)) by {
            assert(("Acid"@)[0] == 'A');
            assert(("Poison"@)[0] == 'P');
        }
        assert(("Fire"@) != ("Slashing"@)) by {
            assert(("Fire"@)[0] == 'F');
            assert(("Slashing"@)[0] == 'S');
        }
        assert(("Fire"@) != ("Piercing"@)) by {
            assert(("Fire"@)[0] == 'F');
            assert(("Piercing"@)[0] == 'P');
        }
        assert(("Fire"@) != ("Bludgeoning"@)) by {
            assert(("Fire"@)[0] == 'F');
            assert(("Bludgeoning"@)[0] == 'B');
        }
        assert(("Fire"@) != ("Poison"@)) by {
            assert(("Fire"@)[0] == 'F');
            assert(("Poison"@)[0] == 'P');
        }
        assert(("Fire"@) != ("Acid"@)) by {
            assert(("Fire"@)[0] == 'F');
            assert(("Acid"@)[0] == 'A');
        }
        assert(("Cold"@) != ("Slashing"@)) by {
            assert(("Cold"@)[0] == 'C');
            assert(("Slashing"@)[0] == 'S');
        }
        assert(("Cold"@) != ("Piercing"@)) by {
            assert(("Cold"@)[0] == 'C');
            assert(("Piercing"@)[0] == 'P');
        }
        assert(("Cold"@) != ("Bludgeoning"@)) by {
            assert(("Cold"@)[0] == 'C');
            assert(("Bludgeoning"@)[0] == 'B');
        }
        assert(("Cold"@) != ("Poison"@)) by {
            assert(("Cold"@)[0] == 'C');
            assert(("Poison"@)[0] == 'P');
        }
        assert(("Cold"@) != ("Acid"@)) by {
            assert(("Cold"@)[0] == 'C');
            assert(("Acid"@)[0] == 'A');
        }
        assert(("Cold"@) != ("Fire"@)) by {
            assert(("Cold"@)[0] == 'C');
            assert(("Fire"@)[0] == 'F');
        }
        assert(("Radiant"@) != ("Slashing"@)) by {
            assert(("Radiant"@)[0] == 'R');
            assert(("Slashing"@)[0] == 'S');
        }
        assert(("Radiant"@) != ("Piercing"@)) by {
            assert(("Radiant"@)[0] == 'R');
            assert(("Piercing"@)[0] == 'P');
        }
        assert(("Radiant"@) != ("Bludgeoning"@)) by {
            assert(("Radiant"@)[0] == 'R');
            assert(("Bludgeoning"@)[0] == 'B');
        }
        assert(("Radiant"@) != ("Poison"@)) by {
            assert(("Radiant"@)[0] == 'R');
            assert(("Poison"@)[0] == 'P');
        }
        assert(("Radiant"@) != ("Acid"@)) by {
            assert(("Radiant"@)[0] == 'R');
            assert(("Acid"@)[0] == 'A');
        }
        assert(("Radiant"@) != ("Fire"@)) by {
            assert(("Radiant"@)[0] == 'R');
            assert(("Fire"@)[0] == 'F');
        }
        assert(("Radiant"@) != ("Cold"@)) by {
            assert(("Radiant"@)[0] == 'R');
            assert(("Cold"@)[0] == 'C');
        }
        assert(("Necrotic"@) != ("Slashing"@)) by {
            assert(("Necrotic"@)[0] == 'N');
            assert(("Slashing"@)[0] == 'S');
        }
        assert(("Necrotic"@) != ("Piercing"@)) by {
            assert(("Necrotic"@)[0] == 'N');
            assert(("Piercing"@)[0] == 'P');
        }
        assert(("Necrotic"@) != ("Bludgeoning"@)) by {
            assert(("Necrotic"@)[0] == 'N');
            assert(("Bludgeoning"@)[0] == 'B');
        }
        assert(("Necrotic"@) != ("Poison"@)) by {
            assert(("Necrotic"@)[0] == 'N');
            assert(("Poison"@)[0] == 'P');
        }
        assert(("Necrotic"@) != ("Acid"@)) by {
            assert(("Necrotic"@)[0] == 'N');
            assert(("Acid"@)[0] == 'A');
        }
        assert(("Necrotic"@) != ("Fire"@)) by {
            assert(("Necrotic"@)[0] == 'N');
            assert(("Fire"@)[0] == 'F');
        }
        assert(("Necrotic"@) != ("Cold"@)) by {
            assert(("Necrotic"@)[0] == 'N');
            assert(("Cold"@)[0] == 'C');
        }
        assert(("Necrotic"@) != ("Radiant"@)) by {
            assert(("Necrotic"@)[0] == 'N');
            assert(("Radiant"@)[0] == 'R');
        }
        assert(("Lightning"@) != ("Slashing"@)) by {
            assert(("Lightning"@)[0] == 'L');
            assert(("Slashing"@)[0] == 'S');
        }
        assert(("Lightning"@) != ("Piercing"@)) by {
            assert(("Lightning"@)[0] == 'L');
            assert(("Piercing"@)[0] == 'P');
        }
        assert(("Lightning"@) != ("Bludgeoning"@)) by {
            assert(("Lightning"@)[0] == 'L');
            assert(("Bludgeoning"@)[0] == 'B');
        }
        assert(("Lightning"@) != ("Poison"@)) by {
            assert(("Lightning"@)[0] == 'L');
            assert(("Poison"@)[0] == 'P');
        }
        assert(("Lightning"@) != ("Acid"@)) by {
            assert(("Lightning"@)[0] == 'L');
            assert(("Acid"@)[0] == 'A');
        }
        assert(("Lightning"@) != ("Fire"@)) by {
            assert(("Lightning"@)[0] == 'L');
            assert(("Fire"@)[0] == 'F');
        }
        assert(("Lightning"@) != ("Cold"@)) by {
            assert(("Lightning"@)[0] == 'L');
            assert(("Cold"@)[0] == 'C');
        }
        assert(("Lightning"@) != ("Radiant"@)) by {
            assert(("Lightning"@)[0] == 'L');
            assert(("Radiant"@)[0] == 'R');
        }
        assert(("Lightning"@) != ("Necrotic"@)) by {
            assert(("Lightning"@)[0] == 'L');
            assert(("Necrotic"@)[0] == 'N');
        }
        assert(("Thunder"@) != ("Slashing"@)) by {
            assert(("Thunder"@)[0] == 'T');
            assert(("Slashing"@)[0] == 'S');
        }
        assert(("Thunder"@) != ("Piercing"@)) by {
            assert(("Thunder"@)[0] == 'T');
            assert(("Piercing"@)[0] == 'P');
        }
        assert(("Thunder"@) != ("Bludgeoning"@)) by {
            assert(("Thunder"@)[0] == 'T');
            assert(("Bludgeoning"@)[0] == 'B');
        }
        assert(("Thunder"@) != ("Poison"@)) by {
            assert(("Thunder"@)[0] == 'T');
            assert(("Poison"@)[0] == 'P');
        }
        assert(("Thunder"@) != ("Acid"@)) by {
            assert(("Thunder"@)[0] == 'T');
            assert(("Acid"@)[0] == 'A');
        }
        assert(("Thunder"@) != ("Fire"@)) by {
            assert(("Thunder"@)[0] == 'T');
            assert(("Fire"@)[0] == 'F');
        }
        assert(("Thunder"@) != ("Cold"@)) by {
            assert(("Thunder"@)[0] == 'T');
            assert(("Cold"@)[0] == 'C');
        }
        assert(("Thunder"@) != ("Radiant"@)) by {
            assert(("Thunder"@)[0] == 'T');
            assert(("Radiant"@)[0] == 'R');
        }
        assert(("Thunder"@) != ("Necrotic"@)) by {
            assert(("Thunder"@)[0] == 'T');
            assert(("Necrotic"@)[0] == 'N');
        }
        assert(("Thunder"@) != ("Lightning"@)) by {
            assert(("Thunder"@)[0] == 'T');
            assert(("Lightning"@)[0] == 'L');
        }
        assert(("Force"@) != ("Slashing"@)) by {
            assert(("Force"@)[0] == 'F');
            assert(("Slashing"@)[0] == 'S');
        }
        assert(("Force"@) != ("Piercing"@)) by {
            assert(("Force"@)[0] == 'F');
            assert(("Piercing"@)[0] == 'P');
        }
        assert(("Force"@) != ("Bludgeoning"@)) by {
            assert(("Force"@)[0] == 'F');
            assert(("Bludgeoning"@)[0] == 'B');
        }
        assert(("Force"@) != ("Poison"@)) by {
            assert(("Force"@)[0] == 'F');
            assert(("Poison"@)[0] == 'P');
        }
        assert(("Force"@) != ("Acid"@)) by {
            assert(("Force"@)[0] == 'F');
            assert(("Acid"@)[0] == 'A');
        }
        assert(("Force"@) != ("Fire"@)) by {
            assert(("Force"@)[1] == 'o');
            assert(("Fire"@)[1] == 'i');
        }
        assert(("Force"@) != ("Cold"@)) by {
            assert(("Force"@)[0] == 'F');
            assert(("Cold"@)[0] == 'C');
        }
        assert(("Force"@) != ("Radiant"@)) by {
            assert(("Force"@)[0] == 'F');
            assert(("Radiant"@)[0] == 'R');
        }
        assert(("Force"@) != ("Necrotic"@)) by {
            assert(("Force"@)[0] == 'F');
            assert(("Necrotic"@)[0] == 'N');
        }
        assert(("Force"@) != ("Lightning"@)) by {
            assert(("Force"@)[0] == 'F');
            assert(("Lightning"@)[0] == 'L');
        }
        assert(("Force"@) != ("Thunder"@)) by {
            assert(("Force"@)[0] == 'F');
            assert(("Thunder"@)[0] == 'T');
        }
        assert(("Psychic"@) != ("Slashing"@)) by {
            assert(("Psychic"@)[0] == 'P');
            assert(("Slashing"@)[0] == 'S');
        }
        assert(("Psychic"@) != ("Piercing"@)) by {
            assert(("Psychic"@)[1] == 's');
            assert(("Piercing"@)[1] == 'i');
        }
        assert(("Psychic"@) != ("Bludgeoning"@)) by {
            assert(("Psychic"@)[0] == 'P');
            assert(("Bludgeoning"@)[0] == 'B');
        }
        assert(("Psychic"@) != ("Poison"@)) by {
            assert(("Psychic"@)[1] == 's');
            assert(("Poison"@)[1] == 'o');
        }
        assert(("Psychic"@) != ("Acid"@)) by {
            assert(("Psychic"@)[0] == 'P');
            assert(("Acid"@)[0] == 'A');
        }
        assert(("Psychic"@) != ("Fire"@)) by {
            assert(("Psychic"@)[0] == 'P');
            assert(("Fire"@)[0] == 'F');
        }
        assert(("Psychic"@) != ("Cold"@)) by {
            assert(("Psychic"@)[0] == 'P');
            assert(("Cold"@)[0] == 'C');
        }
        assert(("Psychic"@) != ("Radiant"@)) by {
            assert(("Psychic"@)[0] == 'P');
            assert(("Radiant"@)[0] == 'R');
        }
        assert(("Psychic"@) != ("Necrotic"@)) by {
            assert(("Psychic"@)[0] == 'P');
            assert(("Necrotic"@)[0] == 'N');
        }
        assert(("Psychic"@) != ("Lightning"@)) by {
            assert(("Psychic"@)[0] == 'P');
            assert(("Lightning"@)[0] == 'L');
        }
        assert(("Psychic"@) != ("Thunder"@)) by {
            assert(("Psychic"@)[0] == 'P');
            assert(("Thunder"@)[0] == 'T');
        }
        assert(("Psychic"@) != ("Force"@)) by {
            assert(("Psychic"@)[0] == 'P');
            assert(("Force"@)[0] == 'F');
        }
        match v {
            DamageType::Slashing => {
                assert(Self::spec_dec(Self::spec_enc(DamageType::Slashing)) == Some(DamageType::Slashing));
            },
            DamageType::Piercing => {
                assert(Self::spec_dec(Self::spec_enc(DamageType::Piercing)) == Some(DamageType::Piercing));
            },
            DamageType::Bludgeoning => {
                assert(Self::spec_dec(Self::spec_enc(DamageType::Bludgeoning)) == Some(DamageType::Bludgeoning));
            },
            DamageType::Poison => {
                assert(Self::spec_dec(Self::spec_enc(DamageType::Poison)) == Some(DamageType::Poison));
            },
            DamageType::Acid => {
                assert(Self::spec_dec(Self::spec_enc(DamageType::Acid)) == Some(DamageType::Acid));
            },
            DamageType::Fire => {
                assert(Self::spec_dec(Self::spec_enc(DamageType::Fire)) == Some(DamageType::Fire));
            },
            DamageType::Cold => {
                assert(Self::spec_dec(Self::spec_enc(DamageType::Cold)) == Some(DamageType::Cold));
            },
            DamageType::Radiant => {
                assert(Self::spec_dec(Self::spec_enc(DamageType::Radiant)) == Some(DamageType::Radiant));
            },
            DamageType::Necrotic => {
                assert(Self::spec_dec(Self::spec_enc(DamageType::Necrotic)) == Some(DamageType::Necrotic));
            },
            DamageType::Lightning => {
                assert(Self::spec_dec(Self::spec_enc(DamageType::Lightning)) == Some(DamageType::Lightning));
            },
            DamageType::Thunder => {
                assert(Self::spec_dec(Self::spec_enc(DamageType::Thunder)) == Some(DamageType::Thunder));
            },
            DamageType::Force => {
                assert(Self::spec_dec(Self::spec_enc(DamageType::Force)) == Some(DamageType::Force));
            },
            DamageType::Psychic => {
                assert(Self::spec_dec(Self::spec_enc(DamageType::Psychic)) == Some(DamageType::Psychic));
            },
        }
    }
}

/// A condition a creature can suffer or be immune to.
#[derive(Debug, Clone, Copy, PartialEq, Eq, Structural)]
pub enum ConditionType {
    Blinded,
    Charmed,
    Deafened,
    Exhaustion,
    Frightened,
    Grappled,
    Incapacitated,
    Invisible,
    Paralyzed,
    Petrified,
    Poisoned,
    Prone,
    Restrained,
    Stunned,
    Unconscious,
}

impl DeepView for ConditionType {
    type V = ConditionType;

    open spec fn deep_view(&self) -> ConditionType {
        *self
    }
}

impl ConditionType {
    /// The display text of this condition: its name.
    pub open spec fn spec_display(self) -> Seq<char> {
        match self {
            ConditionType::Blinded => "Blinded"@,
            ConditionType::Charmed => "Charmed"@,
            ConditionType::Deafened => "Deafened"@,
            ConditionType::Exhaustion => "Exhaustion"@,
            ConditionType::Frightened => "Frightened"@,
            ConditionType::Grappled => "Grappled"@,
            ConditionType::Incapacitated => "Incapacitated"@,
            ConditionType::Invisible => "Invisible"@,
            ConditionType::Paralyzed => "Paralyzed"@,
            ConditionType::Petrified => "Petrified"@,
            ConditionType::Poisoned => "Poisoned"@,
            ConditionType::Prone => "Prone"@,
            ConditionType::Restrained => "Restrained"@,
            ConditionType::Stunned => "Stunned"@,
            ConditionType::Unconscious => "Unconscious"@,
        }
    }

    /// Renders the display text of this value.
    pub fn to_string(&self) -> (s: String)
        ensures
            s@ == self.spec_display(),
    {
        match self {
            ConditionType::Blinded => String::from_str("Blinded"),
            ConditionType::Charmed => String::from_str("Charmed"),
            ConditionType::Deafened => String::from_str("Deafened"),
            ConditionType::Exhaustion => String::from_str("Exhaustion"),
            ConditionType::Frightened => String::from_str("Frightened"),
            ConditionType::Grappled => String::from_str("Grappled"),
            ConditionType::Incapacitated => String::from_str("Incapacitated"),
            ConditionType::Invisible => String::from_str("Invisible"),
            ConditionType::Paralyzed => String::from_str("Paralyzed"),
            ConditionType::Petrified => String::from_str("Petrified"),
            ConditionType::Poisoned => String::from_str("Poisoned"),
            ConditionType::Prone => String::from_str("Prone"),
            ConditionType::Restrained => String::from_str("Restrained"),
            ConditionType::Stunned => String::from_str("Stunned"),
            ConditionType::Unconscious => String::from_str("Unconscious"),
        }
    }
}

impl Codec for ConditionType {
    open spec fn spec_enc(v: ConditionType) -> RecordV {
        match v {
            ConditionType::Blinded => RecordV::Tag("Blinded"@, Seq::empty()),
            ConditionType::Charmed => RecordV::Tag("Charmed"@, Seq::empty()),
            ConditionType::Deafened => RecordV::Tag("Deafened"@, Seq::empty()),
            ConditionType::Exhaustion => RecordV::Tag("Exhaustion"@, Seq::empty()),
            ConditionType::Frightened => RecordV::Tag("Frightened"@, Seq::empty()),
            ConditionType::Grappled => RecordV::Tag("Grappled"@, Seq::empty()),
            ConditionType::Incapacitated => RecordV::Tag("Incapacitated"@, Seq::empty()),
            ConditionType::Invisible => RecordV::Tag("Invisible"@, Seq::empty()),
            ConditionType::Paralyzed => RecordV::Tag("Paralyzed"@, Seq::empty()),
            ConditionType::Petrified => RecordV::Tag("Petrified"@, Seq::empty()),
            ConditionType::Poisoned => RecordV::Tag("Poisoned"@, Seq::empty()),
            ConditionType::Prone => RecordV::Tag("Prone"@, Seq::empty()),
            ConditionType::Restrained => RecordV::Tag("Restrained"@, Seq::empty()),
            ConditionType::Stunned => RecordV::Tag("Stunned"@, Seq::empty()),
            ConditionType::Unconscious => RecordV::Tag("Unconscious"@, Seq::empty()),
        }
    }

    open spec fn spec_dec(r: RecordV) -> Option<ConditionType> {
        match r {
            RecordV::Tag(t, args) => {
                if t == "Blinded"@ && args.len() == 0 {
                    Some(ConditionType::Blinded)
                } else if t == "Charmed"@ && args.len() == 0 {
                    Some(ConditionType::Charmed)
                } else if t == "Deafened"@ && args.len() == 0 {
                    Some(ConditionType::Deafened)
                } else if t == "Exhaustion"@ && args.len() == 0 {
                    Some(ConditionType::Exhaustion)
                } else if t == "Frightened"@ && args.len() == 0 {
                    Some(ConditionType::Frightened)
                } else if t == "Grappled"@ && args.len() == 0 {
                    Some(ConditionType::Grappled)
                } else if t == "Incapacitated"@ && args.len() == 0 {
                    Some(ConditionType::Incapacitated)
                } else if t == "Invisible"@ && args.len() == 0 {
                    Some(ConditionType::Invisible)
                } else if t == "Paralyzed"@ && args.len() == 0 {
                    Some(ConditionType::Paralyzed)
                } else if t == "Petrified"@ && args.len() == 0 {
                    Some(ConditionType::Petrified)
                } else if t == "Poisoned"@ && args.len() == 0 {
                    Some(ConditionType::Poisoned)
                } else if t == "Prone"@ && args.len() == 0 {
                    Some(ConditionType::Prone)
                } else if t == "Restrained"@ && args.len() == 0 {
                    Some(ConditionType::Restrained)
                } else if t == "Stunned"@ && args.len() == 0 {
                    Some(ConditionType::Stunned)
                } else if t == "Unconscious"@ && args.len() == 0 {
                    Some(ConditionType::Unconscious)
                } else {
                    None
                }
            },
            _ => None,
        }
    }

    fn to_record(&self) -> (r: Record) {
        match self {
            ConditionType::Blinded => {
                let r = Record::Tag(String::from_str("Blinded"), Vec::new());
                proof {
                    assert(rec_views(Seq::<Record>::empty()) =~= Seq::<RecordV>::empty());
                }
                r
            },
            ConditionType::Charmed => {
                let r = Record::Tag(String::from_str("Charmed"), Vec::new());
                proof {
                    assert(rec_views(Seq::<Record>::empty()) =~= Seq::<RecordV>::empty());
                }
                r
            },
            ConditionType::Deafened => {
                let r = Record::Tag(String::from_str("Deafened"), Vec::new());
                proof {
                    assert(rec_views(Seq::<Record>::empty()) =~= Seq::<RecordV>::empty());
                }
                r
            },
            ConditionType::Exhaustion => {
                let r = Record::Tag(String::from_str("Exhaustion"), Vec::new());
                proof {
                    assert(rec_views(Seq::<Record>::empty()) =~= Seq::<RecordV>::empty());
                }
                r
            },
            ConditionType::Frightened => {
                let r = Record::Tag(String::from_str("Frightened"), Vec::new());
                proof {
                    assert(rec_views(Seq::<Record>::empty()) =~= Seq::<RecordV>::empty());
                }
                r
            },
            ConditionType::Grappled => {
                let r = Record::Tag(String::from_str("Grappled"), Vec::new());
                proof {
                    assert(rec_views(Seq::<Record>::empty()) =~= Seq::<RecordV>::empty());
                }
                r
            },
            ConditionType::Incapacitated => {
                let r = Record::Tag(String::from_str("Incapacitated"), Vec::new());
                proof {
                    assert(rec_views(Seq::<Record>::empty()) =~= Seq::<RecordV>::empty());
                }
                r
            },
            ConditionType::Invisible => {
                let r = Record::Tag(String::from_str("Invisible"), Vec::new());
                proof {
                    assert(rec_views(Seq::<Record>::empty()) =~= Seq::<RecordV>::empty());
                }
                r
            },
            ConditionType::Paralyzed => {
                let r = Record::Tag(String::from_str("Paralyzed"), Vec::new());
                proof {
                    assert(rec_views(Seq::<Record>::empty()) =~= Seq::<RecordV>::empty());
                }
                r
            },
            ConditionType::Petrified => {
                let r = Record::Tag(String::from_str("Petrified"), Vec::new());
                proof {
                    assert(rec_views(Seq::<Record>::empty()) =~= Seq::<RecordV>::empty());
                }
                r
            },
            ConditionType::Poisoned => {
                let r = Record::Tag(String::from_str("Poisoned"), Vec::new());
                proof {
                    assert(rec_views(Seq::<Record>::empty()) =~= Seq::<RecordV>::empty());
                }
                r
            },
            ConditionType::Prone => {
                let r = Record::Tag(String::from_str("Prone"), Vec::new());
                proof {
                    assert(rec_views(Seq::<Record>::empty()) =~= Seq::<RecordV>::empty());
                }
                r
            },
            ConditionType::Restrained => {
                let r = Record::Tag(String::from_str("Restrained"), Vec::new());
                proof {
                    assert(rec_views(Seq::<Record>::empty()) =~= Seq::<RecordV>::empty());
                }
                r
            },
            ConditionType::Stunned => {
                let r = Record::Tag(String::from_str("Stunned"), Vec::new());
                proof {
                    assert(rec_views(Seq::<Record>::empty()) =~= Seq::<RecordV>::empty());
                }
                r
            },
            ConditionType::Unconscious => {
                let r = Record::Tag(String::from_str("Unconscious"), Vec::new());
                proof {
                    assert(rec_views(Seq::<Record>::empty()) =~= Seq::<RecordV>::empty());
                }
                r
            },
        }
    }

    fn from_record(r: &Record) -> (res: Result<ConditionType, DecodeError>) {
        match r {
            Record::Tag(t, args) => {
                if str_eq(t.as_str(), "Blinded") && args.len() == 0 {
                    Ok(ConditionType::Blinded)
                } else if str_eq(t.as_str(), "Charmed") && args.len() == 0 {
                    Ok(ConditionType::Charmed)
                } else if str_eq(t.as_str(), "Deafened") && args.len() == 0 {
                    Ok(ConditionType::Deafened)
                } else if str_eq(t.as_str(), "Exhaustion") && args.len() == 0 {
                    Ok(ConditionType::Exhaustion)
                } else if str_eq(t.as_str(), "Frightened") && args.len() == 0 {
                    Ok(ConditionType::Frightened)
                } else if str_eq(t.as_str(), "Grappled") && args.len() == 0 {
                    Ok(ConditionType::Grappled)
                } else if str_eq(t.as_str(), "Incapacitated") && args.len() == 0 {
                    Ok(ConditionType::Incapacitated)
                } else if str_eq(t.as_str(), "Invisible") && args.len() == 0 {
                    Ok(ConditionType::Invisible)
                } else if str_eq(t.as_str(), "Paralyzed") && args.len() == 0 {
                    Ok(ConditionType::Paralyzed)
                } else if str_eq(t.as_str(), "Petrified") && args.len() == 0 {
                    Ok(ConditionType::Petrified)
                } else if str_eq(t.as_str(), "Poisoned") && args.len() == 0 {
                    Ok(ConditionType::Poisoned)
                } else if str_eq(t.as_str(), "Prone") && args.len() == 0 {
                    Ok(ConditionType::Prone)
                } else if str_eq(t.as_str(), "Restrained") && args.len() == 0 {
                    Ok(ConditionType::Restrained)
                } else if str_eq(t.as_str(), "Stunned") && args.len() == 0 {
                    Ok(ConditionType::Stunned)
                } else if str_eq(t.as_str(), "Unconscious") && args.len() == 0 {
                    Ok(ConditionType::Unconscious)
                } else {
                    Err(DecodeError::Malformed)
                }
            },
            _ => Err(DecodeError::Malformed),
        }
    }

    proof fn lemma_round_trip(v: ConditionType) {
        reveal_strlit("Blinded");
        reveal_strlit("Charmed");
        reveal_strlit("Deafened");
        reveal_strlit("Exhaustion");
        reveal_strlit("Frightened");
        reveal_strlit("Grappled");
        reveal_strlit("Incapacitated");
        reveal_strlit("Invisible");
        reveal_strlit("Paralyzed");
        reveal_strlit("Petrified");
        reveal_strlit("Poisoned");
        reveal_strlit("Prone");
        reveal_strlit("Restrained");
        reveal_strlit("Stunned");
        reveal_strlit("Unconscious");
        assert(("Charmed"@) != ("Blinded"@)) by {
            assert(("Charmed"@)[0] == 'C');
            assert(("Blinded"@)[0] == 'B');
        }
        assert(("Deafened"@) != ("Blinded"@)) by {
            assert(("Deafened"@)[0] == 'D');
            assert(("Blinded"@)[0] == 'B');
        }
        assert(("Deafened"@) != ("Charmed"@)) by {
            assert(("Deafened"@)[0] == 'D');
            assert(("Charmed"@)[0] == 'C');
        }
        assert(("Exhaustion"@) != ("Blinded"@)) by {
            assert(("Exhaustion"@)[0] == 'E');
            assert(("Blinded"@)[0] == 'B');
        }
        assert(("Exhaustion"@) != ("Charmed"@)) by {
            assert(("Exhaustion"@)[0] == 'E');
            assert(("Charmed"@)[0] == 'C');
        }
        assert(("Exhaustion"@) != ("Deafened"@)) by {
            assert(("Exhaustion"@)[0] == 'E');
            assert(("Deafened"@)[0] == 'D');
        }
        assert(("Frightened"@) != ("Blinded"@)) by {
            assert(("Frightened"@)[0] == 'F');
            assert(("Blinded"@)[0] == 'B');
        }
        assert(("Frightened"@) != ("Charmed"@)) by {
            assert(("Frightened"@)[0] == 'F');
            assert(("Charmed"@)[0] == 'C');
        }
        assert(("Frightened"@) != ("Deafened"@)) by {
            assert(("Frightened"@)[0] == 'F');
            assert(("Deafened"@)[0] == 'D');
        }
        assert(("Frightened"@) != ("Exhaustion"@)) by {
            assert(("Frightened"@)[0] == 'F');
            assert(("Exhaustion"@)[0] == 'E');
        }
        assert(("Grappled"@) != ("Blinded"@)) by {
            assert(("Grappled"@)[0] == 'G');
            assert(("Blinded"@)[0] == 'B');
        }
        assert(("Grappled"@) != ("Charmed"@)) by {
            assert(("Grappled"@)[0] == 'G');
            assert(("Charmed"@)[0] == 'C');
        }
        assert(("Grappled"@) != ("Deafened"@)) by {
            assert(("Grappled"@)[0] == 'G');
            assert(("Deafened"@)[0] == 'D');
        }
        assert(("Grappled"@) != ("Exhaustion"@)) by {
            assert(("Grappled"@)[0] == 'G');
            assert(("Exhaustion"@)[0] == 'E');
        }
        assert(("Grappled"@) != ("Frightened"@)) by {
            assert(("Grappled"@)[0] == 'G');
            assert(("Frightened"@)[0] == 'F');
        }
        assert(("Incapacitated"@) != ("Blinded"@)) by {
            assert(("Incapacitated"@)[0] == 'I');
            assert(("Blinded"@)[0] == 'B');
        }
        assert(("Incapacitated"@) != ("Charmed"@)) by {
            assert(("Incapacitated"@)[0] == 'I');
            assert(("Charmed"@)[0] == 'C');
        }
        assert(("Incapacitated"@) != ("Deafened"@)) by {
            assert(("Incapacitated"@)[0] == 'I');
            assert(("Deafened"@)[0] == 'D');
        }
        assert(("Incapacitated"@) != ("Exhaustion"@)) by {
            assert(("Incapacitated"@)[0] == 'I');
            assert(("Exhaustion"@)[0] == 'E');
        }
        assert(("Incapacitated"@) != ("Frightened"@)) by {
            assert(("Incapacitated"@)[0] == 'I');
            assert(("Frightened"@)[0] == 'F');
        }
        assert(("Incapacitated"@) != ("Grappled"@)) by {
            assert(("Incapacitated"@)[0] == 'I');
            assert(("Grappled"@)[0] == 'G');
        }
        assert(("Invisible"@) != ("Blinded"@)) by {
            assert(("Invisible"@)[0] == 'I');
            assert(("Blinded"@)[0] == 'B');
        }
        assert(("Invisible"@) != ("Charmed"@)) by {
            assert(("Invisible"@)[0] == 'I');
            assert(("Charmed"@)[0] == 'C');
        }
        assert(("Invisible"@) != ("Deafened"@)) by {
            assert(("Invisible"@)[0] == 'I');
            assert(("Deafened"@)[0] == 'D');
        }
        assert(("Invisible"@) != ("Exhaustion"@)) by {
            assert(("Invisible"@)[0] == 'I');
            assert(("Exhaustion"@)[0] == 'E');
        }
        assert(("Invisible"@) != ("Frightened"@)) by {
            assert(("Invisible"@)[0] == 'I');
            assert(("Frightened"@)[0] == 'F');
        }
        assert(("Invisible"@) != ("Grappled"@)) by {
            assert(("Invisible"@)[0] == 'I');
            assert(("Grappled"@)[0] == 'G');
        }
        assert(("Invisible"@) != ("Incapacitated"@)) by {
            assert(("Invisible"@)[2] == 'v');
            assert(("Incapacitated"@)[2] == 'c');
        }
        assert(("Paralyzed"@) != ("Blinded"@)) by {
            assert(("Paralyzed"@)[0] == 'P');
            assert(("Blinded"@)[0] == 'B');
        }
        assert(("Paralyzed"@) != ("Charmed"@)) by {
            assert(("Paralyzed"@)[0] == 'P');
            assert(("Charmed"@)[0] == 'C');
        }
        assert(("Paralyzed"@) != ("Deafened"@)) by {
            assert(("Paralyzed"@)[0] == 'P');
            assert(("Deafened"@)[0] == 'D');
        }
        assert(("Paralyzed"@) != ("Exhaustion"@)) by {
            assert(("Paralyzed"@)[0] == 'P');
            assert(("Exhaustion"@)[0] == 'E');
        }
        assert(("Paralyzed"@) != ("Frightened"@)) by {
            assert(("Paralyzed"@)[0] == 'P');
            assert(("Frightened"@)[0] == 'F');
        }
        assert(("Paralyzed"@) != ("Grappled"@)) by {
            assert(("Paralyzed"@)[0] == 'P');
            assert(("Grappled"@)[0] == 'G');
        }
        assert(("Paralyzed"@) != ("Incapacitated"@)) by {
            assert(("Paralyzed"@)[0] == 'P');
            assert(("Incapacitated"@)[0] == 'I');
        }
        assert(("Paralyzed"@) != ("Invisible"@)) by {
            assert(("Paralyzed"@)[0] == 'P');
            assert(("Invisible"@)[0] == 'I');
        }
        assert(("Petrified"@) != ("Blinded"@)) by {
            assert(("Petrified"@)[0] == 'P');
            assert(("Blinded"@)[0] == 'B');
        }
        assert(("Petrified"@) != ("Charmed"@)) by {
            assert(("Petrified"@)[0] == 'P');
            assert(("Charmed"@)[0] == 'C');
        }
        assert(("Petrified"@) != ("Deafened"@)) by {
            assert(("Petrified"@)[0] == 'P');
            assert(("Deafened"@)[0] == 'D');
        }
        assert(("Petrified"@) != ("Exhaustion"@)) by {
            assert(("Petrified"@)[0] == 'P');
            assert(("Exhaustion"@)[0] == 'E');
        }
        assert(("Petrified"@) != ("Frightened"@)) by {
            assert(("Petrified"@)[0] == 'P');
            assert(("Frightened"@)[0] == 'F');
        }
        assert(("Petrified"@) != ("Grappled"@)) by {
            assert(("Petrified"@)[0] == 'P');
            assert(("Grappled"@)[0] == 'G');
        }
        assert(("Petrified"@) != ("Incapacitated"@)) by {
            assert(("Petrified"@)[0] == 'P');
            assert(("Incapacitated"@)[0] == 'I');
        }
        assert(("Petrified"@) != ("Invisible"@)) by {
            assert(("Petrified"@)[0] == 'P');
            assert(("Invisible"@)[0] == 'I');
        }
        assert(("Petrified"@) != ("Paralyzed"@)) by {
            assert(("Petrified"@)[1] == 'e');
            assert(("Paralyzed"@)[1] == 'a');
        }
        assert(("Poisoned"@) != ("Blinded"@)) by {
            assert(("Poisoned"@)[0] == 'P');
            assert(("Blinded"@)[0] == 'B');
        }
        assert(("Poisoned"@) != ("Charmed"@)) by {
            assert(("Poisoned"@)[0] == 'P');
            assert(("Charmed"@)[0] == 'C');
        }
        assert(("Poisoned"@) != ("Deafened"@)) by {
            assert(("Poisoned"@)[0] == 'P');
            assert(("Deafened"@)[0] == 'D');
        }
        assert(("Poisoned"@) != ("Exhaustion"@)) by {
            assert(("Poisoned"@)[0] == 'P');
            assert(("Exhaustion"@)[0] == 'E');
        }
        assert(("Poisoned"@) != ("Frightened"@)) by {
            assert(("Poisoned"@)[0] == 'P');
            assert(("Frightened"@)[0] == 'F');
        }
        assert(("Poisoned"@) != ("Grappled"@)) by {
            assert(("Poisoned"@)[0] == 'P');
            assert(("Grappled"@)[0] == 'G');
        }
        assert(("Poisoned"@) != ("Incapacitated"@)) by {
            assert(("Poisoned"@)[0] == 'P');
            assert(("Incapacitated"@)[0] == 'I');
        }
        assert(("Poisoned"@) != ("Invisible"@)) by {
            assert(("Poisoned"@)[0] == 'P');
            assert(("Invisible"@)[0] == 'I');
        }
        assert(("Poisoned"@) != ("Paralyzed"@)) by {
            assert(("Poisoned"@)[1] == 'o');
            assert(("Paralyzed"@)[1] == 'a');
        }
        assert(("Poisoned"@) != ("Petrified"@)) by {
            assert(("Poisoned"@)[1] == 'o');
            assert(("Petrified"@)[1] == 'e');
        }
        assert(("Prone"@) != ("Blinded"@)) by {
            assert(("Prone"@)[0] == 'P');
            assert(("Blinded"@)[0] == 'B');
        }
        assert(("Prone"@) != ("Charmed"@)) by {
            assert(("Prone"@)[0] == 'P');
            assert(("Charmed"@)[0] == 'C');
        }
        assert(("Prone"@) != ("Deafened"@)) by {
            assert(("Prone"@)[0] == 'P');
            assert(("Deafened"@)[0] == 'D');
        }
        assert(("Prone"@) != ("Exhaustion"@)) by {
            assert(("Prone"@)[0] == 'P');
            assert(("Exhaustion"@)[0] == 'E');
        }
        assert(("Prone"@) != ("Frightened"@)) by {
            assert(("Prone"@)[0] == 'P');
            assert(("Frightened"@)[0] == 'F');
        }
        assert(("Prone"@) != ("Grappled"@)) by {
            assert(("Prone"@)[0] == 'P');
            assert(("Grappled"@)[0] == 'G');
        }
        assert(("Prone"@) != ("Incapacitated"@)) by {
            assert(("Prone"@)[0] == 'P');
            assert(("Incapacitated"@)[0] == 'I');
        }
        assert(("Prone"@) != ("Invisible"@)) by {
            assert(("Prone"@)[0] == 'P');
            assert(("Invisible"@)[0] == 'I');
        }
        assert(("Prone"@) != ("Paralyzed"@)) by {
            assert(("Prone"@)[1] == 'r');
            assert(("Paralyzed"@)[1] == 'a');
        }
        assert(("Prone"@) != ("Petrified"@)) by {
            assert(("Prone"@)[1] == 'r');
            assert(("Petrified"@)[1] == 'e');
        }
        assert(("Prone"@) != ("Poisoned"@)) by {
            assert(("Prone"@)[1] == 'r');
            assert(("Poisoned"@)[1] == 'o');
        }
        assert(("Restrained"@) != ("Blinded"@)) by {
            assert(("Restrained"@)[0] == 'R');
            assert(("Blinded"@)[0] == 'B');
        }
        assert(("Restrained"@) != ("Charmed"@)) by {
            assert(("Restrained"@)[0] == 'R');
            assert(("Charmed"@)[0] == 'C');
        }
        assert(("Restrained"@) != ("Deafened"@)) by {
            assert(("Restrained"@)[0] == 'R');
            assert(("Deafened"@)[0] == 'D');
        }
        assert(("Restrained"@) != ("Exhaustion"@)) by {
            assert(("Restrained"@)[0] == 'R');
            assert(("Exhaustion"@)[0] == 'E');
        }
        assert(("Restrained"@) != ("Frightened"@)) by {
            assert(("Restrained"@)[0] == 'R');
            assert(("Frightened"@)[0] == 'F');
        }
        assert(("Restrained"@) != ("Grappled"@)) by {
            assert(("Restrained"@)[0] == 'R');
            assert(("Grappled"@)[0] == 'G');
        }
        assert(("Restrained"@) != ("Incapacitated"@)) by {
            assert(("Restrained"@)[0] == 'R');
            assert(("Incapacitated"@)[0] == 'I');
        }
        assert(("Restrained"@) != ("Invisible"@)) by {
            assert(("Restrained"@)[0] == 'R');
            assert(("Invisible"@)[0] == 'I');
        }
        assert(("Restrained"@) != ("Paralyzed"@)) by {
            assert(("Restrained"@)[0] == 'R');
            assert(("Paralyzed"@)[0] == 'P');
        }
        assert(("Restrained"@) != ("Petrified"@)) by {
            assert(("Restrained"@)[0] == 'R');
            assert(("Petrified"@)[0] == 'P');
        }
        assert(("Restrained"@) != ("Poisoned"@)) by {
            assert(("Restrained"@)[0] == 'R');
            assert(("Poisoned"@)[0] == 'P');
        }
        assert(("Restrained"@) != ("Prone"@)) by {
            assert(("Restrained"@)[0] == 'R');
            assert(("Prone"@)[0] == 'P');
        }
        assert(("Stunned"@) != ("Blinded"@)) by {
            assert(("Stunned"@)[0] == 'S');
            assert(("Blinded"@)[0] == 'B');
        }
        assert(("Stunned"@) != ("Charmed"@)) by {
            assert(("Stunned"@)[0] == 'S');
            assert(("Charmed"@)[0] == 'C');
        }
        assert(("Stunned"@) != ("Deafened"@)) by {
            assert(("Stunned"@)[0] == 'S');
            assert(("Deafened"@)[0] == 'D');
        }
        assert(("Stunned"@) != ("Exhaustion"@)) by {
            assert(("Stunned"@)[0] == 'S');
            assert(("Exhaustion"@)[0] == 'E');
        }
        assert(("Stunned"@) != ("Frightened"@)) by {
            assert(("Stunned"@)[0] == 'S');
            assert(("Frightened"@)[0] == 'F');
        }
        assert(("Stunned"@) != ("Grappled"@)) by {
            assert(("Stunned"@)[0] == 'S');
            assert(("Grappled"@)[0] == 'G');
        }
        assert(("Stunned"@) != ("Incapacitated"@)) by {
            assert(("Stunned"@)[0] == 'S');
            assert(("Incapacitated"@)[0] == 'I');
        }
        assert(("Stunned"@) != ("Invisible"@)) by {
            assert(("Stunned"@)[0] == 'S');
            assert(("Invisible"@)[0] == 'I');
        }
        assert(("Stunned"@) != ("Paralyzed"@)) by {
            assert(("Stunned"@)[0] == 'S');
            assert(("Paralyzed"@)[0] == 'P');
        }
        assert(("Stunned"@) != ("Petrified"@)) by {
            assert(("Stunned"@)[0] == 'S');
            assert(("Petrified"@)[0] == 'P');
        }
        assert(("Stunned"@) != ("Poisoned"@)) by {
            assert(("Stunned"@)[0] == 'S');
            assert(("Poisoned"@)[0] == 'P');
        }
        assert(("Stunned"@) != ("Prone"@)) by {
            assert(("Stunned"@)[0] == 'S');
            assert(("Prone"@)[0] == 'P');
        }
        assert(("Stunned"@) != ("Restrained"@)) by {
            assert(("Stunned"@)[0] == 'S');
            assert(("Restrained"@)[0] == 'R');
        }
        assert(("Unconscious"@) != ("Blinded"@)) by {
            assert(("Unconscious"@)[0] == 'U');
            assert(("Blinded"@)[0] == 'B');
        }
        assert(("Unconscious"@) != ("Charmed"@)) by {
            assert(("Unconscious"@)[0] == 'U');
            assert(("Charmed"@)[0] == 'C');
        }
        assert(("Unconscious"@) != ("Deafened"@)) by {
            assert(("Unconscious"@)[0] == 'U');
            assert(("Deafened"@)[0] == 'D');
        }
        assert(("Unconscious"@) != ("Exhaustion"@)) by {
            assert(("Unconscious"@)[0] == 'U');
            assert(("Exhaustion"@)[0] == 'E');
        }
        assert(("Unconscious"@) != ("Frightened"@)) by {
            assert(("Unconscious"@)[0] == 'U');
            assert(("Frightened"@)[0] == 'F');
        }
        assert(("Unconscious"@) != ("Grappled"@)) by {
            assert(("Unconscious"@)[0] == 'U');
            assert(("Grappled"@)[0] == 'G');
        }
        assert(("Unconscious"@) != ("Incapacitated"@)) by {
            assert(("Unconscious"@)[0] == 'U');
            assert(("Incapacitated"@)[0] == 'I');
        }
        assert(("Unconscious"@) != ("Invisible"@)) by {
            assert(("Unconscious"@)[0] == 'U');
            assert(("Invisible"@)[0] == 'I');
        }
        assert(("Unconscious"@) != ("Paralyzed"@)) by {
            assert(("Unconscious"@)[0] == 'U');
            assert(("Paralyzed"@)[0] == 'P');
        }
        assert(("Unconscious"@) != ("Petrified"@)) by {
            assert(("Unconscious"@)[0] == 'U');
            assert(("Petrified"@)[0] == 'P');
        }
        assert(("Unconscious"@) != ("Poisoned"@)) by {
            assert(("Unconscious"@)[0] == 'U');
            assert(("Poisoned"@)[0] == 'P');
        }
        assert(("Unconscious"@) != ("Prone"@)) by {
            assert(("Unconscious"@)[0] == 'U');
            assert(("Prone"@)[0] == 'P');
        }
        assert(("Unconscious"@) != ("Restrained"@)) by {
            assert(("Unconscious"@)[0] == 'U');
            assert(("Restrained"@)[0] == 'R');
        }
        assert(("Unconscious"@) != ("Stunned"@)) by {
            assert(("Unconscious"@)[0] == 'U');
            assert(("Stunned"@)[0] == 'S');
        }
        match v {
            ConditionType::Blinded => {
                assert(Self::spec_dec(Self::spec_enc(ConditionType::Blinded)) == Some(ConditionType::Blinded));
            },
            ConditionType::Charmed => {
                assert(Self::spec_dec(Self::spec_enc(ConditionType::Charmed)) == Some(ConditionType::Charmed));
            },
            ConditionType::Deafened => {
                assert(Self::spec_dec(Self::spec_enc(ConditionType::Deafened)) == Some(ConditionType::Deafened));
            },
            ConditionType::Exhaustion => {
                assert(Self::spec_dec(Self::spec_enc(ConditionType::Exhaustion)) == Some(ConditionType::Exhaustion));
            },
            ConditionType::Frightened => {
                assert(Self::spec_dec(Self::spec_enc(ConditionType::Frightened)) == Some(ConditionType::Frightened));
            },
            ConditionType::Grappled => {
                assert(Self::spec_dec(Self::spec_enc(ConditionType::Grappled)) == Some(ConditionType::Grappled));
            },
            ConditionType::Incapacitated => {
                assert(Self::spec_dec(Self::spec_enc(ConditionType::Incapacitated)) == Some(ConditionType::Incapacitated));
            },
            ConditionType::Invisible => {
                assert(Self::spec_dec(Self::spec_enc(ConditionType::Invisible)) == Some(ConditionType::Invisible));
            },
            ConditionType::Paralyzed => {
                assert(Self::spec_dec(Self::spec_enc(ConditionType::Paralyzed)) == Some(ConditionType::Paralyzed));
            },
            ConditionType::Petrified => {
                assert(Self::spec_dec(Self::spec_enc(ConditionType::Petrified)) == Some(ConditionType::Petrified));
            },
            ConditionType::Poisoned => {
                assert(Self::spec_dec(Self::spec_enc(ConditionType::Poisoned)) == Some(ConditionType::Poisoned));
            },
            ConditionType::Prone => {
                assert(Self::spec_dec(Self::spec_enc(ConditionType::Prone)) == Some(ConditionType::Prone));
            },
            ConditionType::Restrained => {
                assert(Self::spec_dec(Self::spec_enc(ConditionType::Restrained)) == Some(ConditionType::Restrained));
            },
            ConditionType::Stunned => {
                assert(Self::spec_dec(Self::spec_enc(ConditionType::Stunned)) == Some(ConditionType::Stunned));
            },
            ConditionType::Unconscious => {
                assert(Self::spec_dec(Self::spec_enc(ConditionType::Unconscious)) == Some(ConditionType::Unconscious));
            },
        }
    }
}

/// A die size used in dice expressions.
#[derive(Debug, Clone, Copy, PartialEq, Eq, Structural)]
pub enum Die {
    D4,
    D6,
    D8,
    D10,
    D12,
    D20,
    D100,
}

impl DeepView for Die {
    type V = Die;

    open spec fn deep_view(&self) -> Die {
        *self
    }
}

impl Die {
    /// The number of faces of this die.
    pub open spec fn spec_faces(self) -> int {
        match self {
            Die::D4 => 4,
            Die::D6 => 6,
            Die::D8 => 8,
            Die::D10 => 10,
            Die::D12 => 12,
            Die::D20 => 20,
            Die::D100 => 100,
        }
    }

    /// The number of faces of this die.
    pub fn to_i32(&self) -> (n: i32)
        ensures
            n == self.spec_faces(),
    {
        match self {
            Die::D4 => 4,
            Die::D6 => 6,
            Die::D8 => 8,
            Die::D10 => 10,
            Die::D12 => 12,
            Die::D20 => 20,
            Die::D100 => 100,
        }
    }

    /// The display text of this die: a `d` followed by the face count.
    pub open spec fn spec_display(self) -> Seq<char> {
        "d"@ + dec_str(self.spec_faces())
    }

    /// Renders this die for display.
    pub fn to_string(&self) -> (s: String)
        ensures
            s@ == self.spec_display(),
    {
        let mut s = String::from_str("d");
        push_dec_i64(&mut s, self.to_i32() as i64);
        s
    }
}

impl Codec for Die {
    open spec fn spec_enc(v: Die) -> RecordV {
        match v {
            Die::D4 => RecordV::Tag("D4"@, Seq::empty()),
            Die::D6 => RecordV::Tag("D6"@, Seq::empty()),
            Die::D8 => RecordV::Tag("D8"@, Seq::empty()),
            Die::D10 => RecordV::Tag("D10"@, Seq::empty()),
            Die::D12 => RecordV::Tag("D12"@, Seq::empty()),
            Die::D20 => RecordV::Tag("D20"@, Seq::empty()),
            Die::D100 => RecordV::Tag("D100"@, Seq::empty()),
        }
    }

    open spec fn spec_dec(r: RecordV) -> Option<Die> {
        match r {
            RecordV::Tag(t, args) => {
                if t == "D4"@ && args.len() == 0 {
                    Some(Die::D4)
                } else if t == "D6"@ && args.len() == 0 {
                    Some(Die::D6)
                } else if t == "D8"@ && args.len() == 0 {
                    Some(Die::D8)
                } else if t == "D10"@ && args.len() == 0 {
                    Some(Die::D10)
                } else if t == "D12"@ && args.len() == 0 {
                    Some(Die::D12)
                } else if t == "D20"@ && args.len() == 0 {
                    Some(Die::D20)
                } else if t == "D100"@ && args.len() == 0 {
                    Some(Die::D100)
                } else {
                    None
                }
            },
            _ => None,
        }
    }

    fn to_record(&self) -> (r: Record) {
        match self {
            Die::D4 => {
                let r = Record::Tag(String::from_str("D4"), Vec::new());
                proof {
                    assert(rec_views(Seq::<Record>::empty()) =~= Seq::<RecordV>::empty());
                }
                r
            },
            Die::D6 => {
                let r = Record::Tag(String::from_str("D6"), Vec::new());
                proof {
                    assert(rec_views(Seq::<Record>::empty()) =~= Seq::<RecordV>::empty());
                }
                r
            },
            Die::D8 => {
                let r = Record::Tag(String::from_str("D8"), Vec::new());
                proof {
                    assert(rec_views(Seq::<Record>::empty()) =~= Seq::<RecordV>::empty());
                }
                r
            },
            Die::D10 => {
                let r = Record::Tag(String::from_str("D10"), Vec::new());
                proof {
                    assert(rec_views(Seq::<Record>::empty()) =~= Seq::<RecordV>::empty());
                }
                r
            },
            Die::D12 => {
                let r = Record::Tag(String::from_str("D12"), Vec::new());
                proof {
                    assert(rec_views(Seq::<Record>::empty()) =~= Seq::<RecordV>::empty());
                }
                r
            },
            Die::D20 => {
                let r = Record::Tag(String::from_str("D20"), Vec::new());
                proof {
                    assert(rec_views(Seq::<Record>::empty()) =~= Seq::<RecordV>::empty());
                }
                r
            },
            Die::D100 => {
                let r = Record::Tag(String::from_str("D100"), Vec::new());
                proof {
                    assert(rec_views(Seq::<Record>::empty()) =~= Seq::<RecordV>::empty());
                }
                r
            },
        }
    }

    fn from_record(r: &Record) -> (res: Result<Die, DecodeError>) {
        match r {
            Record::Tag(t, args) => {
                if str_eq(t.as_str(), "D4") && args.len() == 0 {
                    Ok(Die::D4)
                } else if str_eq(t.as_str(), "D6") && args.len() == 0 {
                    Ok(Die::D6)
                } else if str_eq(t.as_str(), "D8") && args.len() == 0 {
                    Ok(Die::D8)
                } else if str_eq(t.as_str(), "D10") && args.len() == 0 {
                    Ok(Die::D10)
                } else if str_eq(t.as_str(), "D12") && args.len() == 0 {
                    Ok(Die::D12)
                } else if str_eq(t.as_str(), "D20") && args.len() == 0 {
                    Ok(Die::D20)
                } else if str_eq(t.as_str(), "D100") && args.len() == 0 {
                    Ok(Die::D100)
                } else {
                    Err(DecodeError::Malformed)
                }
            },
            _ => Err(DecodeError::Malformed),
        }
    }

    proof fn lemma_round_trip(v: Die) {
        reveal_strlit("D4");
        reveal_strlit("D6");
        reveal_strlit("D8");
        reveal_strlit("D10");
        reveal_strlit("D12");
        reveal_strlit("D20");
        reveal_strlit("D100");
        assert(("D6"@) != ("D4"@)) by {
            assert(("D6"@)[1] == '6');
            assert(("D4"@)[1] == '4');
        }
        assert(("D8"@) != ("D4"@)) by {
            assert(("D8"@)[1] == '8');
            assert(("D4"@)[1] == '4');
        }
        assert(("D8"@) != ("D6"@)) by {
            assert(("D8"@)[1] == '8');
            assert(("D6"@)[1] == '6');
        }
        assert(("D10"@) != ("D4"@)) by {
            assert(("D10"@)[1] == '1');
            assert(("D4"@)[1] == '4');
        }
        assert(("D10"@) != ("D6"@)) by {
            assert(("D10"@)[1] == '1');
            assert(("D6"@)[1] == '6');
        }
        assert(("D10"@) != ("D8"@)) by {
            assert(("D10"@)[1] == '1');
            assert(("D8"@)[1] == '8');
        }
        assert(("D12"@) != ("D4"@)) by {
            assert(("D12"@)[1] == '1');
            assert(("D4"@)[1] == '4');
        }
        assert(("D12"@) != ("D6"@)) by {
            assert(("D12"@)[1] == '1');
            assert(("D6"@)[1] == '6');
        }
        assert(("D12"@) != ("D8"@)) by {
            assert(("D12"@)[1] == '1');
            assert(("D8"@)[1] == '8');
        }
        assert(("D12"@) != ("D10"@)) by {
            assert(("D12"@)[2] == '2');
            assert(("D10"@)[2] == '0');
        }
        assert(("D20"@) != ("D4"@)) by {
            assert(("D20"@)[1] == '2');
            assert(("D4"@)[1] == '4');
        }
        assert(("D20"@) != ("D6"@)) by {
            assert(("D20"@)[1] == '2');
            assert(("D6"@)[1] == '6');
        }
        assert(("D20"@) != ("D8"@)) by {
            assert(("D20"@)[1] == '2');
            assert(("D8"@)[1] == '8');
        }
        assert(("D20"@) != ("D10"@)) by {
            assert(("D20"@)[1] == '2');
            assert(("D10"@)[1] == '1');
        }
        assert(("D20"@) != ("D12"@)) by {
            assert(("D20"@)[1] == '2');
            assert(("D12"@)[1] == '1');
        }
        assert(("D100"@) != ("D4"@)) by {
            assert(("D100"@)[1] == '1');
            assert(("D4"@)[1] == '4');
        }
        assert(("D100"@) != ("D6"@)) by {
            assert(("D100"@)[1] == '1');
            assert(("D6"@)[1] == '6');
        }
        assert(("D100"@) != ("D8"@)) by {
            assert(("D100"@)[1] == '1');
            assert(("D8"@)[1] == '8');
        }
        assert(("D100"@) != ("D10"@)) by {
            assert(("D100"@).len() == 4);
            assert(("D10"@).len() == 3);
        }
        assert(("D100"@) != ("D12"@)) by {
            assert(("D100"@)[2] == '0');
            assert(("D12"@)[2] == '2');
        }
        assert(("D100"@) != ("D20"@)) by {
            assert(("D100"@)[1] == '1');
            assert(("D20"@)[1] == '2');
        }
        match v {
            Die::D4 => {
                assert(Self::spec_dec(Self::spec_enc(Die::D4)) == Some(Die::D4));
            },
            Die::D6 => {
                assert(Self::spec_dec(Self::spec_enc(Die::D6)) == Some(Die::D6));
            },
            Die::D8 => {
                assert(Self::spec_dec(Self::spec_enc(Die::D8)) == Some(Die::D8));
            },
            Die::D10 => {
                assert(Self::spec_dec(Self::spec_enc(Die::D10)) == Some(Die::D10));
            },
            Die::D12 => {
                assert(Self::spec_dec(Self::spec_enc(Die::D12)) == Some(Die::D12));
            },
            Die::D20 => {
                assert(Self::spec_dec(Self::spec_enc(Die::D20)) == Some(Die::D20));
            },
            Die::D100 => {
                assert(Self::spec_dec(Self::spec_enc(Die::D100)) == Some(Die::D100));
            },
        }
    }
}

/// A dice expression: a number of dice of one size plus a flat bonus.
#[derive(Debug, Clone, Copy, PartialEq, Eq, Structural)]
pub struct DieStat {
    pub die_count: i32,
    pub die_type: Die,
    pub extra: i32,
}

impl DeepView for DieStat {
    type V = DieStat;

    open spec fn deep_view(&self) -> DieStat {
        *self
    }
}

impl DieStat {
    /// The expected total of the roll: the average of each die summed and
    /// rounded down, plus the flat bonus. Equal to
    /// `floor(die_count * (faces / 2 + 1/2)) + extra` for a non-negative count.
    pub open spec fn spec_value(self) -> int {
        self.die_count * (self.die_type.spec_faces() + 1) / 2 + self.extra
    }

    /// Computes the expected total of this dice expression.
    pub fn value(&self) -> (n: i32)
        requires
            self.die_count >= 0,
            i32::MIN <= self.spec_value() <= i32::MAX,
        ensures
            n == self.spec_value(),
    {
        let avg_total: i64 = self.die_count as i64 * (self.die_type.to_i32() as i64 + 1) / 2;
        (avg_total + self.extra as i64) as i32
    }

    /// The display text of a dice expression: `"{count}d{faces} + {bonus}"`.
    pub open spec fn spec_display(self) -> Seq<char> {
        dec_str(self.die_count as int) + self.die_type.spec_display() + " + "@ + dec_str(
            self.extra as int,
        )
    }

    /// Renders this dice expression for display.
    pub fn to_string(&self) -> (s: String)
        ensures
            s@ == self.spec_display(),
    {
        let mut s = dec_string(self.die_count as i64);
        let die = self.die_type.to_string();
        s.append(die.as_str());
        s.append(" + ");
        push_dec_i64(&mut s, self.extra as i64);
        proof {
            reveal_strlit(" + ");
            assert(s@ =~= self.spec_display());
        }
        s
    }
}

impl Codec for DieStat {
    open spec fn spec_enc(v: DieStat) -> RecordV {
        RecordV::Obj(
            seq![
                ("die_count"@, <i32 as Codec>::spec_enc(v.die_count)),
                ("die_type"@, <Die as Codec>::spec_enc(v.die_type)),
                ("extra"@, <i32 as Codec>::spec_enc(v.extra)),
            ],
        )
    }

    open spec fn spec_dec(r: RecordV) -> Option<DieStat> {
        match r {
            RecordV::Obj(fields) => if fields.len() == 3
                && fields[0].0 == "die_count"@
                && fields[1].0 == "die_type"@
                && fields[2].0 == "extra"@ {
                match (<i32 as Codec>::spec_dec(fields[0].1), <Die as Codec>::spec_dec(fields[1].1), <i32 as Codec>::spec_dec(fields[2].1)) {
                    (Some(f_die_count), Some(f_die_type), Some(f_extra)) => Some(DieStat { die_count: f_die_count, die_type: f_die_type, extra: f_extra }),
                    _ => None,
                }
            } else {
                None
            },
            _ => None,
        }
    }

    fn to_record(&self) -> (r: Record) {
        let mut fs: Vec<(String, Record)> = Vec::new();
        fs.push((String::from_str("die_count"), self.die_count.to_record()));
        fs.push((String::from_str("die_type"), self.die_type.to_record()));
        fs.push((String::from_str("extra"), self.extra.to_record()));
        let r = Record::Obj(fs);
        proof {
            assert(field_views(fs@) =~= seq![
                ("die_count"@, <i32 as Codec>::spec_enc(self.die_count)),
                ("die_type"@, <Die as Codec>::spec_enc(self.die_type)),
                ("extra"@, <i32 as Codec>::spec_enc(self.extra)),
            ]);
        }
        r
    }

    fn from_record(r: &Record) -> (res: Result<DieStat, DecodeError>) {
        match r {
            Record::Obj(fs) => {
                if fs.len() != 3 {
                    return Err(DecodeError::Malformed);
                }
                let e0 = &fs[0];
                if !str_eq(e0.0.as_str(), "die_count") {
                    return Err(DecodeError::Malformed);
                }
                let f_die_count = match <i32>::from_record(&e0.1) {
                    Ok(x) => x,
                    Err(e) => return Err(e),
                };
                let e1 = &fs[1];
                if !str_eq(e1.0.as_str(), "die_type") {
                    return Err(DecodeError::Malformed);
                }
                let f_die_type = match <Die>::from_record(&e1.1) {
                    Ok(x) => x,
                    Err(e) => return Err(e),
                };
                let e2 = &fs[2];
                if !str_eq(e2.0.as_str(), "extra") {
                    return Err(DecodeError::Malformed);
                }
                let f_extra = match <i32>::from_record(&e2.1) {
                    Ok(x) => x,
                    Err(e) => return Err(e),
                };
                Ok(DieStat { die_count: f_die_count, die_type: f_die_type, extra: f_extra })
            },
            _ => Err(DecodeError::Malformed),
        }
    }

    proof fn lemma_round_trip(v: DieStat) {
        <i32 as Codec>::lemma_round_trip(v.die_count);
        <Die as Codec>::lemma_round_trip(v.die_type);
        <i32 as Codec>::lemma_round_trip(v.extra);
    }
}

/// A free-form attribute: a titled, described value not otherwise modeled.
#[derive(Debug, Clone, PartialEq)]
pub struct OtherAttribute {
    pub title: String,
    pub description: String,
    pub value: String,
}

/// The mathematical form of a [`OtherAttribute`].
#[verifier::ext_equal]
pub struct OtherAttributeView {
    pub title: Seq<char>,
    pub description: Seq<char>,
    pub value: Seq<char>,
}

impl DeepView for OtherAttribute {
    type V = OtherAttributeView;

    open spec fn deep_view(&self) -> OtherAttributeView {
        OtherAttributeView {
            title: self.title@,
            description: self.description@,
            value: self.value@,
        }
    }
}

impl OtherAttribute {
    /// The display text of an attribute: `"{title}: {value}"`.
    pub open spec fn spec_display(self) -> Seq<char> {
        self.title@ + ": "@ + self.value@
    }

    /// Renders this attribute for display.
    pub fn to_string(&self) -> (s: String)
        ensures
            s@ == self.spec_display(),
    {
        let mut s = self.title.clone();
        s.append(": ");
        s.append(self.value.as_str());
        proof {
            assert(s@ =~= self.spec_display());
        }
        s
    }
}

impl Codec for OtherAttribute {
    open spec fn spec_enc(v: OtherAttributeView) -> RecordV {
        RecordV::Obj(
            seq![
                ("title"@, <String as Codec>::spec_enc(v.title)),
                ("description"@, <String as Codec>::spec_enc(v.description)),
                ("value"@, <String as Codec>::spec_enc(v.value)),
            ],
        )
    }

    open spec fn spec_dec(r: RecordV) -> Option<OtherAttributeView> {
        match r {
            RecordV::Obj(fields) => if fields.len() == 3
                && fields[0].0 == "title"@
                && fields[1].0 == "description"@
                && fields[2].0 == "value"@ {
                match (<String as Codec>::spec_dec(fields[0].1), <String as Codec>::spec_dec(fields[1].1), <String as Codec>::spec_dec(fields[2].1)) {
                    (Some(f_title), Some(f_description), Some(f_value)) => Some(OtherAttributeView { title: f_title, description: f_description, value: f_value }),
                    _ => None,
                }
            } else {
                None
            },
            _ => None,
        }
    }

    fn to_record(&self) -> (r: Record) {
        let mut fs: Vec<(String, Record)> = Vec::new();
        fs.push((String::from_str("title"), self.title.to_record()));
        fs.push((String::from_str("description"), self.description.to_record()));
        fs.push((String::from_str("value"), self.value.to_record()));
        let r = Record::Obj(fs);
        proof {
            assert(field_views(fs@) =~= seq![
                ("title"@, <String as Codec>::spec_enc(self.title@)),
                ("description"@, <String as Codec>::spec_enc(self.description@)),
                ("value"@, <String as Codec>::spec_enc(self.value@)),
            ]);
        }
        r
    }

    fn from_record(r: &Record) -> (res: Result<OtherAttribute, DecodeError>) {
        match r {
            Record::Obj(fs) => {
                if fs.len() != 3 {
                    return Err(DecodeError::Malformed);
                }
                let e0 = &fs[0];
                if !str_eq(e0.0.as_str(), "title") {
                    return Err(DecodeError::Malformed);
                }
                let f_title = match <String>::from_record(&e0.1) {
                    Ok(x) => x,
                    Err(e) => return Err(e),
                };
                let e1 = &fs[1];
                if !str_eq(e1.0.as_str(), "description") {
                    return Err(DecodeError::Malformed);
                }
                let f_description = match <String>::from_record(&e1.1) {
                    Ok(x) => x,
                    Err(e) => return Err(e),
                };
                let e2 = &fs[2];
                if !str_eq(e2.0.as_str(), "value") {
                    return Err(DecodeError::Malformed);
                }
                let f_value = match <String>::from_record(&e2.1) {
                    Ok(x) => x,
                    Err(e) => return Err(e),
                };
                Ok(OtherAttribute { title: f_title, description: f_description, value: f_value })
            },
            _ => Err(DecodeError::Malformed),
        }
    }

    proof fn lemma_round_trip(v: OtherAttributeView) {
        <String as Codec>::lemma_round_trip(v.title);
        <String as Codec>::lemma_round_trip(v.description);
        <String as Codec>::lemma_round_trip(v.value);
    }
}

/// A creature's moral and ethical alignment.
#[derive(Debug, Clone, Copy, PartialEq, Eq, Structural)]
pub enum Alignment {
    AnyAlignment,
    AnyChaotic,
    AnyEvil,
    AnyGood,
    AnyLawful,
    AnyNeutral,
    AnyNonChaotic,
    AnyNonEvil,
    AnyNonGood,
    AnyNonLawful,
    AnyNonNeutral,
    ChaoticEvil,
    ChaoticNeutral,
    ChaoticGood,
    LawfulEvil,
    LawfulNeutral,
    LawfulGood,
    NeutralEvil,
    TrueNeutral,
    NeutralGood,
    TypicallyChaoticEvil,
    TypicallyChaoticNeutral,
    TypicallyChaoticGood,
    TypicallyLawfulEvil,
    TypicallyLawfulNeutral,
    TypicallyLawfulGood,
    TypicallyNeutralEvil,
    TypicallyTrueNeutral,
    TypicallyNeutralGood,
    Unaligned,
}

impl DeepView for Alignment {
    type V = Alignment;

    open spec fn deep_view(&self) -> Alignment {
        *self
    }
}

impl Alignment {
    /// The display text of this alignment, in stat-block prose case.
    pub open spec fn spec_display(self) -> Seq<char> {
        match self {
            Alignment::AnyAlignment => "any alignment"@,
            Alignment::AnyChaotic => "any chaotic alignment"@,
            Alignment::AnyEvil => "any evil alignment"@,
            Alignment::AnyGood => "any good alignment"@,
            Alignment::AnyLawful => "any lawful alignment"@,
            Alignment::AnyNeutral => "any neutral alignment"@,
            Alignment::AnyNonChaotic => "any non-chaotic alignment"@,
            Alignment::AnyNonEvil => "any non-evil alignment"@,
            Alignment::AnyNonGood => "any non-good alignment"@,
            Alignment::AnyNonLawful => "any non-lawful alignment"@,
            Alignment::AnyNonNeutral => "any non-neutral alignment"@,
            Alignment::ChaoticEvil => "chaotic evil"@,
            Alignment::ChaoticNeutral => "chaotic neutral"@,
            Alignment::ChaoticGood => "chaotic good"@,
            Alignment::LawfulEvil => "lawful evil"@,
            Alignment::LawfulNeutral => "lawful neutral"@,
            Alignment::LawfulGood => "lawful good"@,
            Alignment::NeutralEvil => "neutral evil"@,
            Alignment::TrueNeutral => "true neutral"@,
            Alignment::NeutralGood => "neutral good"@,
            Alignment::TypicallyChaoticEvil => "typically chaotic evil"@,
            Alignment::TypicallyChaoticNeutral => "typically chaotic neutral"@,
            Alignment::TypicallyChaoticGood => "typically chaotic good"@,
            Alignment::TypicallyLawfulEvil => "typically lawful evil"@,
            Alignment::TypicallyLawfulNeutral => "typically lawful neutral"@,
            Alignment::TypicallyLawfulGood => "typically lawful good"@,
            Alignment::TypicallyNeutralEvil => "typically neutral evil"@,
            Alignment::TypicallyTrueNeutral => "typically true neutral"@,
            Alignment::TypicallyNeutralGood => "typically neutral good"@,
            Alignment::Unaligned => "unaligned"@,
        }
    }

    /// Renders the display text of this value.
    pub fn to_string(&self) -> (s: String)
        ensures
            s@ == self.spec_display(),
    {
        match self {
            Alignment::AnyAlignment => String::from_str("any alignment"),
            Alignment::AnyChaotic => String::from_str("any chaotic alignment"),
            Alignment::AnyEvil => String::from_str("any evil alignment"),
            Alignment::AnyGood => String::from_str("any good alignment"),
            Alignment::AnyLawful => String::from_str("any lawful alignment"),
            Alignment::AnyNeutral => String::from_str("any neutral alignment"),
            Alignment::AnyNonChaotic => String::from_str("any non-chaotic alignment"),
            Alignment::AnyNonEvil => String::from_str("any non-evil alignment"),
            Alignment::AnyNonGood => String::from_str("any non-good alignment"),
            Alignment::AnyNonLawful => String::from_str("any non-lawful alignment"),
            Alignment::AnyNonNeutral => String::from_str("any non-neutral alignment"),
            Alignment::ChaoticEvil => String::from_str("chaotic evil"),
            Alignment::ChaoticNeutral => String::from_str("chaotic neutral"),
            Alignment::ChaoticGood => String::from_str("chaotic good"),
            Alignment::LawfulEvil => String::from_str("lawful evil"),
            Alignment::LawfulNeutral => String::from_str("lawful neutral"),
            Alignment::LawfulGood => String::from_str("lawful good"),
            Alignment::NeutralEvil => String::from_str("neutral evil"),
            Alignment::TrueNeutral => String::from_str("true neutral"),
            Alignment::NeutralGood => String::from_str("neutral good"),
            Alignment::TypicallyChaoticEvil => String::from_str("typically chaotic evil"),
            Alignment::TypicallyChaoticNeutral => String::from_str("typically chaotic neutral"),
            Alignment::TypicallyChaoticGood => String::from_str("typically chaotic good"),
            Alignment::TypicallyLawfulEvil => String::from_str("typically lawful evil"),
            Alignment::TypicallyLawfulNeutral => String::from_str("typically lawful neutral"),
            Alignment::TypicallyLawfulGood => String::from_str("typically lawful good"),
            Alignment::TypicallyNeutralEvil => String::from_str("typically neutral evil"),
            Alignment::TypicallyTrueNeutral => String::from_str("typically true neutral"),
            Alignment::TypicallyNeutralGood => String::from_str("typically neutral good"),
            Alignment::Unaligned => String::from_str("unaligned"),
        }
    }
}

impl Codec for Alignment {
    open spec fn spec_enc(v: Alignment) -> RecordV {
        match v {
            Alignment::AnyAlignment => RecordV::Tag("AnyAlignment"@, Seq::empty()),
            Alignment::AnyChaotic => RecordV::Tag("AnyChaotic"@, Seq::empty()),
            Alignment::AnyEvil => RecordV::Tag("AnyEvil"@, Seq::empty()),
            Alignment::AnyGood => RecordV::Tag("AnyGood"@, Seq::empty()),
            Alignment::AnyLawful => RecordV::Tag("AnyLawful"@, Seq::empty()),
            Alignment::AnyNeutral => RecordV::Tag("AnyNeutral"@, Seq::empty()),
            Alignment::AnyNonChaotic => RecordV::Tag("AnyNonChaotic"@, Seq::empty()),
            Alignment::AnyNonEvil => RecordV::Tag("AnyNonEvil"@, Seq::empty()),
            Alignment::AnyNonGood => RecordV::Tag("AnyNonGood"@, Seq::empty()),
            Alignment::AnyNonLawful => RecordV::Tag("AnyNonLawful"@, Seq::empty()),
            Alignment::AnyNonNeutral => RecordV::Tag("AnyNonNeutral"@, Seq::empty()),
            Alignment::ChaoticEvil => RecordV::Tag("ChaoticEvil"@, Seq::empty()),
            Alignment::ChaoticNeutral => RecordV::Tag("ChaoticNeutral"@, Seq::empty()),
            Alignment::ChaoticGood => RecordV::Tag("ChaoticGood"@, Seq::empty()),
            Alignment::LawfulEvil => RecordV::Tag("LawfulEvil"@, Seq::empty()),
            Alignment::LawfulNeutral => RecordV::Tag("LawfulNeutral"@, Seq::empty()),
            Alignment::LawfulGood => RecordV::Tag("LawfulGood"@, Seq::empty()),
            Alignment::NeutralEvil => RecordV::Tag("NeutralEvil"@, Seq::empty()),
            Alignment::TrueNeutral => RecordV::Tag("TrueNeutral"@, Seq::empty()),
            Alignment::NeutralGood => RecordV::Tag("NeutralGood"@, Seq::empty()),
            Alignment::TypicallyChaoticEvil => RecordV::Tag("TypicallyChaoticEvil"@, Seq::empty()),
            Alignment::TypicallyChaoticNeutral => RecordV::Tag("TypicallyChaoticNeutral"@, Seq::empty()),
            Alignment::TypicallyChaoticGood => RecordV::Tag("TypicallyChaoticGood"@, Seq::empty()),
            Alignment::TypicallyLawfulEvil => RecordV::Tag("TypicallyLawfulEvil"@, Seq::empty()),
            Alignment::TypicallyLawfulNeutral => RecordV::Tag("TypicallyLawfulNeutral"@, Seq::empty()),
            Alignment::TypicallyLawfulGood => RecordV::Tag("TypicallyLawfulGood"@, Seq::empty()),
            Alignment::TypicallyNeutralEvil => RecordV::Tag("TypicallyNeutralEvil"@, Seq::empty()),
            Alignment::TypicallyTrueNeutral => RecordV::Tag("TypicallyTrueNeutral"@, Seq::empty()),
            Alignment::TypicallyNeutralGood => RecordV::Tag("TypicallyNeutralGood"@, Seq::empty()),
            Alignment::Unaligned => RecordV::Tag("Unaligned"@, Seq::empty()),
        }
    }

    open spec fn spec_dec(r: RecordV) -> Option<Alignment> {
        match r {
            RecordV::Tag(t, args) => {
                if t == "AnyAlignment"@ && args.len() == 0 {
                    Some(Alignment::AnyAlignment)
                } else if t == "AnyChaotic"@ && args.len() == 0 {
                    Some(Alignment::AnyChaotic)
                } else if t == "AnyEvil"@ && args.len() == 0 {
                    Some(Alignment::AnyEvil)
                } else if t == "AnyGood"@ && args.len() == 0 {
                    Some(Alignment::AnyGood)
                } else if t == "AnyLawful"@ && args.len() == 0 {
                    Some(Alignment::AnyLawful)
                } else if t == "AnyNeutral"@ && args.len() == 0 {
                    Some(Alignment::AnyNeutral)
                } else if t == "AnyNonChaotic"@ && args.len() == 0 {
                    Some(Alignment::AnyNonChaotic)
                } else if t == "AnyNonEvil"@ && args.len() == 0 {
                    Some(Alignment::AnyNonEvil)
                } else if t == "AnyNonGood"@ && args.len() == 0 {
                    Some(Alignment::AnyNonGood)
                } else if t == "AnyNonLawful"@ && args.len() == 0 {
                    Some(Alignment::AnyNonLawful)
                } else if t == "AnyNonNeutral"@ && args.len() == 0 {
                    Some(Alignment::AnyNonNeutral)
                } else if t == "ChaoticEvil"@ && args.len() == 0 {
                    Some(Alignment::ChaoticEvil)
                } else if t == "ChaoticNeutral"@ && args.len() == 0 {
                    Some(Alignment::ChaoticNeutral)
                } else if t == "ChaoticGood"@ && args.len() == 0 {
                    Some(Alignment::ChaoticGood)
                } else if t == "LawfulEvil"@ && args.len() == 0 {
                    Some(Alignment::LawfulEvil)
                } else if t == "LawfulNeutral"@ && args.len() == 0 {
                    Some(Alignment::LawfulNeutral)
                } else if t == "LawfulGood"@ && args.len() == 0 {
                    Some(Alignment::LawfulGood)
                } else if t == "NeutralEvil"@ && args.len() == 0 {
                    Some(Alignment::NeutralEvil)
                } else if t == "TrueNeutral"@ && args.len() == 0 {
                    Some(Alignment::TrueNeutral)
                } else if t == "NeutralGood"@ && args.len() == 0 {
                    Some(Alignment::NeutralGood)
                } else if t == "TypicallyChaoticEvil"@ && args.len() == 0 {
                    Some(Alignment::TypicallyChaoticEvil)
                } else if t == "TypicallyChaoticNeutral"@ && args.len() == 0 {
                    Some(Alignment::TypicallyChaoticNeutral)
                } else if t == "TypicallyChaoticGood"@ && args.len() == 0 {
                    Some(Alignment::TypicallyChaoticGood)
                } else if t == "TypicallyLawfulEvil"@ && args.len() == 0 {
                    Some(Alignment::TypicallyLawfulEvil)
                } else if t == "TypicallyLawfulNeutral"@ && args.len() == 0 {
                    Some(Alignment::TypicallyLawfulNeutral)
                } else if t == "TypicallyLawfulGood"@ && args.len() == 0 {
                    Some(Alignment::TypicallyLawfulGood)
                } else if t == "TypicallyNeutralEvil"@ && args.len() == 0 {
                    Some(Alignment::TypicallyNeutralEvil)
                } else if t == "TypicallyTrueNeutral"@ && args.len() == 0 {
                    Some(Alignment::TypicallyTrueNeutral)
                } else if t == "TypicallyNeutralGood"@ && args.len() == 0 {
                    Some(Alignment::TypicallyNeutralGood)
                } else if t == "Unaligned"@ && args.len() == 0 {
                    Some(Alignment::Unaligned)
                } else {
                    None
                }
            },
            _ => None,
        }
    }

    fn to_record(&self) -> (r: Record) {
        match self {
            Alignment::AnyAlignment => {
                let r = Record::Tag(String::from_str("AnyAlignment"), Vec::new());
                proof {
                    assert(rec_views(Seq::<Record>::empty()) =~= Seq::<RecordV>::empty());
                }
                r
            },
            Alignment::AnyChaotic => {
                let r = Record::Tag(String::from_str("AnyChaotic"), Vec::new());
                proof {
                    assert(rec_views(Seq::<Record>::empty()) =~= Seq::<RecordV>::empty());
                }
                r
            },
            Alignment::AnyEvil => {
                let r = Record::Tag(String::from_str("AnyEvil"), Vec::new());
                proof {
                    assert(rec_views(Seq::<Record>::empty()) =~= Seq::<RecordV>::empty());
                }
                r
            },
            Alignment::AnyGood => {
                let r = Record::Tag(String::from_str("AnyGood"), Vec::new());
                proof {
                    assert(rec_views(Seq::<Record>::empty()) =~= Seq::<RecordV>::empty());
                }
                r
            },
            Alignment::AnyLawful => {
                let r = Record::Tag(String::from_str("AnyLawful"), Vec::new());
                proof {
                    assert(rec_views(Seq::<Record>::empty()) =~= Seq::<RecordV>::empty());
                }
                r
            },
            Alignment::AnyNeutral => {
                let r = Record::Tag(String::from_str("AnyNeutral"), Vec::new());
                proof {
                    assert(rec_views(Seq::<Record>::empty()) =~= Seq::<RecordV>::empty());
                }
                r
            },
            Alignment::AnyNonChaotic => {
                let r = Record::Tag(String::from_str("AnyNonChaotic"), Vec::new());
                proof {
                    assert(rec_views(Seq::<Record>::empty()) =~= Seq::<RecordV>::empty());
                }
                r
            },
            Alignment::AnyNonEvil => {
                let r = Record::Tag(String::from_str("AnyNonEvil"), Vec::new());
                proof {
                    assert(rec_views(Seq::<Record>::empty()) =~= Seq::<RecordV>::empty());
                }
                r
            },
            Alignment::AnyNonGood => {
                let r = Record::Tag(String::from_str("AnyNonGood"), Vec::new());
                proof {
                    assert(rec_views(Seq::<Record>::empty()) =~= Seq::<RecordV>::empty());
                }
                r
            },
            Alignment::AnyNonLawful => {
                let r = Record::Tag(String::from_str("AnyNonLawful"), Vec::new());
                proof {
                    assert(rec_views(Seq::<Record>::empty()) =~= Seq::<RecordV>::empty());
                }
                r
            },
            Alignment::AnyNonNeutral => {
                let r = Record::Tag(String::from_str("AnyNonNeutral"), Vec::new());
                proof {
                    assert(rec_views(Seq::<Record>::empty()) =~= Seq::<RecordV>::empty());
                }
                r
            },
            Alignment::ChaoticEvil => {
                let r = Record::Tag(String::from_str("ChaoticEvil"), Vec::new());
                proof {
                    assert(rec_views(Seq::<Record>::empty()) =~= Seq::<RecordV>::empty());
                }
                r
            },
            Alignment::ChaoticNeutral => {
                let r = Record::Tag(String::from_str("ChaoticNeutral"), Vec::new());
                proof {
                    assert(rec_views(Seq::<Record>::empty()) =~= Seq::<RecordV>::empty());
                }
                r
            },
            Alignment::ChaoticGood => {
                let r = Record::Tag(String::from_str("ChaoticGood"), Vec::new());
                proof {
                    assert(rec_views(Seq::<Record>::empty()) =~= Seq::<RecordV>::empty());
                }
                r
            },
            Alignment::LawfulEvil => {
                let r = Record::Tag(String::from_str("LawfulEvil"), Vec::new());
                proof {
                    assert(rec_views(Seq::<Record>::empty()) =~= Seq::<RecordV>::empty());
                }
                r
            },
            Alignment::LawfulNeutral => {
                let r = Record::Tag(String::from_str("LawfulNeutral"), Vec::new());
                proof {
                    assert(rec_views(Seq::<Record>::empty()) =~= Seq::<RecordV>::empty());
                }
                r
            },
            Alignment::LawfulGood => {
                let r = Record::Tag(String::from_str("LawfulGood"), Vec::new());
                proof {
                    assert(rec_views(Seq::<Record>::empty()) =~= Seq::<RecordV>::empty());
                }
                r
            },
            Alignment::NeutralEvil => {
                let r = Record::Tag(String::from_str("NeutralEvil"), Vec::new());
                proof {
                    assert(rec_views(Seq::<Record>::empty()) =~= Seq::<RecordV>::empty());
                }
                r
            },
            Alignment::TrueNeutral => {
                let r = Record::Tag(String::from_str("TrueNeutral"), Vec::new());
                proof {
                    assert(rec_views(Seq::<Record>::empty()) =~= Seq::<RecordV>::empty());
                }
                r
            },
            Alignment::NeutralGood => {
                let r = Record::Tag(String::from_str("NeutralGood"), Vec::new());
                proof {
                    assert(rec_views(Seq::<Record>::empty()) =~= Seq::<RecordV>::empty());
                }
                r
            },
            Alignment::TypicallyChaoticEvil => {
                let r = Record::Tag(String::from_str("TypicallyChaoticEvil"), Vec::new());
                proof {
                    assert(rec_views(Seq::<Record>::empty()) =~= Seq::<RecordV>::empty());
                }
                r
            },
            Alignment::TypicallyChaoticNeutral => {
                let r = Record::Tag(String::from_str("TypicallyChaoticNeutral"), Vec::new());
                proof {
                    assert(rec_views(Seq::<Record>::empty()) =~= Seq::<RecordV>::empty());
                }
                r
            },
            Alignment::TypicallyChaoticGood => {
                let r = Record::Tag(String::from_str("TypicallyChaoticGood"), Vec::new());
                proof {
                    assert(rec_views(Seq::<Record>::empty()) =~= Seq::<RecordV>::empty());
                }
                r
            },
            Alignment::TypicallyLawfulEvil => {
                let r = Record::Tag(String::from_str("TypicallyLawfulEvil"), Vec::new());
                proof {
                    assert(rec_views(Seq::<Record>::empty()) =~= Seq::<RecordV>::empty());
                }
                r
            },
            Alignment::TypicallyLawfulNeutral => {
                let r = Record::Tag(String::from_str("TypicallyLawfulNeutral"), Vec::new());
                proof {
                    assert(rec_views(Seq::<Record>::empty()) =~= Seq::<RecordV>::empty());
                }
                r
            },
            Alignment::TypicallyLawfulGood => {
                let r = Record::Tag(String::from_str("TypicallyLawfulGood"), Vec::new());
                proof {
                    assert(rec_views(Seq::<Record>::empty()) =~= Seq::<RecordV>::empty());
                }
                r
            },
            Alignment::TypicallyNeutralEvil => {
                let r = Record::Tag(String::from_str("TypicallyNeutralEvil"), Vec::new());
                proof {
                    assert(rec_views(Seq::<Record>::empty()) =~= Seq::<RecordV>::empty());
                }
                r
            },
            Alignment::TypicallyTrueNeutral => {
                let r = Record::Tag(String::from_str("TypicallyTrueNeutral"), Vec::new());
                proof {
                    assert(rec_views(Seq::<Record>::empty()) =~= Seq::<RecordV>::empty());
                }
                r
            },
            Alignment::TypicallyNeutralGood => {
                let r = Record::Tag(String::from_str("TypicallyNeutralGood"), Vec::new());
                proof {
                    assert(rec_views(Seq::<Record>::empty()) =~= Seq::<RecordV>::empty());
                }
                r
            },
            Alignment::Unaligned => {
                let r = Record::Tag(String::from_str("Unaligned"), Vec::new());
                proof {
                    assert(rec_views(Seq::<Record>::empty()) =~= Seq::<RecordV>::empty());
                }
                r
            },
        }
    }

    fn from_record(r: &Record) -> (res: Result<Alignment, DecodeError>) {
        match r {
            Record::Tag(t, args) => {
                if str_eq(t.as_str(), "AnyAlignment") && args.len() == 0 {
                    Ok(Alignment::AnyAlignment)
                } else if str_eq(t.as_str(), "AnyChaotic") && args.len() == 0 {
                    Ok(Alignment::AnyChaotic)
                } else if str_eq(t.as_str(), "AnyEvil") && args.len() == 0 {
                    Ok(Alignment::AnyEvil)
                } else if str_eq(t.as_str(), "AnyGood") && args.len() == 0 {
                    Ok(Alignment::AnyGood)
                } else if str_eq(t.as_str(), "AnyLawful") && args.len() == 0 {
                    Ok(Alignment::AnyLawful)
                } else if str_eq(t.as_str(), "AnyNeutral") && args.len() == 0 {
                    Ok(Alignment::AnyNeutral)
                } else if str_eq(t.as_str(), "AnyNonChaotic") && args.len() == 0 {
                    Ok(Alignment::AnyNonChaotic)
                } else if str_eq(t.as_str(), "AnyNonEvil") && args.len() == 0 {
                    Ok(Alignment::AnyNonEvil)
                } else if str_eq(t.as_str(), "AnyNonGood") && args.len() == 0 {
                    Ok(Alignment::AnyNonGood)
                } else if str_eq(t.as_str(), "AnyNonLawful") && args.len() == 0 {
                    Ok(Alignment::AnyNonLawful)
                } else if str_eq(t.as_str(), "AnyNonNeutral") && args.len() == 0 {
                    Ok(Alignment::AnyNonNeutral)
                } else if str_eq(t.as_str(), "ChaoticEvil") && args.len() == 0 {
                    Ok(Alignment::ChaoticEvil)
                } else if str_eq(t.as_str(), "ChaoticNeutral") && args.len() == 0 {
                    Ok(Alignment::ChaoticNeutral)
                } else if str_eq(t.as_str(), "ChaoticGood") && args.len() == 0 {
                    Ok(Alignment::ChaoticGood)
                } else if str_eq(t.as_str(), "LawfulEvil") && args.len() == 0 {
                    Ok(Alignment::LawfulEvil)
                } else if str_eq(t.as_str(), "LawfulNeutral") && args.len() == 0 {
                    Ok(Alignment::LawfulNeutral)
                } else if str_eq(t.as_str(), "LawfulGood") && args.len() == 0 {
                    Ok(Alignment::LawfulGood)
                } else if str_eq(t.as_str(), "NeutralEvil") && args.len() == 0 {
                    Ok(Alignment::NeutralEvil)
                } else if str_eq(t.as_str(), "TrueNeutral") && args.len() == 0 {
                    Ok(Alignment::TrueNeutral)
                } else if str_eq(t.as_str(), "NeutralGood") && args.len() == 0 {
                    Ok(Alignment::NeutralGood)
                } else if str_eq(t.as_str(), "TypicallyChaoticEvil") && args.len() == 0 {
                    Ok(Alignment::TypicallyChaoticEvil)
                } else if str_eq(t.as_str(), "TypicallyChaoticNeutral") && args.len() == 0 {
                    Ok(Alignment::TypicallyChaoticNeutral)
                } else if str_eq(t.as_str(), "TypicallyChaoticGood") && args.len() == 0 {
                    Ok(Alignment::TypicallyChaoticGood)
                } else if str_eq(t.as_str(), "TypicallyLawfulEvil") && args.len() == 0 {
                    Ok(Alignment::TypicallyLawfulEvil)
                } else if str_eq(t.as_str(), "TypicallyLawfulNeutral") && args.len() == 0 {
                    Ok(Alignment::TypicallyLawfulNeutral)
                } else if str_eq(t.as_str(), "TypicallyLawfulGood") && args.len() == 0 {
                    Ok(Alignment::TypicallyLawfulGood)
                } else if str_eq(t.as_str(), "TypicallyNeutralEvil") && args.len() == 0 {
                    Ok(Alignment::TypicallyNeutralEvil)
                } else if str_eq(t.as_str(), "TypicallyTrueNeutral") && args.len() == 0 {
                    Ok(Alignment::TypicallyTrueNeutral)
                } else if str_eq(t.as_str(), "TypicallyNeutralGood") && args.len() == 0 {
                    Ok(Alignment::TypicallyNeutralGood)
                } else if str_eq(t.as_str(), "Unaligned") && args.len() == 0 {
                    Ok(Alignment::Unaligned)
                } else {
                    Err(DecodeError::Malformed)
                }
            },
            _ => Err(DecodeError::Malformed),
        }
    }

    proof fn lemma_round_trip(v: Alignment) {
        reveal_strlit("AnyAlignment");
        reveal_strlit("AnyChaotic");
        reveal_strlit("AnyEvil");
        reveal_strlit("AnyGood");
        reveal_strlit("AnyLawful");
        reveal_strlit("AnyNeutral");
        reveal_strlit("AnyNonChaotic");
        reveal_strlit("AnyNonEvil");
        reveal_strlit("AnyNonGood");
        reveal_strlit("AnyNonLawful");
        reveal_strlit("AnyNonNeutral");
        reveal_strlit("ChaoticEvil");
        reveal_strlit("ChaoticNeutral");
        reveal_strlit("ChaoticGood");
        reveal_strlit("LawfulEvil");
        reveal_strlit("LawfulNeutral");
        reveal_strlit("LawfulGood");
        reveal_strlit("NeutralEvil");
        reveal_strlit("TrueNeutral");
        reveal_strlit("NeutralGood");
        reveal_strlit("TypicallyChaoticEvil");
        reveal_strlit("TypicallyChaoticNeutral");
        reveal_strlit("TypicallyChaoticGood");
        reveal_strlit("TypicallyLawfulEvil");
        reveal_strlit("TypicallyLawfulNeutral");
        reveal_strlit("TypicallyLawfulGood");
        reveal_strlit("TypicallyNeutralEvil");
        reveal_strlit("TypicallyTrueNeutral");
        reveal_strlit("TypicallyNeutralGood");
        reveal_strlit("Unaligned");
        assert(("AnyChaotic"@) != ("AnyAlignment"@)) by {
            assert(("AnyChaotic"@)[3] == 'C');
            assert(("AnyAlignment"@)[3] == 'A');
        }
        assert(("AnyEvil"@) != ("AnyAlignment"@)) by {
            assert(("AnyEvil"@)[3] == 'E');
            assert(("AnyAlignment"@)[3] == 'A');
        }
        assert(("AnyEvil"@) != ("AnyChaotic"@)) by {
            assert(("AnyEvil"@)[3] == 'E');
            assert(("AnyChaotic"@)[3] == 'C');
        }
        assert(("AnyGood"@) != ("AnyAlignment"@)) by {
            assert(("AnyGood"@)[3] == 'G');
            assert(("AnyAlignment"@)[3] == 'A');
        }
        assert(("AnyGood"@) != ("AnyChaotic"@)) by {
            assert(("AnyGood"@)[3] == 'G');
            assert(("AnyChaotic"@)[3] == 'C');
        }
        assert(("AnyGood"@) != ("AnyEvil"@)) by {
            assert(("AnyGood"@)[3] == 'G');
            assert(("AnyEvil"@)[3] == 'E');
        }
        assert(("AnyLawful"@) != ("AnyAlignment"@)) by {
            assert(("AnyLawful"@)[3] == 'L');
            assert(("AnyAlignment"@)[3] == 'A');
        }
        assert(("AnyLawful"@) != ("AnyChaotic"@)) by {
            assert(("AnyLawful"@)[3] == 'L');
            assert(("AnyChaotic"@)[3] == 'C');
        }
        assert(("AnyLawful"@) != ("AnyEvil"@)) by {
            assert(("AnyLawful"@)[3] == 'L');
            assert(("AnyEvil"@)[3] == 'E');
        }
        assert(("AnyLawful"@) != ("AnyGood"@)) by {
            assert(("AnyLawful"@)[3] == 'L');
            assert(("AnyGood"@)[3] == 'G');
        }
        assert(("AnyNeutral"@) != ("AnyAlignment"@)) by {
            assert(("AnyNeutral"@)[3] == 'N');
            assert(("AnyAlignment"@)[3] == 'A');
        }
        assert(("AnyNeutral"@) != ("AnyChaotic"@)) by {
            assert(("AnyNeutral"@)[3] == 'N');
            assert(("AnyChaotic"@)[3] == 'C');
        }
        assert(("AnyNeutral"@) != ("AnyEvil"@)) by {
            assert(("AnyNeutral"@)[3] == 'N');
            assert(("AnyEvil"@)[3] == 'E');
        }
        assert(("AnyNeutral"@) != ("AnyGood"@)) by {
            assert(("AnyNeutral"@)[3] == 'N');
            assert(("AnyGood"@)[3] == 'G');
        }
        assert(("AnyNeutral"@) != ("AnyLawful"@)) by {
            assert(("AnyNeutral"@)[3] == 'N');
            assert(("AnyLawful"@)[3] == 'L');
        }
        assert(("AnyNonChaotic"@) != ("AnyAlignment"@)) by {
            assert(("AnyNonChaotic"@)[3] == 'N');
            assert(("AnyAlignment"@)[3] == 'A');
        }
        assert(("AnyNonChaotic"@) != ("AnyChaotic"@)) by {
            assert(("AnyNonChaotic"@)[3] == 'N');
            assert(("AnyChaotic"@)[3] == 'C');
        }
        assert(("AnyNonChaotic"@) != ("AnyEvil"@)) by {
            assert(("AnyNonChaotic"@)[3] == 'N');
            assert(("AnyEvil"@)[3] == 'E');
        }
        assert(("AnyNonChaotic"@) != ("AnyGood"@)) by {
            assert(("AnyNonChaotic"@)[3] == 'N');
            assert(("AnyGood"@)[3] == 'G');
        }
        assert(("AnyNonChaotic"@) != ("AnyLawful"@)) by {
            assert(("AnyNonChaotic"@)[3] == 'N');
            assert(("AnyLawful"@)[3] == 'L');
        }
        assert(("AnyNonChaotic"@) != ("AnyNeutral"@)) by {
            assert(("AnyNonChaotic"@)[4] == 'o');
            assert(("AnyNeutral"@)[4] == 'e');
        }
        assert(("AnyNonEvil"@) != ("AnyAlignment"@)) by {
            assert(("AnyNonEvil"@)[3] == 'N');
            assert(("AnyAlignment"@)[3] == 'A');
        }
        assert(("AnyNonEvil"@) != ("AnyChaotic"@)) by {
            assert(("AnyNonEvil"@)[3] == 'N');
            assert(("AnyChaotic"@)[3] == 'C');
        }
        assert(("AnyNonEvil"@) != ("AnyEvil"@)) by {
            assert(("AnyNonEvil"@)[3] == 'N');
            assert(("AnyEvil"@)[3] == 'E');
        }
        assert(("AnyNonEvil"@) != ("AnyGood"@)) by {
            assert(("AnyNonEvil"@)[3] == 'N');
            assert(("AnyGood"@)[3] == 'G');
        }
        assert(("AnyNonEvil"@) != ("AnyLawful"@)) by {
            assert(("AnyNonEvil"@)[3] == 'N');
            assert(("AnyLawful"@)[3] == 'L');
        }
        assert(("AnyNonEvil"@) != ("AnyNeutral"@)) by {
            assert(("AnyNonEvil"@)[4] == 'o');
            assert(("AnyNeutral"@)[4] == 'e');
        }
        assert(("AnyNonEvil"@) != ("AnyNonChaotic"@)) by {
            assert(("AnyNonEvil"@)[6] == 'E');
            assert(("AnyNonChaotic"@)[6] == 'C');
        }
        assert(("AnyNonGood"@) != ("AnyAlignment"@)) by {
            assert(("AnyNonGood"@)[3] == 'N');
            assert(("AnyAlignment"@)[3] == 'A');
        }
        assert(("AnyNonGood"@) != ("AnyChaotic"@)) by {
            assert(("AnyNonGood"@)[3] == 'N');
            assert(("AnyChaotic"@)[3] == 'C');
        }
        assert(("AnyNonGood"@) != ("AnyEvil"@)) by {
            assert(("AnyNonGood"@)[3] == 'N');
            assert(("AnyEvil"@)[3] == 'E');
        }
        assert(("AnyNonGood"@) != ("AnyGood"@)) by {
            assert(("AnyNonGood"@)[3] == 'N');
            assert(("AnyGood"@)[3] == 'G');
        }
        assert(("AnyNonGood"@) != ("AnyLawful"@)) by {
            assert(("AnyNonGood"@)[3] == 'N');
            assert(("AnyLawful"@)[3] == 'L');
        }
        assert(("AnyNonGood"@) != ("AnyNeutral"@)) by {
            assert(("AnyNonGood"@)[4] == 'o');
            assert(("AnyNeutral"@)[4] == 'e');
        }
        assert(("AnyNonGood"@) != ("AnyNonChaotic"@)) by {
            assert(("AnyNonGood"@)[6] == 'G');
            assert(("AnyNonChaotic"@)[6] == 'C');
        }
        assert(("AnyNonGood"@) != ("AnyNonEvil"@)) by {
            assert(("AnyNonGood"@)[6] == 'G');
            assert(("AnyNonEvil"@)[6] == 'E');
        }
        assert(("AnyNonLawful"@) != ("AnyAlignment"@)) by {
            assert(("AnyNonLawful"@)[3] == 'N');
            assert(("AnyAlignment"@)[3] == 'A');
        }
        assert(("AnyNonLawful"@) != ("AnyChaotic"@)) by {
            assert(("AnyNonLawful"@)[3] == 'N');
            assert(("AnyChaotic"@)[3] == 'C');
        }
        assert(("AnyNonLawful"@) != ("AnyEvil"@)) by {
            assert(("AnyNonLawful"@)[3] == 'N');
            assert(("AnyEvil"@)[3] == 'E');
        }
        assert(("AnyNonLawful"@) != ("AnyGood"@)) by {
            assert(("AnyNonLawful"@)[3] == 'N');
            assert(("AnyGood"@)[3] == 'G');
        }
        assert(("AnyNonLawful"@) != ("AnyLawful"@)) by {
            assert(("AnyNonLawful"@)[3] == 'N');
            assert(("AnyLawful"@)[3] == 'L');
        }
        assert(("AnyNonLawful"@) != ("AnyNeutral"@)) by {
            assert(("AnyNonLawful"@)[4] == 'o');
            assert(("AnyNeutral"@)[4] == 'e');
        }
        assert(("AnyNonLawful"@) != ("AnyNonChaotic"@)) by {
            assert(("AnyNonLawful"@)[6] == 'L');
            assert(("AnyNonChaotic"@)[6] == 'C');
        }
        assert(("AnyNonLawful"@) != ("AnyNonEvil"@)) by {
            assert(("AnyNonLawful"@)[6] == 'L');
            assert(("AnyNonEvil"@)[6] == 'E');
        }
        assert(("AnyNonLawful"@) != ("AnyNonGood"@)) by {
            assert(("AnyNonLawful"@)[6] == 'L');
            assert(("AnyNonGood"@)[6] == 'G');
        }
        assert(("AnyNonNeutral"@) != ("AnyAlignment"@)) by {
            assert(("AnyNonNeutral"@)[3] == 'N');
            assert(("AnyAlignment"@)[3] == 'A');
        }
        assert(("AnyNonNeutral"@) != ("AnyChaotic"@)) by {
            assert(("AnyNonNeutral"@)[3] == 'N');
            assert(("AnyChaotic"@)[3] == 'C');
        }
        assert(("AnyNonNeutral"@) != ("AnyEvil"@)) by {
            assert(("AnyNonNeutral"@)[3] == 'N');
            assert(("AnyEvil"@)[3] == 'E');
        }
        assert(("AnyNonNeutral"@) != ("AnyGood"@)) by {
            assert(("AnyNonNeutral"@)[3] == 'N');
            assert(("AnyGood"@)[3] == 'G');
        }
        assert(("AnyNonNeutral"@) != ("AnyLawful"@)) by {
            assert(("AnyNonNeutral"@)[3] == 'N');
            assert(("AnyLawful"@)[3] == 'L');
        }
        assert(("AnyNonNeutral"@) != ("AnyNeutral"@)) by {
            assert(("AnyNonNeutral"@)[4] == 'o');
            assert(("AnyNeutral"@)[4] == 'e');
        }
        assert(("AnyNonNeutral"@) != ("AnyNonChaotic"@)) by {
            assert(("AnyNonNeutral"@)[6] == 'N');
            assert(("AnyNonChaotic"@)[6] == 'C');
        }
        assert(("AnyNonNeutral"@) != ("AnyNonEvil"@)) by {
            assert(("AnyNonNeutral"@)[6] == 'N');
            assert(("AnyNonEvil"@)[6] == 'E');
        }
        assert(("AnyNonNeutral"@) != ("AnyNonGood"@)) by {
            assert(("AnyNonNeutral"@)[6] == 'N');
            assert(("AnyNonGood"@)[6] == 'G');
        }
        assert(("AnyNonNeutral"@) != ("AnyNonLawful"@)) by {
            assert(("AnyNonNeutral"@)[6] == 'N');
            assert(("AnyNonLawful"@)[6] == 'L');
        }
        assert(("ChaoticEvil"@) != ("AnyAlignment"@)) by {
            assert(("ChaoticEvil"@)[0] == 'C');
            assert(("AnyAlignment"@)[0] == 'A');
        }
        assert(("ChaoticEvil"@) != ("AnyChaotic"@)) by {
            assert(("ChaoticEvil"@)[0] == 'C');
            assert(("AnyChaotic"@)[0] == 'A');
        }
        assert(("ChaoticEvil"@) != ("AnyEvil"@)) by {
            assert(("ChaoticEvil"@)[0] == 'C');
            assert(("AnyEvil"@)[0] == 'A');
        }
        assert(("ChaoticEvil"@) != ("AnyGood"@)) by {
            assert(("ChaoticEvil"@)[0] == 'C');
            assert(("AnyGood"@)[0] == 'A');
        }
        assert(("ChaoticEvil"@) != ("AnyLawful"@)) by {
            assert(("ChaoticEvil"@)[0] == 'C');
            assert(("AnyLawful"@)[0] == 'A');
        }
        assert(("ChaoticEvil"@) != ("AnyNeutral"@)) by {
            assert(("ChaoticEvil"@)[0] == 'C');
            assert(("AnyNeutral"@)[0] == 'A');
        }
        assert(("ChaoticEvil"@) != ("AnyNonChaotic"@)) by {
            assert(("ChaoticEvil"@)[0] == 'C');
            assert(("AnyNonChaotic"@)[0] == 'A');
        }
        assert(("ChaoticEvil"@) != ("AnyNonEvil"@)) by {
            assert(("ChaoticEvil"@)[0] == 'C');
            assert(("AnyNonEvil"@)[0] == 'A');
        }
        assert(("ChaoticEvil"@) != ("AnyNonGood"@)) by {
            assert(("ChaoticEvil"@)[0] == 'C');
            assert(("AnyNonGood"@)[0] == 'A');
        }
        assert(("ChaoticEvil"@) != ("AnyNonLawful"@)) by {
            assert(("ChaoticEvil"@)[0] == 'C');
            assert(("AnyNonLawful"@)[0] == 'A');
        }
        assert(("ChaoticEvil"@) != ("AnyNonNeutral"@)) by {
            assert(("ChaoticEvil"@)[0] == 'C');
            assert(("AnyNonNeutral"@)[0] == 'A');
        }
        assert(("ChaoticNeutral"@) != ("AnyAlignment"@)) by {
            assert(("ChaoticNeutral"@)[0] == 'C');
            assert(("AnyAlignment"@)[0] == 'A');
        }
        assert(("ChaoticNeutral"@) != ("AnyChaotic"@)) by {
            assert(("ChaoticNeutral"@)[0] == 'C');
            assert(("AnyChaotic"@)[0] == 'A');
        }
        assert(("ChaoticNeutral"@) != ("AnyEvil"@)) by {
            assert(("ChaoticNeutral"@)[0] == 'C');
            assert(("AnyEvil"@)[0] == 'A');
        }
        assert(("ChaoticNeutral"@) != ("AnyGood"@)) by {
            assert(("ChaoticNeutral"@)[0] == 'C');
            assert(("AnyGood"@)[0] == 'A');
        }
        assert(("ChaoticNeutral"@) != ("AnyLawful"@)) by {
            assert(("ChaoticNeutral"@)[0] == 'C');
            assert(("AnyLawful"@)[0] == 'A');
        }
        assert(("ChaoticNeutral"@) != ("AnyNeutral"@)) by {
            assert(("ChaoticNeutral"@)[0] == 'C');
            assert(("AnyNeutral"@)[0] == 'A');
        }
        assert(("ChaoticNeutral"@) != ("AnyNonChaotic"@)) by {
            assert(("ChaoticNeutral"@)[0] == 'C');
            assert(("AnyNonChaotic"@)[0] == 'A');
        }
        assert(("ChaoticNeutral"@) != ("AnyNonEvil"@)) by {
            assert(("ChaoticNeutral"@)[0] == 'C');
            assert(("AnyNonEvil"@)[0] == 'A');
        }
        assert(("ChaoticNeutral"@) != ("AnyNonGood"@)) by {
            assert(("ChaoticNeutral"@)[0] == 'C');
            assert(("AnyNonGood"@)[0] == 'A');
        }
        assert(("ChaoticNeutral"@) != ("AnyNonLawful"@)) by {
            assert(("ChaoticNeutral"@)[0] == 'C');
            assert(("AnyNonLawful"@)[0] == 'A');
        }
        assert(("ChaoticNeutral"@) != ("AnyNonNeutral"@)) by {
            assert(("ChaoticNeutral"@)[0] == 'C');
            assert(("AnyNonNeutral"@)[0] == 'A');
        }
        assert(("ChaoticNeutral"@) != ("ChaoticEvil"@)) by {
            assert(("ChaoticNeutral"@)[7] == 'N');
            assert(("ChaoticEvil"@)[7] == 'E');
        }
        assert(("ChaoticGood"@) != ("AnyAlignment"@)) by {
            assert(("ChaoticGood"@)[0] == 'C');
            assert(("AnyAlignment"@)[0] == 'A');
        }
        assert(("ChaoticGood"@) != ("AnyChaotic"@)) by {
            assert(("ChaoticGood"@)[0] == 'C');
            assert(("AnyChaotic"@)[0] == 'A');
        }
        assert(("ChaoticGood"@) != ("AnyEvil"@)) by {
            assert(("ChaoticGood"@)[0] == 'C');
            assert(("AnyEvil"@)[0] == 'A');
        }
        assert(("ChaoticGood"@) != ("AnyGood"@)) by {
            assert(("ChaoticGood"@)[0] == 'C');
            assert(("AnyGood"@)[0] == 'A');
        }
        assert(("ChaoticGood"@) != ("AnyLawful"@)) by {
            assert(("ChaoticGood"@)[0] == 'C');
            assert(("AnyLawful"@)[0] == 'A');
        }
        assert(("ChaoticGood"@) != ("AnyNeutral"@)) by {
            assert(("ChaoticGood"@)[0] == 'C');
            assert(("AnyNeutral"@)[0] == 'A');
        }
        assert(("ChaoticGood"@) != ("AnyNonChaotic"@)) by {
            assert(("ChaoticGood"@)[0] == 'C');
            assert(("AnyNonChaotic"@)[0] == 'A');
        }
        assert(("ChaoticGood"@) != ("AnyNonEvil"@)) by {
            assert(("ChaoticGood"@)[0] == 'C');
            assert(("AnyNonEvil"@)[0] == 'A');
        }
        assert(("ChaoticGood"@) != ("AnyNonGood"@)) by {
            assert(("ChaoticGood"@)[0] == 'C');
            assert(("AnyNonGood"@)[0] == 'A');
        }
        assert(("ChaoticGood"@) != ("AnyNonLawful"@)) by {
            assert(("ChaoticGood"@)[0] == 'C');
            assert(("AnyNonLawful"@)[0] == 'A');
        }
        assert(("ChaoticGood"@) != ("AnyNonNeutral"@)) by {
            assert(("ChaoticGood"@)[0] == 'C');
            assert(("AnyNonNeutral"@)[0] == 'A');
        }
        assert(("ChaoticGood"@) != ("ChaoticEvil"@)) by {
            assert(("ChaoticGood"@)[7] == 'G');
            assert(("ChaoticEvil"@)[7] == 'E');
        }
        assert(("ChaoticGood"@) != ("ChaoticNeutral"@)) by {
            assert(("ChaoticGood"@)[7] == 'G');
            assert(("ChaoticNeutral"@)[7] == 'N');
        }
        assert(("LawfulEvil"@) != ("AnyAlignment"@)) by {
            assert(("LawfulEvil"@)[0] == 'L');
            assert(("AnyAlignment"@)[0] == 'A');
        }
        assert(("LawfulEvil"@) != ("AnyChaotic"@)) by {
            assert(("LawfulEvil"@)[0] == 'L');
            assert(("AnyChaotic"@)[0] == 'A');
        }
        assert(("LawfulEvil"@) != ("AnyEvil"@)) by {
            assert(("LawfulEvil"@)[0] == 'L');
            assert(("AnyEvil"@)[0] == 'A');
        }
        assert(("LawfulEvil"@) != ("AnyGood"@)) by {
            assert(("LawfulEvil"@)[0] == 'L');
            assert(("AnyGood"@)[0] == 'A');
        }
        assert(("LawfulEvil"@) != ("AnyLawful"@)) by {
            assert(("LawfulEvil"@)[0] == 'L');
            assert(("AnyLawful"@)[0] == 'A');
        }
        assert(("LawfulEvil"@) != ("AnyNeutral"@)) by {
            assert(("LawfulEvil"@)[0] == 'L');
            assert(("AnyNeutral"@)[0] == 'A');
        }
        assert(("LawfulEvil"@) != ("AnyNonChaotic"@)) by {
            assert(("LawfulEvil"@)[0] == 'L');
            assert(("AnyNonChaotic"@)[0] == 'A');
        }
        assert(("LawfulEvil"@) != ("AnyNonEvil"@)) by {
            assert(("LawfulEvil"@)[0] == 'L');
            assert(("AnyNonEvil"@)[0] == 'A');
        }
        assert(("LawfulEvil"@) != ("AnyNonGood"@)) by {
            assert(("LawfulEvil"@)[0] == 'L');
            assert(("AnyNonGood"@)[0] == 'A');
        }
        assert(("LawfulEvil"@) != ("AnyNonLawful"@)) by {
            assert(("LawfulEvil"@)[0] == 'L');
            assert(("AnyNonLawful"@)[0] == 'A');
        }
        assert(("LawfulEvil"@) != ("AnyNonNeutral"@)) by {
            assert(("LawfulEvil"@)[0] == 'L');
            assert(("AnyNonNeutral"@)[0] == 'A');
        }
        assert(("LawfulEvil"@) != ("ChaoticEvil"@)) by {
            assert(("LawfulEvil"@)[0] == 'L');
            assert(("ChaoticEvil"@)[0] == 'C');
        }
        assert(("LawfulEvil"@) != ("ChaoticNeutral"@)) by {
            assert(("LawfulEvil"@)[0] == 'L');
            assert(("ChaoticNeutral"@)[0] == 'C');
        }
        assert(("LawfulEvil"@) != ("ChaoticGood"@)) by {
            assert(("LawfulEvil"@)[0] == 'L');
            assert(("ChaoticGood"@)[0] == 'C');
        }
        assert(("LawfulNeutral"@) != ("AnyAlignment"@)) by {
            assert(("LawfulNeutral"@)[0] == 'L');
            assert(("AnyAlignment"@)[0] == 'A');
        }
        assert(("LawfulNeutral"@) != ("AnyChaotic"@)) by {
            assert(("LawfulNeutral"@)[0] == 'L');
            assert(("AnyChaotic"@)[0] == 'A');
        }
        assert(("LawfulNeutral"@) != ("AnyEvil"@)) by {
            assert(("LawfulNeutral"@)[0] == 'L');
            assert(("AnyEvil"@)[0] == 'A');
        }
        assert(("LawfulNeutral"@) != ("AnyGood"@)) by {
            assert(("LawfulNeutral"@)[0] == 'L');
            assert(("AnyGood"@)[0] == 'A');
        }
        assert(("LawfulNeutral"@) != ("AnyLawful"@)) by {
            assert(("LawfulNeutral"@)[0] == 'L');
            assert(("AnyLawful"@)[0] == 'A');
        }
        assert(("LawfulNeutral"@) != ("AnyNeutral"@)) by {
            assert(("LawfulNeutral"@)[0] == 'L');
            assert(("AnyNeutral"@)[0] == 'A');
        }
        assert(("LawfulNeutral"@) != ("AnyNonChaotic"@)) by {
            assert(("LawfulNeutral"@)[0] == 'L');
            assert(("AnyNonChaotic"@)[0] == 'A');
        }
        assert(("LawfulNeutral"@) != ("AnyNonEvil"@)) by {
            assert(("LawfulNeutral"@)[0] == 'L');
            assert(("AnyNonEvil"@)[0] == 'A');
        }
        assert(("LawfulNeutral"@) != ("AnyNonGood"@)) by {
            assert(("LawfulNeutral"@)[0] == 'L');
            assert(("AnyNonGood"@)[0] == 'A');
        }
        assert(("LawfulNeutral"@) != ("AnyNonLawful"@)) by {
            assert(("LawfulNeutral"@)[0] == 'L');
            assert(("AnyNonLawful"@)[0] == 'A');
        }
        assert(("LawfulNeutral"@) != ("AnyNonNeutral"@)) by {
            assert(("LawfulNeutral"@)[0] == 'L');
            assert(("AnyNonNeutral"@)[0] == 'A');
        }
        assert(("LawfulNeutral"@) != ("ChaoticEvil"@)) by {
            assert(("LawfulNeutral"@)[0] == 'L');
            assert(("ChaoticEvil"@)[0] == 'C');
        }
        assert(("LawfulNeutral"@) != ("ChaoticNeutral"@)) by {
            assert(("LawfulNeutral"@)[0] == 'L');
            assert(("ChaoticNeutral"@)[0] == 'C');
        }
        assert(("LawfulNeutral"@) != ("ChaoticGood"@)) by {
            assert(("LawfulNeutral"@)[0] == 'L');
            assert(("ChaoticGood"@)[0] == 'C');
        }
        assert(("LawfulNeutral"@) != ("LawfulEvil"@)) by {
            assert(("LawfulNeutral"@)[6] == 'N');
            assert(("LawfulEvil"@)[6] == 'E');
        }
        assert(("LawfulGood"@) != ("AnyAlignment"@)) by {
            assert(("LawfulGood"@)[0] == 'L');
            assert(("AnyAlignment"@)[0] == 'A');
        }
        assert(("LawfulGood"@) != ("AnyChaotic"@)) by {
            assert(("LawfulGood"@)[0] == 'L');
            assert(("AnyChaotic"@)[0] == 'A');
        }
        assert(("LawfulGood"@) != ("AnyEvil"@)) by {
            assert(("LawfulGood"@)[0] == 'L');
            assert(("AnyEvil"@)[0] == 'A');
        }
        assert(("LawfulGood"@) != ("AnyGood"@)) by {
            assert(("LawfulGood"@)[0] == 'L');
            assert(("AnyGood"@)[0] == 'A');
        }
        assert(("LawfulGood"@) != ("AnyLawful"@)) by {
            assert(("LawfulGood"@)[0] == 'L');
            assert(("AnyLawful"@)[0] == 'A');
        }
        assert(("LawfulGood"@) != ("AnyNeutral"@)) by {
            assert(("LawfulGood"@)[0] == 'L');
            assert(("AnyNeutral"@)[0] == 'A');
        }
        assert(("LawfulGood"@) != ("AnyNonChaotic"@)) by {
            assert(("LawfulGood"@)[0] == 'L');
            assert(("AnyNonChaotic"@)[0] == 'A');
        }
        assert(("LawfulGood"@) != ("AnyNonEvil"@)) by {
            assert(("LawfulGood"@)[0] == 'L');
            assert(("AnyNonEvil"@)[0] == 'A');
        }
        assert(("LawfulGood"@) != ("AnyNonGood"@)) by {
            assert(("LawfulGood"@)[0] == 'L');
            assert(("AnyNonGood"@)[0] == 'A');
        }
        assert(("LawfulGood"@) != ("AnyNonLawful"@)) by {
            assert(("LawfulGood"@)[0] == 'L');
            assert(("AnyNonLawful"@)[0] == 'A');
        }
        assert(("LawfulGood"@) != ("AnyNonNeutral"@)) by {
            assert(("LawfulGood"@)[0] == 'L');
            assert(("AnyNonNeutral"@)[0] == 'A');
        }
        assert(("LawfulGood"@) != ("ChaoticEvil"@)) by {
            assert(("LawfulGood"@)[0] == 'L');
            assert(("ChaoticEvil"@)[0] == 'C');
        }
        assert(("LawfulGood"@) != ("ChaoticNeutral"@)) by {
            assert(("LawfulGood"@)[0] == 'L');
            assert(("ChaoticNeutral"@)[0] == 'C');
        }
        assert(("LawfulGood"@) != ("ChaoticGood"@)) by {
            assert(("LawfulGood"@)[0] == 'L');
            assert(("ChaoticGood"@)[0] == 'C');
        }
        assert(("LawfulGood"@) != ("LawfulEvil"@)) by {
            assert(("LawfulGood"@)[6] == 'G');
            assert(("LawfulEvil"@)[6] == 'E');
        }
        assert(("LawfulGood"@) != ("LawfulNeutral"@)) by {
            assert(("LawfulGood"@)[6] == 'G');
            assert(("LawfulNeutral"@)[6] == 'N');
        }
        assert(("NeutralEvil"@) != ("AnyAlignment"@)) by {
            assert(("NeutralEvil"@)[0] == 'N');
            assert(("AnyAlignment"@)[0] == 'A');
        }
        assert(("NeutralEvil"@) != ("AnyChaotic"@)) by {
            assert(("NeutralEvil"@)[0] == 'N');
            assert(("AnyChaotic"@)[0] == 'A');
        }
        assert(("NeutralEvil"@) != ("AnyEvil"@)) by {
            assert(("NeutralEvil"@)[0] == 'N');
            assert(("AnyEvil"@)[0] == 'A');
        }
        assert(("NeutralEvil"@) != ("AnyGood"@)) by {
            assert(("NeutralEvil"@)[0] == 'N');
            assert(("AnyGood"@)[0] == 'A');
        }
        assert(("NeutralEvil"@) != ("AnyLawful"@)) by {
            assert(("NeutralEvil"@)[0] == 'N');
            assert(("AnyLawful"@)[0] == 'A');
        }
        assert(("NeutralEvil"@) != ("AnyNeutral"@)) by {
            assert(("NeutralEvil"@)[0] == 'N');
            assert(("AnyNeutral"@)[0] == 'A');
        }
        assert(("NeutralEvil"@) != ("AnyNonChaotic"@)) by {
            assert(("NeutralEvil"@)[0] == 'N');
            assert(("AnyNonChaotic"@)[0] == 'A');
        }
        assert(("NeutralEvil"@) != ("AnyNonEvil"@)) by {
            assert(("NeutralEvil"@)[0] == 'N');
            assert(("AnyNonEvil"@)[0] == 'A');
        }
        assert(("NeutralEvil"@) != ("AnyNonGood"@)) by {
            assert(("NeutralEvil"@)[0] == 'N');
            assert(("AnyNonGood"@)[0] == 'A');
        }
        assert(("NeutralEvil"@) != ("AnyNonLawful"@)) by {
            assert(("NeutralEvil"@)[0] == 'N');
            assert(("AnyNonLawful"@)[0] == 'A');
        }
        assert(("NeutralEvil"@) != ("AnyNonNeutral"@)) by {
            assert(("NeutralEvil"@)[0] == 'N');
            assert(("AnyNonNeutral"@)[0] == 'A');
        }
        assert(("NeutralEvil"@) != ("ChaoticEvil"@)) by {
            assert(("NeutralEvil"@)[0] == 'N');
            assert(("ChaoticEvil"@)[0] == 'C');
        }
        assert(("NeutralEvil"@) != ("ChaoticNeutral"@)) by {
            assert(("NeutralEvil"@)[0] == 'N');
            assert(("ChaoticNeutral"@)[0] == 'C');
        }
        assert(("NeutralEvil"@) != ("ChaoticGood"@)) by {
            assert(("NeutralEvil"@)[0] == 'N');
            assert(("ChaoticGood"@)[0] == 'C');
        }
        assert(("NeutralEvil"@) != ("LawfulEvil"@)) by {
            assert(("NeutralEvil"@)[0] == 'N');
            assert(("LawfulEvil"@)[0] == 'L');
        }
        assert(("NeutralEvil"@) != ("LawfulNeutral"@)) by {
            assert(("NeutralEvil"@)[0] == 'N');
            assert(("LawfulNeutral"@)[0] == 'L');
        }
        assert(("NeutralEvil"@) != ("LawfulGood"@)) by {
            assert(("NeutralEvil"@)[0] == 'N');
            assert(("LawfulGood"@)[0] == 'L');
        }
        assert(("TrueNeutral"@) != ("AnyAlignment"@)) by {
            assert(("TrueNeutral"@)[0] == 'T');
            assert(("AnyAlignment"@)[0] == 'A');
        }
        assert(("TrueNeutral"@) != ("AnyChaotic"@)) by {
            assert(("TrueNeutral"@)[0] == 'T');
            assert(("AnyChaotic"@)[0] == 'A');
        }
        assert(("TrueNeutral"@) != ("AnyEvil"@)) by {
            assert(("TrueNeutral"@)[0] == 'T');
            assert(("AnyEvil"@)[0] == 'A');
        }
        assert(("TrueNeutral"@) != ("AnyGood"@)) by {
            assert(("TrueNeutral"@)[0] == 'T');
            assert(("AnyGood"@)[0] == 'A');
        }
        assert(("TrueNeutral"@) != ("AnyLawful"@)) by {
            assert(("TrueNeutral"@)[0] == 'T');
            assert(("AnyLawful"@)[0] == 'A');
        }
        assert(("TrueNeutral"@) != ("AnyNeutral"@)) by {
            assert(("TrueNeutral"@)[0] == 'T');
            assert(("AnyNeutral"@)[0] == 'A');
        }
        assert(("TrueNeutral"@) != ("AnyNonChaotic"@)) by {
            assert(("TrueNeutral"@)[0] == 'T');
            assert(("AnyNonChaotic"@)[0] == 'A');
        }
        assert(("TrueNeutral"@) != ("AnyNonEvil"@)) by {
            assert(("TrueNeutral"@)[0] == 'T');
            assert(("AnyNonEvil"@)[0] == 'A');
        }
        assert(("TrueNeutral"@) != ("AnyNonGood"@)) by {
            assert(("TrueNeutral"@)[0] == 'T');
            assert(("AnyNonGood"@)[0] == 'A');
        }
        assert(("TrueNeutral"@) != ("AnyNonLawful"@)) by {
            assert(("TrueNeutral"@)[0] == 'T');
            assert(("AnyNonLawful"@)[0] == 'A');
        }
        assert(("TrueNeutral"@) != ("AnyNonNeutral"@)) by {
            assert(("TrueNeutral"@)[0] == 'T');
            assert(("AnyNonNeutral"@)[0] == 'A');
        }
        assert(("TrueNeutral"@) != ("ChaoticEvil"@)) by {
            assert(("TrueNeutral"@)[0] == 'T');
            assert(("ChaoticEvil"@)[0] == 'C');
        }
        assert(("TrueNeutral"@) != ("ChaoticNeutral"@)) by {
            assert(("TrueNeutral"@)[0] == 'T');
            assert(("ChaoticNeutral"@)[0] == 'C');
        }
        assert(("TrueNeutral"@) != ("ChaoticGood"@)) by {
            assert(("TrueNeutral"@)[0] == 'T');
            assert(("ChaoticGood"@)[0] == 'C');
        }
        assert(("TrueNeutral"@) != ("LawfulEvil"@)) by {
            assert(("TrueNeutral"@)[0] == 'T');
            assert(("LawfulEvil"@)[0] == 'L');
        }
        assert(("TrueNeutral"@) != ("LawfulNeutral"@)) by {
            assert(("TrueNeutral"@)[0] == 'T');
            assert(("LawfulNeutral"@)[0] == 'L');
        }
        assert(("TrueNeutral"@) != ("LawfulGood"@)) by {
            assert(("TrueNeutral"@)[0] == 'T');
            assert(("LawfulGood"@)[0] == 'L');
        }
        assert(("TrueNeutral"@) != ("NeutralEvil"@)) by {
            assert(("TrueNeutral"@)[0] == 'T');
            assert(("NeutralEvil"@)[0] == 'N');
        }
        assert(("NeutralGood"@) != ("AnyAlignment"@)) by {
            assert(("NeutralGood"@)[0] == 'N');
            assert(("AnyAlignment"@)[0] == 'A');
        }
        assert(("NeutralGood"@) != ("AnyChaotic"@)) by {
            assert(("NeutralGood"@)[0] == 'N');
            assert(("AnyChaotic"@)[0] == 'A');
        }
        assert(("NeutralGood"@) != ("AnyEvil"@)) by {
            assert(("NeutralGood"@)[0] == 'N');
            assert(("AnyEvil"@)[0] == 'A');
        }
        assert(("NeutralGood"@) != ("AnyGood"@)) by {
            assert(("NeutralGood"@)[0] == 'N');
            assert(("AnyGood"@)[0] == 'A');
        }
        assert(("NeutralGood"@) != ("AnyLawful"@)) by {
            assert(("NeutralGood"@)[0] == 'N');
            assert(("AnyLawful"@)[0] == 'A');
        }
        assert(("NeutralGood"@) != ("AnyNeutral"@)) by {
            assert(("NeutralGood"@)[0] == 'N');
            assert(("AnyNeutral"@)[0] == 'A');
        }
        assert(("NeutralGood"@) != ("AnyNonChaotic"@)) by {
            assert(("NeutralGood"@)[0] == 'N');
            assert(("AnyNonChaotic"@)[0] == 'A');
        }
        assert(("NeutralGood"@) != ("AnyNonEvil"@)) by {
            assert(("NeutralGood"@)[0] == 'N');
            assert(("AnyNonEvil"@)[0] == 'A');
        }
        assert(("NeutralGood"@) != ("AnyNonGood"@)) by {
            assert(("NeutralGood"@)[0] == 'N');
            assert(("AnyNonGood"@)[0] == 'A');
        }
        assert(("NeutralGood"@) != ("AnyNonLawful"@)) by {
            assert(("NeutralGood"@)[0] == 'N');
            assert(("AnyNonLawful"@)[0] == 'A');
        }
        assert(("NeutralGood"@) != ("AnyNonNeutral"@)) by {
            assert(("NeutralGood"@)[0] == 'N');
            assert(("AnyNonNeutral"@)[0] == 'A');
        }
        assert(("NeutralGood"@) != ("ChaoticEvil"@)) by {
            assert(("NeutralGood"@)[0] == 'N');
            assert(("ChaoticEvil"@)[0] == 'C');
        }
        assert(("NeutralGood"@) != ("ChaoticNeutral"@)) by {
            assert(("NeutralGood"@)[0] == 'N');
            assert(("ChaoticNeutral"@)[0] == 'C');
        }
        assert(("NeutralGood"@) != ("ChaoticGood"@)) by {
            assert(("NeutralGood"@)[0] == 'N');
            assert(("ChaoticGood"@)[0] == 'C');
        }
        assert(("NeutralGood"@) != ("LawfulEvil"@)) by {
            assert(("NeutralGood"@)[0] == 'N');
            assert(("LawfulEvil"@)[0] == 'L');
        }
        assert(("NeutralGood"@) != ("LawfulNeutral"@)) by {
            assert(("NeutralGood"@)[0] == 'N');
            assert(("LawfulNeutral"@)[0] == 'L');
        }
        assert(("NeutralGood"@) != ("LawfulGood"@)) by {
            assert(("NeutralGood"@)[0] == 'N');
            assert(("LawfulGood"@)[0] == 'L');
        }
        assert(("NeutralGood"@) != ("NeutralEvil"@)) by {
            assert(("NeutralGood"@)[7] == 'G');
            assert(("NeutralEvil"@)[7] == 'E');
        }
        assert(("NeutralGood"@) != ("TrueNeutral"@)) by {
            assert(("NeutralGood"@)[0] == 'N');
            assert(("TrueNeutral"@)[0] == 'T');
        }
        assert(("TypicallyChaoticEvil"@) != ("AnyAlignment"@)) by {
            assert(("TypicallyChaoticEvil"@)[0] == 'T');
            assert(("AnyAlignment"@)[0] == 'A');
        }
        assert(("TypicallyChaoticEvil"@) != ("AnyChaotic"@)) by {
            assert(("TypicallyChaoticEvil"@)[0] == 'T');
            assert(("AnyChaotic"@)[0] == 'A');
        }
        assert(("TypicallyChaoticEvil"@) != ("AnyEvil"@)) by {
            assert(("TypicallyChaoticEvil"@)[0] == 'T');
            assert(("AnyEvil"@)[0] == 'A');
        }
        assert(("TypicallyChaoticEvil"@) != ("AnyGood"@)) by {
            assert(("TypicallyChaoticEvil"@)[0] == 'T');
            assert(("AnyGood"@)[0] == 'A');
        }
        assert(("TypicallyChaoticEvil"@) != ("AnyLawful"@)) by {
            assert(("TypicallyChaoticEvil"@)[0] == 'T');
            assert(("AnyLawful"@)[0] == 'A');
        }
        assert(("TypicallyChaoticEvil"@) != ("AnyNeutral"@)) by {
            assert(("TypicallyChaoticEvil"@)[0] == 'T');
            assert(("AnyNeutral"@)[0] == 'A');
        }
        assert(("TypicallyChaoticEvil"@) != ("AnyNonChaotic"@)) by {
            assert(("TypicallyChaoticEvil"@)[0] == 'T');
            assert(("AnyNonChaotic"@)[0] == 'A');
        }
        assert(("TypicallyChaoticEvil"@) != ("AnyNonEvil"@)) by {
            assert(("TypicallyChaoticEvil"@)[0] == 'T');
            assert(("AnyNonEvil"@)[0] == 'A');
        }
        assert(("TypicallyChaoticEvil"@) != ("AnyNonGood"@)) by {
            assert(("TypicallyChaoticEvil"@)[0] == 'T');
            assert(("AnyNonGood"@)[0] == 'A');
        }
        assert(("TypicallyChaoticEvil"@) != ("AnyNonLawful"@)) by {
            assert(("TypicallyChaoticEvil"@)[0] == 'T');
            assert(("AnyNonLawful"@)[0] == 'A');
        }
        assert(("TypicallyChaoticEvil"@) != ("AnyNonNeutral"@)) by {
            assert(("TypicallyChaoticEvil"@)[0] == 'T');
            assert(("AnyNonNeutral"@)[0] == 'A');
        }
        assert(("TypicallyChaoticEvil"@) != ("ChaoticEvil"@)) by {
            assert(("TypicallyChaoticEvil"@)[0] == 'T');
            assert(("ChaoticEvil"@)[0] == 'C');
        }
        assert(("TypicallyChaoticEvil"@) != ("ChaoticNeutral"@)) by {
            assert(("TypicallyChaoticEvil"@)[0] == 'T');
            assert(("ChaoticNeutral"@)[0] == 'C');
        }
        assert(("TypicallyChaoticEvil"@) != ("ChaoticGood"@)) by {
            assert(("TypicallyChaoticEvil"@)[0] == 'T');
            assert(("ChaoticGood"@)[0] == 'C');
        }
        assert(("TypicallyChaoticEvil"@) != ("LawfulEvil"@)) by {
            assert(("TypicallyChaoticEvil"@)[0] == 'T');
            assert(("LawfulEvil"@)[0] == 'L');
        }
        assert(("TypicallyChaoticEvil"@) != ("LawfulNeutral"@)) by {
            assert(("TypicallyChaoticEvil"@)[0] == 'T');
            assert(("LawfulNeutral"@)[0] == 'L');
        }
        assert(("TypicallyChaoticEvil"@) != ("LawfulGood"@)) by {
            assert(("TypicallyChaoticEvil"@)[0] == 'T');
            assert(("LawfulGood"@)[0] == 'L');
        }
        assert(("TypicallyChaoticEvil"@) != ("NeutralEvil"@)) by {
            assert(("TypicallyChaoticEvil"@)[0] == 'T');
            assert(("NeutralEvil"@)[0] == 'N');
        }
        assert(("TypicallyChaoticEvil"@) != ("TrueNeutral"@)) by {
            assert(("TypicallyChaoticEvil"@)[1] == 'y');
            assert(("TrueNeutral"@)[1] == 'r');
        }
        assert(("TypicallyChaoticEvil"@) != ("NeutralGood"@)) by {
            assert(("TypicallyChaoticEvil"@)[0] == 'T');
            assert(("NeutralGood"@)[0] == 'N');
        }
        assert(("TypicallyChaoticNeutral"@) != ("AnyAlignment"@)) by {
            assert(("TypicallyChaoticNeutral"@)[0] == 'T');
            assert(("AnyAlignment"@)[0] == 'A');
        }
        assert(("TypicallyChaoticNeutral"@) != ("AnyChaotic"@)) by {
            assert(("TypicallyChaoticNeutral"@)[0] == 'T');
            assert(("AnyChaotic"@)[0] == 'A');
        }
        assert(("TypicallyChaoticNeutral"@) != ("AnyEvil"@)) by {
            assert(("TypicallyChaoticNeutral"@)[0] == 'T');
            assert(("AnyEvil"@)[0] == 'A');
        }
        assert(("TypicallyChaoticNeutral"@) != ("AnyGood"@)) by {
            assert(("TypicallyChaoticNeutral"@)[0] == 'T');
            assert(("AnyGood"@)[0] == 'A');
        }
        assert(("TypicallyChaoticNeutral"@) != ("AnyLawful"@)) by {
            assert(("TypicallyChaoticNeutral"@)[0] == 'T');
            assert(("AnyLawful"@)[0] == 'A');
        }
        assert(("TypicallyChaoticNeutral"@) != ("AnyNeutral"@)) by {
            assert(("TypicallyChaoticNeutral"@)[0] == 'T');
            assert(("AnyNeutral"@)[0] == 'A');
        }
        assert(("TypicallyChaoticNeutral"@) != ("AnyNonChaotic"@)) by {
            assert(("TypicallyChaoticNeutral"@)[0] == 'T');
            assert(("AnyNonChaotic"@)[0] == 'A');
        }
        assert(("TypicallyChaoticNeutral"@) != ("AnyNonEvil"@)) by {
            assert(("TypicallyChaoticNeutral"@)[0] == 'T');
            assert(("AnyNonEvil"@)[0] == 'A');
        }
        assert(("TypicallyChaoticNeutral"@) != ("AnyNonGood"@)) by {
            assert(("TypicallyChaoticNeutral"@)[0] == 'T');
            assert(("AnyNonGood"@)[0] == 'A');
        }
        assert(("TypicallyChaoticNeutral"@) != ("AnyNonLawful"@)) by {
            assert(("TypicallyChaoticNeutral"@)[0] == 'T');
            assert(("AnyNonLawful"@)[0] == 'A');
        }
        assert(("TypicallyChaoticNeutral"@) != ("AnyNonNeutral"@)) by {
            assert(("TypicallyChaoticNeutral"@)[0] == 'T');
            assert(("AnyNonNeutral"@)[0] == 'A');
        }
        assert(("TypicallyChaoticNeutral"@) != ("ChaoticEvil"@)) by {
            assert(("TypicallyChaoticNeutral"@)[0] == 'T');
            assert(("ChaoticEvil"@)[0] == 'C');
        }
        assert(("TypicallyChaoticNeutral"@) != ("ChaoticNeutral"@)) by {
            assert(("TypicallyChaoticNeutral"@)[0] == 'T');
            assert(("ChaoticNeutral"@)[0] == 'C');
        }
        assert(("TypicallyChaoticNeutral"@) != ("ChaoticGood"@)) by {
            assert(("TypicallyChaoticNeutral"@)[0] == 'T');
            assert(("ChaoticGood"@)[0] == 'C');
        }
        assert(("TypicallyChaoticNeutral"@) != ("LawfulEvil"@)) by {
            assert(("TypicallyChaoticNeutral"@)[0] == 'T');
            assert(("LawfulEvil"@)[0] == 'L');
        }
        assert(("TypicallyChaoticNeutral"@) != ("LawfulNeutral"@)) by {
            assert(("TypicallyChaoticNeutral"@)[0] == 'T');
            assert(("LawfulNeutral"@)[0] == 'L');
        }
        assert(("TypicallyChaoticNeutral"@) != ("LawfulGood"@)) by {
            assert(("TypicallyChaoticNeutral"@)[0] == 'T');
            assert(("LawfulGood"@)[0] == 'L');
        }
        assert(("TypicallyChaoticNeutral"@) != ("NeutralEvil"@)) by {
            assert(("TypicallyChaoticNeutral"@)[0] == 'T');
            assert(("NeutralEvil"@)[0] == 'N');
        }
        assert(("TypicallyChaoticNeutral"@) != ("TrueNeutral"@)) by {
            assert(("TypicallyChaoticNeutral"@)[1] == 'y');
            assert(("TrueNeutral"@)[1] == 'r');
        }
        assert(("TypicallyChaoticNeutral"@) != ("NeutralGood"@)) by {
            assert(("TypicallyChaoticNeutral"@)[0] == 'T');
            assert(("NeutralGood"@)[0] == 'N');
        }
        assert(("TypicallyChaoticNeutral"@) != ("TypicallyChaoticEvil"@)) by {
            assert(("TypicallyChaoticNeutral"@)[16] == 'N');
            assert(("TypicallyChaoticEvil"@)[16] == 'E');
        }
        assert(("TypicallyChaoticGood"@) != ("AnyAlignment"@)) by {
            assert(("TypicallyChaoticGood"@)[0] == 'T');
            assert(("AnyAlignment"@)[0] == 'A');
        }
        assert(("TypicallyChaoticGood"@) != ("AnyChaotic"@)) by {
            assert(("TypicallyChaoticGood"@)[0] == 'T');
            assert(("AnyChaotic"@)[0] == 'A');
        }
        assert(("TypicallyChaoticGood"@) != ("AnyEvil"@)) by {
            assert(("TypicallyChaoticGood"@)[0] == 'T');
            assert(("AnyEvil"@)[0] == 'A');
        }
        assert(("TypicallyChaoticGood"@) != ("AnyGood"@)) by {
            assert(("TypicallyChaoticGood"@)[0] == 'T');
            assert(("AnyGood"@)[0] == 'A');
        }
        assert(("TypicallyChaoticGood"@) != ("AnyLawful"@)) by {
            assert(("TypicallyChaoticGood"@)[0] == 'T');
            assert(("AnyLawful"@)[0] == 'A');
        }
        assert(("TypicallyChaoticGood"@) != ("AnyNeutral"@)) by {
            assert(("TypicallyChaoticGood"@)[0] == 'T');
            assert(("AnyNeutral"@)[0] == 'A');
        }
        assert(("TypicallyChaoticGood"@) != ("AnyNonChaotic"@)) by {
            assert(("TypicallyChaoticGood"@)[0] == 'T');
            assert(("AnyNonChaotic"@)[0] == 'A');
        }
        assert(("TypicallyChaoticGood"@) != ("AnyNonEvil"@)) by {
            assert(("TypicallyChaoticGood"@)[0] == 'T');
            assert(("AnyNonEvil"@)[0] == 'A');
        }
        assert(("TypicallyChaoticGood"@) != ("AnyNonGood"@)) by {
            assert(("TypicallyChaoticGood"@)[0] == 'T');
            assert(("AnyNonGood"@)[0] == 'A');
        }
        assert(("TypicallyChaoticGood"@) != ("AnyNonLawful"@)) by {
            assert(("TypicallyChaoticGood"@)[0] == 'T');
            assert(("AnyNonLawful"@)[0] == 'A');
        }
        assert(("TypicallyChaoticGood"@) != ("AnyNonNeutral"@)) by {
            assert(("TypicallyChaoticGood"@)[0] == 'T');
            assert(("AnyNonNeutral"@)[0] == 'A');
        }
        assert(("TypicallyChaoticGood"@) != ("ChaoticEvil"@)) by {
            assert(("TypicallyChaoticGood"@)[0] == 'T');
            assert(("ChaoticEvil"@)[0] == 'C');
        }
        assert(("TypicallyChaoticGood"@) != ("ChaoticNeutral"@)) by {
            assert(("TypicallyChaoticGood"@)[0] == 'T');
            assert(("ChaoticNeutral"@)[0] == 'C');
        }
        assert(("TypicallyChaoticGood"@) != ("ChaoticGood"@)) by {
            assert(("TypicallyChaoticGood"@)[0] == 'T');
            assert(("ChaoticGood"@)[0] == 'C');
        }
        assert(("TypicallyChaoticGood"@) != ("LawfulEvil"@)) by {
            assert(("TypicallyChaoticGood"@)[0] == 'T');
            assert(("LawfulEvil"@)[0] == 'L');
        }
        assert(("TypicallyChaoticGood"@) != ("LawfulNeutral"@)) by {
            assert(("TypicallyChaoticGood"@)[0] == 'T');
            assert(("LawfulNeutral"@)[0] == 'L');
        }
        assert(("TypicallyChaoticGood"@) != ("LawfulGood"@)) by {
            assert(("TypicallyChaoticGood"@)[0] == 'T');
            assert(("LawfulGood"@)[0] == 'L');
        }
        assert(("TypicallyChaoticGood"@) != ("NeutralEvil"@)) by {
            assert(("TypicallyChaoticGood"@)[0] == 'T');
            assert(("NeutralEvil"@)[0] == 'N');
        }
        assert(("TypicallyChaoticGood"@) != ("TrueNeutral"@)) by {
            assert(("TypicallyChaoticGood"@)[1] == 'y');
            assert(("TrueNeutral"@)[1] == 'r');
        }
        assert(("TypicallyChaoticGood"@) != ("NeutralGood"@)) by {
            assert(("TypicallyChaoticGood"@)[0] == 'T');
            assert(("NeutralGood"@)[0] == 'N');
        }
        assert(("TypicallyChaoticGood"@) != ("TypicallyChaoticEvil"@)) by {
            assert(("TypicallyChaoticGood"@)[16] == 'G');
            assert(("TypicallyChaoticEvil"@)[16] == 'E');
        }
        assert(("TypicallyChaoticGood"@) != ("TypicallyChaoticNeutral"@)) by {
            assert(("TypicallyChaoticGood"@)[16] == 'G');
            assert(("TypicallyChaoticNeutral"@)[16] == 'N');
        }
        assert(("TypicallyLawfulEvil"@) != ("AnyAlignment"@)) by {
            assert(("TypicallyLawfulEvil"@)[0] == 'T');
            assert(("AnyAlignment"@)[0] == 'A');
        }
        assert(("TypicallyLawfulEvil"@) != ("AnyChaotic"@)) by {
            assert(("TypicallyLawfulEvil"@)[0] == 'T');
            assert(("AnyChaotic"@)[0] == 'A');
        }
        assert(("TypicallyLawfulEvil"@) != ("AnyEvil"@)) by {
            assert(("TypicallyLawfulEvil"@)[0] == 'T');
            assert(("AnyEvil"@)[0] == 'A');
        }
        assert(("TypicallyLawfulEvil"@) != ("AnyGood"@)) by {
            assert(("TypicallyLawfulEvil"@)[0] == 'T');
            assert(("AnyGood"@)[0] == 'A');
        }
        assert(("TypicallyLawfulEvil"@) != ("AnyLawful"@)) by {
            assert(("TypicallyLawfulEvil"@)[0] == 'T');
            assert(("AnyLawful"@)[0] == 'A');
        }
        assert(("TypicallyLawfulEvil"@) != ("AnyNeutral"@)) by {
            assert(("TypicallyLawfulEvil"@)[0] == 'T');
            assert(("AnyNeutral"@)[0] == 'A');
        }
        assert(("TypicallyLawfulEvil"@) != ("AnyNonChaotic"@)) by {
            assert(("TypicallyLawfulEvil"@)[0] == 'T');
            assert(("AnyNonChaotic"@)[0] == 'A');
        }
        assert(("TypicallyLawfulEvil"@) != ("AnyNonEvil"@)) by {
            assert(("TypicallyLawfulEvil"@)[0] == 'T');
            assert(("AnyNonEvil"@)[0] == 'A');
        }
        assert(("TypicallyLawfulEvil"@) != ("AnyNonGood"@)) by {
            assert(("TypicallyLawfulEvil"@)[0] == 'T');
            assert(("AnyNonGood"@)[0] == 'A');
        }
        assert(("TypicallyLawfulEvil"@) != ("AnyNonLawful"@)) by {
            assert(("TypicallyLawfulEvil"@)[0] == 'T');
            assert(("AnyNonLawful"@)[0] == 'A');
        }
        assert(("TypicallyLawfulEvil"@) != ("AnyNonNeutral"@)) by {
            assert(("TypicallyLawfulEvil"@)[0] == 'T');
            assert(("AnyNonNeutral"@)[0] == 'A');
        }
        assert(("TypicallyLawfulEvil"@) != ("ChaoticEvil"@)) by {
            assert(("TypicallyLawfulEvil"@)[0] == 'T');
            assert(("ChaoticEvil"@)[0] == 'C');
        }
        assert(("TypicallyLawfulEvil"@) != ("ChaoticNeutral"@)) by {
            assert(("TypicallyLawfulEvil"@)[0] == 'T');
            assert(("ChaoticNeutral"@)[0] == 'C');
        }
        assert(("TypicallyLawfulEvil"@) != ("ChaoticGood"@)) by {
            assert(("TypicallyLawfulEvil"@)[0] == 'T');
            assert(("ChaoticGood"@)[0] == 'C');
        }
        assert(("TypicallyLawfulEvil"@) != ("LawfulEvil"@)) by {
            assert(("TypicallyLawfulEvil"@)[0] == 'T');
            assert(("LawfulEvil"@)[0] == 'L');
        }
        assert(("TypicallyLawfulEvil"@) != ("LawfulNeutral"@)) by {
            assert(("TypicallyLawfulEvil"@)[0] == 'T');
            assert(("LawfulNeutral"@)[0] == 'L');
        }
        assert(("TypicallyLawfulEvil"@) != ("LawfulGood"@)) by {
            assert(("TypicallyLawfulEvil"@)[0] == 'T');
            assert(("LawfulGood"@)[0] == 'L');
        }
        assert(("TypicallyLawfulEvil"@) != ("NeutralEvil"@)) by {
            assert(("TypicallyLawfulEvil"@)[0] == 'T');
            assert(("NeutralEvil"@)[0] == 'N');
        }
        assert(("TypicallyLawfulEvil"@) != ("TrueNeutral"@)) by {
            assert(("TypicallyLawfulEvil"@)[1] == 'y');
            assert(("TrueNeutral"@)[1] == 'r');
        }
        assert(("TypicallyLawfulEvil"@) != ("NeutralGood"@)) by {
            assert(("TypicallyLawfulEvil"@)[0] == 'T');
            assert(("NeutralGood"@)[0] == 'N');
        }
        assert(("TypicallyLawfulEvil"@) != ("TypicallyChaoticEvil"@)) by {
            assert(("TypicallyLawfulEvil"@)[9] == 'L');
            assert(("TypicallyChaoticEvil"@)[9] == 'C');
        }
        assert(("TypicallyLawfulEvil"@) != ("TypicallyChaoticNeutral"@)) by {
            assert(("TypicallyLawfulEvil"@)[9] == 'L');
            assert(("TypicallyChaoticNeutral"@)[9] == 'C');
        }
        assert(("TypicallyLawfulEvil"@) != ("TypicallyChaoticGood"@)) by {
            assert(("TypicallyLawfulEvil"@)[9] == 'L');
            assert(("TypicallyChaoticGood"@)[9] == 'C');
        }
        assert(("TypicallyLawfulNeutral"@) != ("AnyAlignment"@)) by {
            assert(("TypicallyLawfulNeutral"@)[0] == 'T');
            assert(("AnyAlignment"@)[0] == 'A');
        }
        assert(("TypicallyLawfulNeutral"@) != ("AnyChaotic"@)) by {
            assert(("TypicallyLawfulNeutral"@)[0] == 'T');
            assert(("AnyChaotic"@)[0] == 'A');
        }
        assert(("TypicallyLawfulNeutral"@) != ("AnyEvil"@)) by {
            assert(("TypicallyLawfulNeutral"@)[0] == 'T');
            assert(("AnyEvil"@)[0] == 'A');
        }
        assert(("TypicallyLawfulNeutral"@) != ("AnyGood"@)) by {
            assert(("TypicallyLawfulNeutral"@)[0] == 'T');
            assert(("AnyGood"@)[0] == 'A');
        }
        assert(("TypicallyLawfulNeutral"@) != ("AnyLawful"@)) by {
            assert(("TypicallyLawfulNeutral"@)[0] == 'T');
            assert(("AnyLawful"@)[0] == 'A');
        }
        assert(("TypicallyLawfulNeutral"@) != ("AnyNeutral"@)) by {
            assert(("TypicallyLawfulNeutral"@)[0] == 'T');
            assert(("AnyNeutral"@)[0] == 'A');
        }
        assert(("TypicallyLawfulNeutral"@) != ("AnyNonChaotic"@)) by {
            assert(("TypicallyLawfulNeutral"@)[0] == 'T');
            assert(("AnyNonChaotic"@)[0] == 'A');
        }
        assert(("TypicallyLawfulNeutral"@) != ("AnyNonEvil"@)) by {
            assert(("TypicallyLawfulNeutral"@)[0] == 'T');
            assert(("AnyNonEvil"@)[0] == 'A');
        }
        assert(("TypicallyLawfulNeutral"@) != ("AnyNonGood"@)) by {
            assert(("TypicallyLawfulNeutral"@)[0] == 'T');
            assert(("AnyNonGood"@)[0] == 'A');
        }
        assert(("TypicallyLawfulNeutral"@) != ("AnyNonLawful"@)) by {
            assert(("TypicallyLawfulNeutral"@)[0] == 'T');
            assert(("AnyNonLawful"@)[0] == 'A');
        }
        assert(("TypicallyLawfulNeutral"@) != ("AnyNonNeutral"@)) by {
            assert(("TypicallyLawfulNeutral"@)[0] == 'T');
            assert(("AnyNonNeutral"@)[0] == 'A');
        }
        assert(("TypicallyLawfulNeutral"@) != ("ChaoticEvil"@)) by {
            assert(("TypicallyLawfulNeutral"@)[0] == 'T');
            assert(("ChaoticEvil"@)[0] == 'C');
        }
        assert(("TypicallyLawfulNeutral"@) != ("ChaoticNeutral"@)) by {
            assert(("TypicallyLawfulNeutral"@)[0] == 'T');
            assert(("ChaoticNeutral"@)[0] == 'C');
        }
        assert(("TypicallyLawfulNeutral"@) != ("ChaoticGood"@)) by {
            assert(("TypicallyLawfulNeutral"@)[0] == 'T');
            assert(("ChaoticGood"@)[0] == 'C');
        }
        assert(("TypicallyLawfulNeutral"@) != ("LawfulEvil"@)) by {
            assert(("TypicallyLawfulNeutral"@)[0] == 'T');
            assert(("LawfulEvil"@)[0] == 'L');
        }
        assert(("TypicallyLawfulNeutral"@) != ("LawfulNeutral"@)) by {
            assert(("TypicallyLawfulNeutral"@)[0] == 'T');
            assert(("LawfulNeutral"@)[0] == 'L');
        }
        assert(("TypicallyLawfulNeutral"@) != ("LawfulGood"@)) by {
            assert(("TypicallyLawfulNeutral"@)[0] == 'T');
            assert(("LawfulGood"@)[0] == 'L');
        }
        assert(("TypicallyLawfulNeutral"@) != ("NeutralEvil"@)) by {
            assert(("TypicallyLawfulNeutral"@)[0] == 'T');
            assert(("NeutralEvil"@)[0] == 'N');
        }
        assert(("TypicallyLawfulNeutral"@) != ("TrueNeutral"@)) by {
            assert(("TypicallyLawfulNeutral"@)[1] == 'y');
            assert(("TrueNeutral"@)[1] == 'r');
        }
        assert(("TypicallyLawfulNeutral"@) != ("NeutralGood"@)) by {
            assert(("TypicallyLawfulNeutral"@)[0] == 'T');
            assert(("NeutralGood"@)[0] == 'N');
        }
        assert(("TypicallyLawfulNeutral"@) != ("TypicallyChaoticEvil"@)) by {
            assert(("TypicallyLawfulNeutral"@)[9] == 'L');
            assert(("TypicallyChaoticEvil"@)[9] == 'C');
        }
        assert(("TypicallyLawfulNeutral"@) != ("TypicallyChaoticNeutral"@)) by {
            assert(("TypicallyLawfulNeutral"@)[9] == 'L');
            assert(("TypicallyChaoticNeutral"@)[9] == 'C');
        }
        assert(("TypicallyLawfulNeutral"@) != ("TypicallyChaoticGood"@)) by {
            assert(("TypicallyLawfulNeutral"@)[9] == 'L');
            assert(("TypicallyChaoticGood"@)[9] == 'C');
        }
        assert(("TypicallyLawfulNeutral"@) != ("TypicallyLawfulEvil"@)) by {
            assert(("TypicallyLawfulNeutral"@)[15] == 'N');
            assert(("TypicallyLawfulEvil"@)[15] == 'E');
        }
        assert(("TypicallyLawfulGood"@) != ("AnyAlignment"@)) by {
            assert(("TypicallyLawfulGood"@)[0] == 'T');
            assert(("AnyAlignment"@)[0] == 'A');
        }
        assert(("TypicallyLawfulGood"@) != ("AnyChaotic"@)) by {
            assert(("TypicallyLawfulGood"@)[0] == 'T');
            assert(("AnyChaotic"@)[0] == 'A');
        }
        assert(("TypicallyLawfulGood"@) != ("AnyEvil"@)) by {
            assert(("TypicallyLawfulGood"@)[0] == 'T');
            assert(("AnyEvil"@)[0] == 'A');
        }
        assert(("TypicallyLawfulGood"@) != ("AnyGood"@)) by {
            assert(("TypicallyLawfulGood"@)[0] == 'T');
            assert(("AnyGood"@)[0] == 'A');
        }
        assert(("TypicallyLawfulGood"@) != ("AnyLawful"@)) by {
            assert(("TypicallyLawfulGood"@)[0] == 'T');
            assert(("AnyLawful"@)[0] == 'A');
        }
        assert(("TypicallyLawfulGood"@) != ("AnyNeutral"@)) by {
            assert(("TypicallyLawfulGood"@)[0] == 'T');
            assert(("AnyNeutral"@)[0] == 'A');
        }
        assert(("TypicallyLawfulGood"@) != ("AnyNonChaotic"@)) by {
            assert(("TypicallyLawfulGood"@)[0] == 'T');
            assert(("AnyNonChaotic"@)[0] == 'A');
        }
        assert(("TypicallyLawfulGood"@) != ("AnyNonEvil"@)) by {
            assert(("TypicallyLawfulGood"@)[0] == 'T');
            assert(("AnyNonEvil"@)[0] == 'A');
        }
        assert(("TypicallyLawfulGood"@) != ("AnyNonGood"@)) by {
            assert(("TypicallyLawfulGood"@)[0] == 'T');
            assert(("AnyNonGood"@)[0] == 'A');
        }
        assert(("TypicallyLawfulGood"@) != ("AnyNonLawful"@)) by {
            assert(("TypicallyLawfulGood"@)[0] == 'T');
            assert(("AnyNonLawful"@)[0] == 'A');
        }
        assert(("TypicallyLawfulGood"@) != ("AnyNonNeutral"@)) by {
            assert(("TypicallyLawfulGood"@)[0] == 'T');
            assert(("AnyNonNeutral"@)[0] == 'A');
        }
        assert(("TypicallyLawfulGood"@) != ("ChaoticEvil"@)) by {
            assert(("TypicallyLawfulGood"@)[0] == 'T');
            assert(("ChaoticEvil"@)[0] == 'C');
        }
        assert(("TypicallyLawfulGood"@) != ("ChaoticNeutral"@)) by {
            assert(("TypicallyLawfulGood"@)[0] == 'T');
            assert(("ChaoticNeutral"@)[0] == 'C');
        }
        assert(("TypicallyLawfulGood"@) != ("ChaoticGood"@)) by {
            assert(("TypicallyLawfulGood"@)[0] == 'T');
            assert(("ChaoticGood"@)[0] == 'C');
        }
        assert(("TypicallyLawfulGood"@) != ("LawfulEvil"@)) by {
            assert(("TypicallyLawfulGood"@)[0] == 'T');
            assert(("LawfulEvil"@)[0] == 'L');
        }
        assert(("TypicallyLawfulGood"@) != ("LawfulNeutral"@)) by {
            assert(("TypicallyLawfulGood"@)[0] == 'T');
            assert(("LawfulNeutral"@)[0] == 'L');
        }
        assert(("TypicallyLawfulGood"@) != ("LawfulGood"@)) by {
            assert(("TypicallyLawfulGood"@)[0] == 'T');
            assert(("LawfulGood"@)[0] == 'L');
        }
        assert(("TypicallyLawfulGood"@) != ("NeutralEvil"@)) by {
            assert(("TypicallyLawfulGood"@)[0] == 'T');
            assert(("NeutralEvil"@)[0] == 'N');
        }
        assert(("TypicallyLawfulGood"@) != ("TrueNeutral"@)) by {
            assert(("TypicallyLawfulGood"@)[1] == 'y');
            assert(("TrueNeutral"@)[1] == 'r');
        }
        assert(("TypicallyLawfulGood"@) != ("NeutralGood"@)) by {
            assert(("TypicallyLawfulGood"@)[0] == 'T');
            assert(("NeutralGood"@)[0] == 'N');
        }
        assert(("TypicallyLawfulGood"@) != ("TypicallyChaoticEvil"@)) by {
            assert(("TypicallyLawfulGood"@)[9] == 'L');
            assert(("TypicallyChaoticEvil"@)[9] == 'C');
        }
        assert(("TypicallyLawfulGood"@) != ("TypicallyChaoticNeutral"@)) by {
            assert(("TypicallyLawfulGood"@)[9] == 'L');
            assert(("TypicallyChaoticNeutral"@)[9] == 'C');
        }
        assert(("TypicallyLawfulGood"@) != ("TypicallyChaoticGood"@)) by {
            assert(("TypicallyLawfulGood"@)[9] == 'L');
            assert(("TypicallyChaoticGood"@)[9] == 'C');
        }
        assert(("TypicallyLawfulGood"@) != ("TypicallyLawfulEvil"@)) by {
            assert(("TypicallyLawfulGood"@)[15] == 'G');
            assert(("TypicallyLawfulEvil"@)[15] == 'E');
        }
        assert(("TypicallyLawfulGood"@) != ("TypicallyLawfulNeutral"@)) by {
            assert(("TypicallyLawfulGood"@)[15] == 'G');
            assert(("TypicallyLawfulNeutral"@)[15] == 'N');
        }
        assert(("TypicallyNeutralEvil"@) != ("AnyAlignment"@)) by {
            assert(("TypicallyNeutralEvil"@)[0] == 'T');
            assert(("AnyAlignment"@)[0] == 'A');
        }
        assert(("TypicallyNeutralEvil"@) != ("AnyChaotic"@)) by {
            assert(("TypicallyNeutralEvil"@)[0] == 'T');
            assert(("AnyChaotic"@)[0] == 'A');
        }
        assert(("TypicallyNeutralEvil"@) != ("AnyEvil"@)) by {
            assert(("TypicallyNeutralEvil"@)[0] == 'T');
            assert(("AnyEvil"@)[0] == 'A');
        }
        assert(("TypicallyNeutralEvil"@) != ("AnyGood"@)) by {
            assert(("TypicallyNeutralEvil"@)[0] == 'T');
            assert(("AnyGood"@)[0] == 'A');
        }
        assert(("TypicallyNeutralEvil"@) != ("AnyLawful"@)) by {
            assert(("TypicallyNeutralEvil"@)[0] == 'T');
            assert(("AnyLawful"@)[0] == 'A');
        }
        assert(("TypicallyNeutralEvil"@) != ("AnyNeutral"@)) by {
            assert(("TypicallyNeutralEvil"@)[0] == 'T');
            assert(("AnyNeutral"@)[0] == 'A');
        }
        assert(("TypicallyNeutralEvil"@) != ("AnyNonChaotic"@)) by {
            assert(("TypicallyNeutralEvil"@)[0] == 'T');
            assert(("AnyNonChaotic"@)[0] == 'A');
        }
        assert(("TypicallyNeutralEvil"@) != ("AnyNonEvil"@)) by {
            assert(("TypicallyNeutralEvil"@)[0] == 'T');
            assert(("AnyNonEvil"@)[0] == 'A');
        }
        assert(("TypicallyNeutralEvil"@) != ("AnyNonGood"@)) by {
            assert(("TypicallyNeutralEvil"@)[0] == 'T');
            assert(("AnyNonGood"@)[0] == 'A');
        }
        assert(("TypicallyNeutralEvil"@) != ("AnyNonLawful"@)) by {
            assert(("TypicallyNeutralEvil"@)[0] == 'T');
            assert(("AnyNonLawful"@)[0] == 'A');
        }
        assert(("TypicallyNeutralEvil"@) != ("AnyNonNeutral"@)) by {
            assert(("TypicallyNeutralEvil"@)[0] == 'T');
            assert(("AnyNonNeutral"@)[0] == 'A');
        }
        assert(("TypicallyNeutralEvil"@) != ("ChaoticEvil"@)) by {
            assert(("TypicallyNeutralEvil"@)[0] == 'T');
            assert(("ChaoticEvil"@)[0] == 'C');
        }
        assert(("TypicallyNeutralEvil"@) != ("ChaoticNeutral"@)) by {
            assert(("TypicallyNeutralEvil"@)[0] == 'T');
            assert(("ChaoticNeutral"@)[0] == 'C');
        }
        assert(("TypicallyNeutralEvil"@) != ("ChaoticGood"@)) by {
            assert(("TypicallyNeutralEvil"@)[0] == 'T');
            assert(("ChaoticGood"@)[0] == 'C');
        }
        assert(("TypicallyNeutralEvil"@) != ("LawfulEvil"@)) by {
            assert(("TypicallyNeutralEvil"@)[0] == 'T');
            assert(("LawfulEvil"@)[0] == 'L');
        }
        assert(("TypicallyNeutralEvil"@) != ("LawfulNeutral"@)) by {
            assert(("TypicallyNeutralEvil"@)[0] == 'T');
            assert(("LawfulNeutral"@)[0] == 'L');
        }
        assert(("TypicallyNeutralEvil"@) != ("LawfulGood"@)) by {
            assert(("TypicallyNeutralEvil"@)[0] == 'T');
            assert(("LawfulGood"@)[0] == 'L');
        }
        assert(("TypicallyNeutralEvil"@) != ("NeutralEvil"@)) by {
            assert(("TypicallyNeutralEvil"@)[0] == 'T');
            assert(("NeutralEvil"@)[0] == 'N');
        }
        assert(("TypicallyNeutralEvil"@) != ("TrueNeutral"@)) by {
            assert(("TypicallyNeutralEvil"@)[1] == 'y');
            assert(("TrueNeutral"@)[1] == 'r');
        }
        assert(("TypicallyNeutralEvil"@) != ("NeutralGood"@)) by {
            assert(("TypicallyNeutralEvil"@)[0] == 'T');
            assert(("NeutralGood"@)[0] == 'N');
        }
        assert(("TypicallyNeutralEvil"@) != ("TypicallyChaoticEvil"@)) by {
            assert(("TypicallyNeutralEvil"@)[9] == 'N');
            assert(("TypicallyChaoticEvil"@)[9] == 'C');
        }
        assert(("TypicallyNeutralEvil"@) != ("TypicallyChaoticNeutral"@)) by {
            assert(("TypicallyNeutralEvil"@)[9] == 'N');
            assert(("TypicallyChaoticNeutral"@)[9] == 'C');
        }
        assert(("TypicallyNeutralEvil"@) != ("TypicallyChaoticGood"@)) by {
            assert(("TypicallyNeutralEvil"@)[9] == 'N');
            assert(("TypicallyChaoticGood"@)[9] == 'C');
        }
        assert(("TypicallyNeutralEvil"@) != ("TypicallyLawfulEvil"@)) by {
            assert(("TypicallyNeutralEvil"@)[9] == 'N');
            assert(("TypicallyLawfulEvil"@)[9] == 'L');
        }
        assert(("TypicallyNeutralEvil"@) != ("TypicallyLawfulNeutral"@)) by {
            assert(("TypicallyNeutralEvil"@)[9] == 'N');
            assert(("TypicallyLawfulNeutral"@)[9] == 'L');
        }
        assert(("TypicallyNeutralEvil"@) != ("TypicallyLawfulGood"@)) by {
            assert(("TypicallyNeutralEvil"@)[9] == 'N');
            assert(("TypicallyLawfulGood"@)[9] == 'L');
        }
        assert(("TypicallyTrueNeutral"@) != ("AnyAlignment"@)) by {
            assert(("TypicallyTrueNeutral"@)[0] == 'T');
            assert(("AnyAlignment"@)[0] == 'A');
        }
        assert(("TypicallyTrueNeutral"@) != ("AnyChaotic"@)) by {
            assert(("TypicallyTrueNeutral"@)[0] == 'T');
            assert(("AnyChaotic"@)[0] == 'A');
        }
        assert(("TypicallyTrueNeutral"@) != ("AnyEvil"@)) by {
            assert(("TypicallyTrueNeutral"@)[0] == 'T');
            assert(("AnyEvil"@)[0] == 'A');
        }
        assert(("TypicallyTrueNeutral"@) != ("AnyGood"@)) by {
            assert(("TypicallyTrueNeutral"@)[0] == 'T');
            assert(("AnyGood"@)[0] == 'A');
        }
        assert(("TypicallyTrueNeutral"@) != ("AnyLawful"@)) by {
            assert(("TypicallyTrueNeutral"@)[0] == 'T');
            assert(("AnyLawful"@)[0] == 'A');
        }
        assert(("TypicallyTrueNeutral"@) != ("AnyNeutral"@)) by {
            assert(("TypicallyTrueNeutral"@)[0] == 'T');
            assert(("AnyNeutral"@)[0] == 'A');
        }
        assert(("TypicallyTrueNeutral"@) != ("AnyNonChaotic"@)) by {
            assert(("TypicallyTrueNeutral"@)[0] == 'T');
            assert(("AnyNonChaotic"@)[0] == 'A');
        }
        assert(("TypicallyTrueNeutral"@) != ("AnyNonEvil"@)) by {
            assert(("TypicallyTrueNeutral"@)[0] == 'T');
            assert(("AnyNonEvil"@)[0] == 'A');
        }
        assert(("TypicallyTrueNeutral"@) != ("AnyNonGood"@)) by {
            assert(("TypicallyTrueNeutral"@)[0] == 'T');
            assert(("AnyNonGood"@)[0] == 'A');
        }
        assert(("TypicallyTrueNeutral"@) != ("AnyNonLawful"@)) by {
            assert(("TypicallyTrueNeutral"@)[0] == 'T');
            assert(("AnyNonLawful"@)[0] == 'A');
        }
        assert(("TypicallyTrueNeutral"@) != ("AnyNonNeutral"@)) by {
            assert(("TypicallyTrueNeutral"@)[0] == 'T');
            assert(("AnyNonNeutral"@)[0] == 'A');
        }
        assert(("TypicallyTrueNeutral"@) != ("ChaoticEvil"@)) by {
            assert(("TypicallyTrueNeutral"@)[0] == 'T');
            assert(("ChaoticEvil"@)[0] == 'C');
        }
        assert(("TypicallyTrueNeutral"@) != ("ChaoticNeutral"@)) by {
            assert(("TypicallyTrueNeutral"@)[0] == 'T');
            assert(("ChaoticNeutral"@)[0] == 'C');
        }
        assert(("TypicallyTrueNeutral"@) != ("ChaoticGood"@)) by {
            assert(("TypicallyTrueNeutral"@)[0] == 'T');
            assert(("ChaoticGood"@)[0] == 'C');
        }
        assert(("TypicallyTrueNeutral"@) != ("LawfulEvil"@)) by {
            assert(("TypicallyTrueNeutral"@)[0] == 'T');
            assert(("LawfulEvil"@)[0] == 'L');
        }
        assert(("TypicallyTrueNeutral"@) != ("LawfulNeutral"@)) by {
            assert(("TypicallyTrueNeutral"@)[0] == 'T');
            assert(("LawfulNeutral"@)[0] == 'L');
        }
        assert(("TypicallyTrueNeutral"@) != ("LawfulGood"@)) by {
            assert(("TypicallyTrueNeutral"@)[0] == 'T');
            assert(("LawfulGood"@)[0] == 'L');
        }
        assert(("TypicallyTrueNeutral"@) != ("NeutralEvil"@)) by {
            assert(("TypicallyTrueNeutral"@)[0] == 'T');
            assert(("NeutralEvil"@)[0] == 'N');
        }
        assert(("TypicallyTrueNeutral"@) != ("TrueNeutral"@)) by {
            assert(("TypicallyTrueNeutral"@)[1] == 'y');
            assert(("TrueNeutral"@)[1] == 'r');
        }
        assert(("TypicallyTrueNeutral"@) != ("NeutralGood"@)) by {
            assert(("TypicallyTrueNeutral"@)[0] == 'T');
            assert(("NeutralGood"@)[0] == 'N');
        }
        assert(("TypicallyTrueNeutral"@) != ("TypicallyChaoticEvil"@)) by {
            assert(("TypicallyTrueNeutral"@)[9] == 'T');
            assert(("TypicallyChaoticEvil"@)[9] == 'C');
        }
        assert(("TypicallyTrueNeutral"@) != ("TypicallyChaoticNeutral"@)) by {
            assert(("TypicallyTrueNeutral"@)[9] == 'T');
            assert(("TypicallyChaoticNeutral"@)[9] == 'C');
        }
        assert(("TypicallyTrueNeutral"@) != ("TypicallyChaoticGood"@)) by {
            assert(("TypicallyTrueNeutral"@)[9] == 'T');
            assert(("TypicallyChaoticGood"@)[9] == 'C');
        }
        assert(("TypicallyTrueNeutral"@) != ("TypicallyLawfulEvil"@)) by {
            assert(("TypicallyTrueNeutral"@)[9] == 'T');
            assert(("TypicallyLawfulEvil"@)[9] == 'L');
        }
        assert(("TypicallyTrueNeutral"@) != ("TypicallyLawfulNeutral"@)) by {
            assert(("TypicallyTrueNeutral"@)[9] == 'T');
            assert(("TypicallyLawfulNeutral"@)[9] == 'L');
        }
        assert(("TypicallyTrueNeutral"@) != ("TypicallyLawfulGood"@)) by {
            assert(("TypicallyTrueNeutral"@)[9] == 'T');
            assert(("TypicallyLawfulGood"@)[9] == 'L');
        }
        assert(("TypicallyTrueNeutral"@) != ("TypicallyNeutralEvil"@)) by {
            assert(("TypicallyTrueNeutral"@)[9] == 'T');
            assert(("TypicallyNeutralEvil"@)[9] == 'N');
        }
        assert(("TypicallyNeutralGood"@) != ("AnyAlignment"@)) by {
            assert(("TypicallyNeutralGood"@)[0] == 'T');
            assert(("AnyAlignment"@)[0] == 'A');
        }
        assert(("TypicallyNeutralGood"@) != ("AnyChaotic"@)) by {
            assert(("TypicallyNeutralGood"@)[0] == 'T');
            assert(("AnyChaotic"@)[0] == 'A');
        }
        assert(("TypicallyNeutralGood"@) != ("AnyEvil"@)) by {
            assert(("TypicallyNeutralGood"@)[0] == 'T');
            assert(("AnyEvil"@)[0] == 'A');
        }
        assert(("TypicallyNeutralGood"@) != ("AnyGood"@)) by {
            assert(("TypicallyNeutralGood"@)[0] == 'T');
            assert(("AnyGood"@)[0] == 'A');
        }
        assert(("TypicallyNeutralGood"@) != ("AnyLawful"@)) by {
            assert(("TypicallyNeutralGood"@)[0] == 'T');
            assert(("AnyLawful"@)[0] == 'A');
        }
        assert(("TypicallyNeutralGood"@) != ("AnyNeutral"@)) by {
            assert(("TypicallyNeutralGood"@)[0] == 'T');
            assert(("AnyNeutral"@)[0] == 'A');
        }
        assert(("TypicallyNeutralGood"@) != ("AnyNonChaotic"@)) by {
            assert(("TypicallyNeutralGood"@)[0] == 'T');
            assert(("AnyNonChaotic"@)[0] == 'A');
        }
        assert(("TypicallyNeutralGood"@) != ("AnyNonEvil"@)) by {
            assert(("TypicallyNeutralGood"@)[0] == 'T');
            assert(("AnyNonEvil"@)[0] == 'A');
        }
        assert(("TypicallyNeutralGood"@) != ("AnyNonGood"@)) by {
            assert(("TypicallyNeutralGood"@)[0] == 'T');
            assert(("AnyNonGood"@)[0] == 'A');
        }
        assert(("TypicallyNeutralGood"@) != ("AnyNonLawful"@)) by {
            assert(("TypicallyNeutralGood"@)[0] == 'T');
            assert(("AnyNonLawful"@)[0] == 'A');
        }
        assert(("TypicallyNeutralGood"@) != ("AnyNonNeutral"@)) by {
            assert(("TypicallyNeutralGood"@)[0] == 'T');
            assert(("AnyNonNeutral"@)[0] == 'A');
        }
        assert(("TypicallyNeutralGood"@) != ("ChaoticEvil"@)) by {
            assert(("TypicallyNeutralGood"@)[0] == 'T');
            assert(("ChaoticEvil"@)[0] == 'C');
        }
        assert(("TypicallyNeutralGood"@) != ("ChaoticNeutral"@)) by {
            assert(("TypicallyNeutralGood"@)[0] == 'T');
            assert(("ChaoticNeutral"@)[0] == 'C');
        }
        assert(("TypicallyNeutralGood"@) != ("ChaoticGood"@)) by {
            assert(("TypicallyNeutralGood"@)[0] == 'T');
            assert(("ChaoticGood"@)[0] == 'C');
        }
        assert(("TypicallyNeutralGood"@) != ("LawfulEvil"@)) by {
            assert(("TypicallyNeutralGood"@)[0] == 'T');
            assert(("LawfulEvil"@)[0] == 'L');
        }
        assert(("TypicallyNeutralGood"@) != ("LawfulNeutral"@)) by {
            assert(("TypicallyNeutralGood"@)[0] == 'T');
            assert(("LawfulNeutral"@)[0] == 'L');
        }
        assert(("TypicallyNeutralGood"@) != ("LawfulGood"@)) by {
            assert(("TypicallyNeutralGood"@)[0] == 'T');
            assert(("LawfulGood"@)[0] == 'L');
        }
        assert(("TypicallyNeutralGood"@) != ("NeutralEvil"@)) by {
            assert(("TypicallyNeutralGood"@)[0] == 'T');
            assert(("NeutralEvil"@)[0] == 'N');
        }
        assert(("TypicallyNeutralGood"@) != ("TrueNeutral"@)) by {
            assert(("TypicallyNeutralGood"@)[1] == 'y');
            assert(("TrueNeutral"@)[1] == 'r');
        }
        assert(("TypicallyNeutralGood"@) != ("NeutralGood"@)) by {
            assert(("TypicallyNeutralGood"@)[0] == 'T');
            assert(("NeutralGood"@)[0] == 'N');
        }
        assert(("TypicallyNeutralGood"@) != ("TypicallyChaoticEvil"@)) by {
            assert(("TypicallyNeutralGood"@)[9] == 'N');
            assert(("TypicallyChaoticEvil"@)[9] == 'C');
        }
        assert(("TypicallyNeutralGood"@) != ("TypicallyChaoticNeutral"@)) by {
            assert(("TypicallyNeutralGood"@)[9] == 'N');
            assert(("TypicallyChaoticNeutral"@)[9] == 'C');
        }
        assert(("TypicallyNeutralGood"@) != ("TypicallyChaoticGood"@)) by {
            assert(("TypicallyNeutralGood"@)[9] == 'N');
            assert(("TypicallyChaoticGood"@)[9] == 'C');
        }
        assert(("TypicallyNeutralGood"@) != ("TypicallyLawfulEvil"@)) by {
            assert(("TypicallyNeutralGood"@)[9] == 'N');
            assert(("TypicallyLawfulEvil"@)[9] == 'L');
        }
        assert(("TypicallyNeutralGood"@) != ("TypicallyLawfulNeutral"@)) by {
            assert(("TypicallyNeutralGood"@)[9] == 'N');
            assert(("TypicallyLawfulNeutral"@)[9] == 'L');
        }
        assert(("TypicallyNeutralGood"@) != ("TypicallyLawfulGood"@)) by {
            assert(("TypicallyNeutralGood"@)[9] == 'N');
            assert(("TypicallyLawfulGood"@)[9] == 'L');
        }
        assert(("TypicallyNeutralGood"@) != ("TypicallyNeutralEvil"@)) by {
            assert(("TypicallyNeutralGood"@)[16] == 'G');
            assert(("TypicallyNeutralEvil"@)[16] == 'E');
        }
        assert(("TypicallyNeutralGood"@) != ("TypicallyTrueNeutral"@)) by {
            assert(("TypicallyNeutralGood"@)[9] == 'N');
            assert(("TypicallyTrueNeutral"@)[9] == 'T');
        }
        assert(("Unaligned"@) != ("AnyAlignment"@)) by {
            assert(("Unaligned"@)[0] == 'U');
            assert(("AnyAlignment"@)[0] == 'A');
        }
        assert(("Unaligned"@) != ("AnyChaotic"@)) by {
            assert(("Unaligned"@)[0] == 'U');
            assert(("AnyChaotic"@)[0] == 'A');
        }
        assert(("Unaligned"@) != ("AnyEvil"@)) by {
            assert(("Unaligned"@)[0] == 'U');
            assert(("AnyEvil"@)[0] == 'A');
        }
        assert(("Unaligned"@) != ("AnyGood"@)) by {
            assert(("Unaligned"@)[0] == 'U');
            assert(("AnyGood"@)[0] == 'A');
        }
        assert(("Unaligned"@) != ("AnyLawful"@)) by {
            assert(("Unaligned"@)[0] == 'U');
            assert(("AnyLawful"@)[0] == 'A');
        }
        assert(("Unaligned"@) != ("AnyNeutral"@)) by {
            assert(("Unaligned"@)[0] == 'U');
            assert(("AnyNeutral"@)[0] == 'A');
        }
        assert(("Unaligned"@) != ("AnyNonChaotic"@)) by {
            assert(("Unaligned"@)[0] == 'U');
            assert(("AnyNonChaotic"@)[0] == 'A');
        }
        assert(("Unaligned"@) != ("AnyNonEvil"@)) by {
            assert(("Unaligned"@)[0] == 'U');
            assert(("AnyNonEvil"@)[0] == 'A');
        }
        assert(("Unaligned"@) != ("AnyNonGood"@)) by {
            assert(("Unaligned"@)[0] == 'U');
            assert(("AnyNonGood"@)[0] == 'A');
        }
        assert(("Unaligned"@) != ("AnyNonLawful"@)) by {
            assert(("Unaligned"@)[0] == 'U');
            assert(("AnyNonLawful"@)[0] == 'A');
        }
        assert(("Unaligned"@) != ("AnyNonNeutral"@)) by {
            assert(("Unaligned"@)[0] == 'U');
            assert(("AnyNonNeutral"@)[0] == 'A');
        }
        assert(("Unaligned"@) != ("ChaoticEvil"@)) by {
            assert(("Unaligned"@)[0] == 'U');
            assert(("ChaoticEvil"@)[0] == 'C');
        }
        assert(("Unaligned"@) != ("ChaoticNeutral"@)) by {
            assert(("Unaligned"@)[0] == 'U');
            assert(("ChaoticNeutral"@)[0] == 'C');
        }
        assert(("Unaligned"@) != ("ChaoticGood"@)) by {
            assert(("Unaligned"@)[0] == 'U');
            assert(("ChaoticGood"@)[0] == 'C');
        }
        assert(("Unaligned"@) != ("LawfulEvil"@)) by {
            assert(("Unaligned"@)[0] == 'U');
            assert(("LawfulEvil"@)[0] == 'L');
        }
        assert(("Unaligned"@) != ("LawfulNeutral"@)) by {
            assert(("Unaligned"@)[0] == 'U');
            assert(("LawfulNeutral"@)[0] == 'L');
        }
        assert(("Unaligned"@) != ("LawfulGood"@)) by {
            assert(("Unaligned"@)[0] == 'U');
            assert(("LawfulGood"@)[0] == 'L');
        }
        assert(("Unaligned"@) != ("NeutralEvil"@)) by {
            assert(("Unaligned"@)[0] == 'U');
            assert(("NeutralEvil"@)[0] == 'N');
        }
        assert(("Unaligned"@) != ("TrueNeutral"@)) by {
            assert(("Unaligned"@)[0] == 'U');
            assert(("TrueNeutral"@)[0] == 'T');
        }
        assert(("Unaligned"@) != ("NeutralGood"@)) by {
            assert(("Unaligned"@)[0] == 'U');
            assert(("NeutralGood"@)[0] == 'N');
        }
        assert(("Unaligned"@) != ("TypicallyChaoticEvil"@)) by {
            assert(("Unaligned"@)[0] == 'U');
            assert(("TypicallyChaoticEvil"@)[0] == 'T');
        }
        assert(("Unaligned"@) != ("TypicallyChaoticNeutral"@)) by {
            assert(("Unaligned"@)[0] == 'U');
            assert(("TypicallyChaoticNeutral"@)[0] == 'T');
        }
        assert(("Unaligned"@) != ("TypicallyChaoticGood"@)) by {
            assert(("Unaligned"@)[0] == 'U');
            assert(("TypicallyChaoticGood"@)[0] == 'T');
        }
        assert(("Unaligned"@) != ("TypicallyLawfulEvil"@)) by {
            assert(("Unaligned"@)[0] == 'U');
            assert(("TypicallyLawfulEvil"@)[0] == 'T');
        }
        assert(("Unaligned"@) != ("TypicallyLawfulNeutral"@)) by {
            assert(("Unaligned"@)[0] == 'U');
            assert(("TypicallyLawfulNeutral"@)[0] == 'T');
        }
        assert(("Unaligned"@) != ("TypicallyLawfulGood"@)) by {
            assert(("Unaligned"@)[0] == 'U');
            assert(("TypicallyLawfulGood"@)[0] == 'T');
        }
        assert(("Unaligned"@) != ("TypicallyNeutralEvil"@)) by {
            assert(("Unaligned"@)[0] == 'U');
            assert(("TypicallyNeutralEvil"@)[0] == 'T');
        }
        assert(("Unaligned"@) != ("TypicallyTrueNeutral"@)) by {
            assert(("Unaligned"@)[0] == 'U');
            assert(("TypicallyTrueNeutral"@)[0] == 'T');
        }
        assert(("Unaligned"@) != ("TypicallyNeutralGood"@)) by {
            assert(("Unaligned"@)[0] == 'U');
            assert(("TypicallyNeutralGood"@)[0] == 'T');
        }
        match v {
            Alignment::AnyAlignment => {
                assert(Self::spec_dec(Self::spec_enc(Alignment::AnyAlignment)) == Some(Alignment::AnyAlignment));
            },
            Alignment::AnyChaotic => {
                assert(Self::spec_dec(Self::spec_enc(Alignment::AnyChaotic)) == Some(Alignment::AnyChaotic));
            },
            Alignment::AnyEvil => {
                assert(Self::spec_dec(Self::spec_enc(Alignment::AnyEvil)) == Some(Alignment::AnyEvil));
            },
            Alignment::AnyGood => {
                assert(Self::spec_dec(Self::spec_enc(Alignment::AnyGood)) == Some(Alignment::AnyGood));
            },
            Alignment::AnyLawful => {
                assert(Self::spec_dec(Self::spec_enc(Alignment::AnyLawful)) == Some(Alignment::AnyLawful));
            },
            Alignment::AnyNeutral => {
                assert(Self::spec_dec(Self::spec_enc(Alignment::AnyNeutral)) == Some(Alignment::AnyNeutral));
            },
            Alignment::AnyNonChaotic => {
                assert(Self::spec_dec(Self::spec_enc(Alignment::AnyNonChaotic)) == Some(Alignment::AnyNonChaotic));
            },
            Alignment::AnyNonEvil => {
                assert(Self::spec_dec(Self::spec_enc(Alignment::AnyNonEvil)) == Some(Alignment::AnyNonEvil));
            },
            Alignment::AnyNonGood => {
                assert(Self::spec_dec(Self::spec_enc(Alignment::AnyNonGood)) == Some(Alignment::AnyNonGood));
            },
            Alignment::AnyNonLawful => {
                assert(Self::spec_dec(Self::spec_enc(Alignment::AnyNonLawful)) == Some(Alignment::AnyNonLawful));
            },
            Alignment::AnyNonNeutral => {
                assert(Self::spec_dec(Self::spec_enc(Alignment::AnyNonNeutral)) == Some(Alignment::AnyNonNeutral));
            },
            Alignment::ChaoticEvil => {
                assert(Self::spec_dec(Self::spec_enc(Alignment::ChaoticEvil)) == Some(Alignment::ChaoticEvil));
            },
            Alignment::ChaoticNeutral => {
                assert(Self::spec_dec(Self::spec_enc(Alignment::ChaoticNeutral)) == Some(Alignment::ChaoticNeutral));
            },
            Alignment::ChaoticGood => {
                assert(Self::spec_dec(Self::spec_enc(Alignment::ChaoticGood)) == Some(Alignment::ChaoticGood));
            },
            Alignment::LawfulEvil => {
                assert(Self::spec_dec(Self::spec_enc(Alignment::LawfulEvil)) == Some(Alignment::LawfulEvil));
            },
            Alignment::LawfulNeutral => {
                assert(Self::spec_dec(Self::spec_enc(Alignment::LawfulNeutral)) == Some(Alignment::LawfulNeutral));
            },
            Alignment::LawfulGood => {
                assert(Self::spec_dec(Self::spec_enc(Alignment::LawfulGood)) == Some(Alignment::LawfulGood));
            },
            Alignment::NeutralEvil => {
                assert(Self::spec_dec(Self::spec_enc(Alignment::NeutralEvil)) == Some(Alignment::NeutralEvil));
            },
            Alignment::TrueNeutral => {
                assert(Self::spec_dec(Self::spec_enc(Alignment::TrueNeutral)) == Some(Alignment::TrueNeutral));
            },
            Alignment::NeutralGood => {
                assert(Self::spec_dec(Self::spec_enc(Alignment::NeutralGood)) == Some(Alignment::NeutralGood));
            },
            Alignment::TypicallyChaoticEvil => {
                assert(Self::spec_dec(Self::spec_enc(Alignment::TypicallyChaoticEvil)) == Some(Alignment::TypicallyChaoticEvil));
            },
            Alignment::TypicallyChaoticNeutral => {
                assert(Self::spec_dec(Self::spec_enc(Alignment::TypicallyChaoticNeutral)) == Some(Alignment::TypicallyChaoticNeutral));
            },
            Alignment::TypicallyChaoticGood => {
                assert(Self::spec_dec(Self::spec_enc(Alignment::TypicallyChaoticGood)) == Some(Alignment::TypicallyChaoticGood));
            },
            Alignment::TypicallyLawfulEvil => {
                assert(Self::spec_dec(Self::spec_enc(Alignment::TypicallyLawfulEvil)) == Some(Alignment::TypicallyLawfulEvil));
            },
            Alignment::TypicallyLawfulNeutral => {
                assert(Self::spec_dec(Self::spec_enc(Alignment::TypicallyLawfulNeutral)) == Some(Alignment::TypicallyLawfulNeutral));
            },
            Alignment::TypicallyLawfulGood => {
                assert(Self::spec_dec(Self::spec_enc(Alignment::TypicallyLawfulGood)) == Some(Alignment::TypicallyLawfulGood));
            },
            Alignment::TypicallyNeutralEvil => {
                assert(Self::spec_dec(Self::spec_enc(Alignment::TypicallyNeutralEvil)) == Some(Alignment::TypicallyNeutralEvil));
            },
            Alignment::TypicallyTrueNeutral => {
                assert(Self::spec_dec(Self::spec_enc(Alignment::TypicallyTrueNeutral)) == Some(Alignment::TypicallyTrueNeutral));
            },
            Alignment::TypicallyNeutralGood => {
                assert(Self::spec_dec(Self::spec_enc(Alignment::TypicallyNeutralGood)) == Some(Alignment::TypicallyNeutralGood));
            },
            Alignment::Unaligned => {
                assert(Self::spec_dec(Self::spec_enc(Alignment::Unaligned)) == Some(Alignment::Unaligned));
            },
        }
    }
}

/// Why a value could not be constructed: a required part was missing or
/// invalid.
#[derive(Debug, Clone, Copy, PartialEq, Eq, Structural)]
pub enum ConstructionError {
    /// An identifier was empty where a non-empty identifier is required.
    EmptyIdentifier,
    /// A required field of a request was absent.
    MissingField,
    /// The supplied creature is not of the kind the target entity requires.
    WrongCreatureKind,
}


impl DeepView for ConstructionError {
    type V = ConstructionError;

    open spec fn deep_view(&self) -> ConstructionError {
        *self
    }
}

} // verus!
