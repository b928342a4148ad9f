//! The monster families, kept as their own flat listing.

use vstd::prelude::*;

verus! {

use crate::record::{Codec, DecodeError, Record, RecordV, rec_views, str_eq};


/// The family a monster belongs to.
#[derive(Debug, Clone, Copy, PartialEq, Eq, Hash, Structural)]
pub enum MonsterType {
    Aberration,
    Beast,
    Celestial,
    Construct,
    Dragon,
    Elemental,
    Fey,
    Fiend,
    Giant,
    Humanoid,
    Monstrosity,
    Ooze,
    Plant,
    Undead,
}

impl DeepView for MonsterType {
    type V = MonsterType;

    open spec fn deep_view(&self) -> MonsterType {
        *self
    }
}

impl MonsterType {
    /// The display text of this monster family: its name.
    pub open spec fn spec_display(self) -> Seq<char> {
        match self {
            MonsterType::Aberration => "Aberration"@,
            MonsterType::Beast => "Beast"@,
            MonsterType::Celestial => "Celestial"@,
            MonsterType::Construct => "Construct"@,
            MonsterType::Dragon => "Dragon"@,
            MonsterType::Elemental => "Elemental"@,
            MonsterType::Fey => "Fey"@,
            MonsterType::Fiend => "Fiend"@,
            MonsterType::Giant => "Giant"@,
            MonsterType::Humanoid => "Humanoid"@,
            MonsterType::Monstrosity => "Monstrosity"@,
            MonsterType::Ooze => "Ooze"@,
            MonsterType::Plant => "Plant"@,
            MonsterType::Undead => "Undead"@,
        }
    }

    /// Renders the display text of this value.
    pub fn to_string(&self) -> (s: String)
        ensures
            s@ == self.spec_display(),
    {
        match self {
            MonsterType::Aberration => String::from_str("Aberration"),
            MonsterType::Beast => String::from_str("Beast"),
            MonsterType::Celestial => String::from_str("Celestial"),
            MonsterType::Construct => String::from_str("Construct"),
            MonsterType::Dragon => String::from_str("Dragon"),
            MonsterType::Elemental => String::from_str("Elemental"),
            MonsterType::Fey => String::from_str("Fey"),
            MonsterType::Fiend => String::from_str("Fiend"),
            MonsterType::Giant => String::from_str("Giant"),
            MonsterType::Humanoid => String::from_str("Humanoid"),
            MonsterType::Monstrosity => String::from_str("Monstrosity"),
            MonsterType::Ooze => String::from_str("Ooze"),
            MonsterType::Plant => String::from_str("Plant"),
            MonsterType::Undead => String::from_str("Undead"),
        }
    }
}

impl Codec for MonsterType {
    open spec fn spec_enc(v: MonsterType) -> RecordV {
        match v {
            MonsterType::Aberration => RecordV::Tag("Aberration"@, Seq::empty()),
            MonsterType::Beast => RecordV::Tag("Beast"@, Seq::empty()),
            MonsterType::Celestial => RecordV::Tag("Celestial"@, Seq::empty()),
            MonsterType::Construct => RecordV::Tag("Construct"@, Seq::empty()),
            MonsterType::Dragon => RecordV::Tag("Dragon"@, Seq::empty()),
            MonsterType::Elemental => RecordV::Tag("Elemental"@, Seq::empty()),
            MonsterType::Fey => RecordV::Tag("Fey"@, Seq::empty()),
            MonsterType::Fiend => RecordV::Tag("Fiend"@, Seq::empty()),
            MonsterType::Giant => RecordV::Tag("Giant"@, Seq::empty()),
            MonsterType::Humanoid => RecordV::Tag("Humanoid"@, Seq::empty()),
            MonsterType::Monstrosity => RecordV::Tag("Monstrosity"@, Seq::empty()),
            MonsterType::Ooze => RecordV::Tag("Ooze"@, Seq::empty()),
            MonsterType::Plant => RecordV::Tag("Plant"@, Seq::empty()),
            MonsterType::Undead => RecordV::Tag("Undead"@, Seq::empty()),
        }
    }

    open spec fn spec_dec(r: RecordV) -> Option<MonsterType> {
        match r {
            RecordV::Tag(t, args) => {
                if t == "Aberration"@ && args.len() == 0 {
                    Some(MonsterType::Aberration)
                } else if t == "Beast"@ && args.len() == 0 {
                    Some(MonsterType::Beast)
                } else if t == "Celestial"@ && args.len() == 0 {
                    Some(MonsterType::Celestial)
                } else if t == "Construct"@ && args.len() == 0 {
                    Some(MonsterType::Construct)
                } else if t == "Dragon"@ && args.len() == 0 {
                    Some(MonsterType::Dragon)
                } else if t == "Elemental"@ && args.len() == 0 {
                    Some(MonsterType::Elemental)
                } else if t == "Fey"@ && args.len() == 0 {
                    Some(MonsterType::Fey)
                } else if t == "Fiend"@ && args.len() == 0 {
                    Some(MonsterType::Fiend)
                } else if t == "Giant"@ && args.len() == 0 {
                    Some(MonsterType::Giant)
                } else if t == "Humanoid"@ && args.len() == 0 {
                    Some(MonsterType::Humanoid)
                } else if t == "Monstrosity"@ && args.len() == 0 {
                    Some(MonsterType::Monstrosity)
                } else if t == "Ooze"@ && args.len() == 0 {
                    Some(MonsterType::Ooze)
                } else if t == "Plant"@ && args.len() == 0 {
                    Some(MonsterType::Plant)
                } else if t == "Undead"@ && args.len() == 0 {
                    Some(MonsterType::Undead)
                } else {
                    None
                }
            },
            _ => None,
        }
    }

    fn to_record(&self) -> (r: Record) {
        match self {
            MonsterType::Aberration => {
                let r = Record::Tag(String::from_str("Aberration"), Vec::new());
                proof {
                    assert(rec_views(Seq::<Record>::empty()) =~= Seq::<RecordV>::empty());
                }
                r
            },
            MonsterType::Beast => {
                let r = Record::Tag(String::from_str("Beast"), Vec::new());
                proof {
                    assert(rec_views(Seq::<Record>::empty()) =~= Seq::<RecordV>::empty());
                }
                r
            },
            MonsterType::Celestial => {
                let r = Record::Tag(String::from_str("Celestial"), Vec::new());
                proof {
                    assert(rec_views(Seq::<Record>::empty()) =~= Seq::<RecordV>::empty());
                }
                r
            },
            MonsterType::Construct => {
                let r = Record::Tag(String::from_str("Construct"), Vec::new());
                proof {
                    assert(rec_views(Seq::<Record>::empty()) =~= Seq::<RecordV>::empty());
                }
                r
            },
            MonsterType::Dragon => {
                let r = Record::Tag(String::from_str("Dragon"), Vec::new());
                proof {
                    assert(rec_views(Seq::<Record>::empty()) =~= Seq::<RecordV>::empty());
                }
                r
            },
            MonsterType::Elemental => {
                let r = Record::Tag(String::from_str("Elemental"), Vec::new());
                proof {
                    assert(rec_views(Seq::<Record>::empty()) =~= Seq::<RecordV>::empty());
                }
                r
            },
            MonsterType::Fey => {
                let r = Record::Tag(String::from_str("Fey"), Vec::new());
                proof {
                    assert(rec_views(Seq::<Record>::empty()) =~= Seq::<RecordV>::empty());
                }
                r
            },
            MonsterType::Fiend => {
                let r = Record::Tag(String::from_str("Fiend"), Vec::new());
                proof {
                    assert(rec_views(Seq::<Record>::empty()) =~= Seq::<RecordV>::empty());
                }
                r
            },
            MonsterType::Giant => {
                let r = Record::Tag(String::from_str("Giant"), Vec::new());
                proof {
                    assert(rec_views(Seq::<Record>::empty()) =~= Seq::<RecordV>::empty());
                }
                r
            },
            MonsterType::Humanoid => {
                let r = Record::Tag(String::from_str("Humanoid"), Vec::new());
                proof {
                    assert(rec_views(Seq::<Record>::empty()) =~= Seq::<RecordV>::empty());
                }
                r
            },
            MonsterType::Monstrosity => {
                let r = Record::Tag(String::from_str("Monstrosity"), Vec::new());
                proof {
                    assert(rec_views(Seq::<Record>::empty()) =~= Seq::<RecordV>::empty());
                }
                r
            },
            MonsterType::Ooze => {
                let r = Record::Tag(String::from_str("Ooze"), Vec::new());
                proof {
                    assert(rec_views(Seq::<Record>::empty()) =~= Seq::<RecordV>::empty());
                }
                r
            },
            MonsterType::Plant => {
                let r = Record::Tag(String::from_str("Plant"), Vec::new());
                proof {
                    assert(rec_views(Seq::<Record>::empty()) =~= Seq::<RecordV>::empty());
                }
                r
            },
            MonsterType::Undead => {
                let r = Record::Tag(String::from_str("Undead"), Vec::new());
                proof {
                    assert(rec_views(Seq::<Record>::empty()) =~= Seq::<RecordV>::empty());
                }
                r
            },
        }
    }

    fn from_record(r: &Record) -> (res: Result<MonsterType, DecodeError>) {
        match r {
            Record::Tag(t, args) => {
                if str_eq(t.as_str(), "Aberration") && args.len() == 0 {
                    Ok(MonsterType::Aberration)
                } else if str_eq(t.as_str(), "Beast") && args.len() == 0 {
                    Ok(MonsterType::Beast)
                } else if str_eq(t.as_str(), "Celestial") && args.len() == 0 {
                    Ok(MonsterType::Celestial)
                } else if str_eq(t.as_str(), "Construct") && args.len() == 0 {
                    Ok(MonsterType::Construct)
                } else if str_eq(t.as_str(), "Dragon") && args.len() == 0 {
                    Ok(MonsterType::Dragon)
                } else if str_eq(t.as_str(), "Elemental") && args.len() == 0 {
                    Ok(MonsterType::Elemental)
                } else if str_eq(t.as_str(), "Fey") && args.len() == 0 {
                    Ok(MonsterType::Fey)
                } else if str_eq(t.as_str(), "Fiend") && args.len() == 0 {
                    Ok(MonsterType::Fiend)
                } else if str_eq(t.as_str(), "Giant") && args.len() == 0 {
                    Ok(MonsterType::Giant)
                } else if str_eq(t.as_str(), "Humanoid") && args.len() == 0 {
                    Ok(MonsterType::Humanoid)
                } else if str_eq(t.as_str(), "Monstrosity") && args.len() == 0 {
                    Ok(MonsterType::Monstrosity)
                } else if str_eq(t.as_str(), "Ooze") && args.len() == 0 {
                    Ok(MonsterType::Ooze)
                } else if str_eq(t.as_str(), "Plant") && args.len() == 0 {
                    Ok(MonsterType::Plant)
                } else if str_eq(t.as_str(), "Undead") && args.len() == 0 {
                    Ok(MonsterType::Undead)
                } else {
                    Err(DecodeError::Malformed)
                }
            },
            _ => Err(DecodeError::Malformed),
        }
    }

    proof fn lemma_round_trip(v: MonsterType) {
        reveal_strlit("Aberration");
        reveal_strlit("Beast");
        reveal_strlit("Celestial");
        reveal_strlit("Construct");
        reveal_strlit("Dragon");
        reveal_strlit("Elemental");
        reveal_strlit("Fey");
        reveal_strlit("Fiend");
        reveal_strlit("Giant");
        reveal_strlit("Humanoid");
        reveal_strlit("Monstrosity");
        reveal_strlit("Ooze");
        reveal_strlit("Plant");
        reveal_strlit("Undead");
        assert(("Beast"@) != ("Aberration"@)) by {
            assert(("Beast"@)[0] == 'B');
            assert(("Aberration"@)[0] == 'A');
        }
        assert(("Celestial"@) != ("Aberration"@)) by {
            assert(("Celestial"@)[0] == 'C');
            assert(("Aberration"@)[0] == 'A');
        }
        assert(("Celestial"@) != ("Beast"@)) by {
            assert(("Celestial"@)[0] == 'C');
            assert(("Beast"@)[0] == 'B');
        }
        assert(("Construct"@) != ("Aberration"@)) by {
            assert(("Construct"@)[0] == 'C');
            assert(("Aberration"@)[0] == 'A');
        }
        assert(("Construct"@) != ("Beast"@)) by {
            assert(("Construct"@)[0] == 'C');
            assert(("Beast"@)[0] == 'B');
        }
        assert(("Construct"@) != ("Celestial"@)) by {
            assert(("Construct"@)[1] == 'o');
            assert(("Celestial"@)[1] == 'e');
        }
        assert(("Dragon"@) != ("Aberration"@)) by {
            assert(("Dragon"@)[0] == 'D');
            assert(("Aberration"@)[0] == 'A');
        }
        assert(("Dragon"@) != ("Beast"@)) by {
            assert(("Dragon"@)[0] == 'D');
            assert(("Beast"@)[0] == 'B');
        }
        assert(("Dragon"@) != ("Celestial"@)) by {
            assert(("Dragon"@)[0] == 'D');
            assert(("Celestial"@)[0] == 'C');
        }
        assert(("Dragon"@) != ("Construct"@)) by {
            assert(("Dragon"@)[0] == 'D');
            assert(("Construct"@)[0] == 'C');
        }
        assert(("Elemental"@) != ("Aberration"@)) by {
            assert(("Elemental"@)[0] == 'E');
            assert(("Aberration"@)[0] == 'A');
        }
        assert(("Elemental"@) != ("Beast"@)) by {
            assert(("Elemental"@)[0] == 'E');
            assert(("Beast"@)[0] == 'B');
        }
        assert(("Elemental"@) != ("Celestial"@)) by {
            assert(("Elemental"@)[0] == 'E');
            assert(("Celestial"@)[0] == 'C');
        }
        assert(("Elemental"@) != ("Construct"@)) by {
            assert(("Elemental"@)[0] == 'E');
            assert(("Construct"@)[0] == 'C');
        }
        assert(("Elemental"@) != ("Dragon"@)) by {
            assert(("Elemental"@)[0] == 'E');
            assert(("Dragon"@)[0] == 'D');
        }
        assert(("Fey"@) != ("Aberration"@)) by {
            assert(("Fey"@)[0] == 'F');
            assert(("Aberration"@)[0] == 'A');
        }
        assert(("Fey"@) != ("Beast"@)) by {
            assert(("Fey"@)[0] == 'F');
            assert(("Beast"@)[0] == 'B');
        }
        assert(("Fey"@) != ("Celestial"@)) by {
            assert(("Fey"@)[0] == 'F');
            assert(("Celestial"@)[0] == 'C');
        }
        assert(("Fey"@) != ("Construct"@)) by {
            assert(("Fey"@)[0] == 'F');
            assert(("Construct"@)[0] == 'C');
        }
        assert(("Fey"@) != ("Dragon"@)) by {
            assert(("Fey"@)[0] == 'F');
            assert(("Dragon"@)[0] == 'D');
        }
        assert(("Fey"@) != ("Elemental"@)) by {
            assert(("Fey"@)[0] == 'F');
            assert(("Elemental"@)[0] == 'E');
        }
        assert(("Fiend"@) != ("Aberration"@)) by {
            assert(("Fiend"@)[0] == 'F');
            assert(("Aberration"@)[0] == 'A');
        }
        assert(("Fiend"@) != ("Beast"@)) by {
            assert(("Fiend"@)[0] == 'F');
            assert(("Beast"@)[0] == 'B');
        }
        assert(("Fiend"@) != ("Celestial"@)) by {
            assert(("Fiend"@)[0] == 'F');
            assert(("Celestial"@)[0] == 'C');
        }
        assert(("Fiend"@) != ("Construct"@)) by {
            assert(("Fiend"@)[0] == 'F');
            assert(("Construct"@)[0] == 'C');
        }
        assert(("Fiend"@) != ("Dragon"@)) by {
            assert(("Fiend"@)[0] == 'F');
            assert(("Dragon"@)[0] == 'D');
        }
        assert(("Fiend"@) != ("Elemental"@)) by {
            assert(("Fiend"@)[0] == 'F');
            assert(("Elemental"@)[0] == 'E');
        }
        assert(("Fiend"@) != ("Fey"@)) by {
            assert(("Fiend"@)[1] == 'i');
            assert(("Fey"@)[1] == 'e');
        }
        assert(("Giant"@) != ("Aberration"@)) by {
            assert(("Giant"@)[0] == 'G');
            assert(("Aberration"@)[0] == 'A');
        }
        assert(("Giant"@) != ("Beast"@)) by {
            assert(("Giant"@)[0] == 'G');
            assert(("Beast"@)[0] == 'B');
        }
        assert(("Giant"@) != ("Celestial"@)) by {
            assert(("Giant"@)[0] == 'G');
            assert(("Celestial"@)[0] == 'C');
        }
        assert(("Giant"@) != ("Construct"@)) by {
            assert(("Giant"@)[0] == 'G');
            assert(("Construct"@)[0] == 'C');
        }
        assert(("Giant"@) != ("Dragon"@)) by {
            assert(("Giant"@)[0] == 'G');
            assert(("Dragon"@)[0] == 'D');
        }
        assert(("Giant"@) != ("Elemental"@)) by {
            assert(("Giant"@)[0] == 'G');
            assert(("Elemental"@)[0] == 'E');
        }
        assert(("Giant"@) != ("Fey"@)) by {
            assert(("Giant"@)[0] == 'G');
            assert(("Fey"@)[0] == 'F');
        }
        assert(("Giant"@) != ("Fiend"@)) by {
            assert(("Giant"@)[0] == 'G');
            assert(("Fiend"@)[0] == 'F');
        }
        assert(("Humanoid"@) != ("Aberration"@)) by {
            assert(("Humanoid"@)[0] == 'H');
            assert(("Aberration"@)[0] == 'A');
        }
        assert(("Humanoid"@) != ("Beast"@)) by {
            assert(("Humanoid"@)[0] == 'H');
            assert(("Beast"@)[0] == 'B');
        }
        assert(("Humanoid"@) != ("Celestial"@)) by {
            assert(("Humanoid"@)[0] == 'H');
            assert(("Celestial"@)[0] == 'C');
        }
        assert(("Humanoid"@) != ("Construct"@)) by {
            assert(("Humanoid"@)[0] == 'H');
            assert(("Construct"@)[0] == 'C');
        }
        assert(("Humanoid"@) != ("Dragon"@)) by {
            assert(("Humanoid"@)[0] == 'H');
            assert(("Dragon"@)[0] == 'D');
        }
        assert(("Humanoid"@) != ("Elemental"@)) by {
            assert(("Humanoid"@)[0] == 'H');
            assert(("Elemental"@)[0] == 'E');
        }
        assert(("Humanoid"@) != ("Fey"@)) by {
            assert(("Humanoid"@)[0] == 'H');
            assert(("Fey"@)[0] == 'F');
        }
        assert(("Humanoid"@) != ("Fiend"@)) by {
            assert(("Humanoid"@)[0] == 'H');
            assert(("Fiend"@)[0] == 'F');
        }
        assert(("Humanoid"@) != ("Giant"@)) by {
            assert(("Humanoid"@)[0] == 'H');
            assert(("Giant"@)[0] == 'G');
        }
        assert(("Monstrosity"@) != ("Aberration"@)) by {
            assert(("Monstrosity"@)[0] == 'M');
            assert(("Aberration"@)[0] == 'A');
        }
        assert(("Monstrosity"@) != ("Beast"@)) by {
            assert(("Monstrosity"@)[0] == 'M');
            assert(("Beast"@)[0] == 'B');
        }
        assert(("Monstrosity"@) != ("Celestial"@)) by {
            assert(("Monstrosity"@)[0] == 'M');
            assert(("Celestial"@)[0] == 'C');
        }
        assert(("Monstrosity"@) != ("Construct"@)) by {
            assert(("Monstrosity"@)[0] == 'M');
            assert(("Construct"@)[0] == 'C');
        }
        assert(("Monstrosity"@) != ("Dragon"@)) by {
            assert(("Monstrosity"@)[0] == 'M');
            assert(("Dragon"@)[0] == 'D');
        }
        assert(("Monstrosity"@) != ("Elemental"@)) by {
            assert(("Monstrosity"@)[0] == 'M');
            assert(("Elemental"@)[0] == 'E');
        }
        assert(("Monstrosity"@) != ("Fey"@)) by {
            assert(("Monstrosity"@)[0] == 'M');
            assert(("Fey"@)[0] == 'F');
        }
        assert(("Monstrosity"@) != ("Fiend"@)) by {
            assert(("Monstrosity"@)[0] == 'M');
            assert(("Fiend"@)[0] == 'F');
        }
        assert(("Monstrosity"@) != ("Giant"@)) by {
            assert(("Monstrosity"@)[0] == 'M');
            assert(("Giant"@)[0] == 'G');
        }
        assert(("Monstrosity"@) != ("Humanoid"@)) by {
            assert(("Monstrosity"@)[0] == 'M');
            assert(("Humanoid"@)[0] == 'H');
        }
        assert(("Ooze"@) != ("Aberration"@)) by {
            assert(("Ooze"@)[0] == 'O');
            assert(("Aberration"@)[0] == 'A');
        }
        assert(("Ooze"@) != ("Beast"@)) by {
            assert(("Ooze"@)[0] == 'O');
            assert(("Beast"@)[0] == 'B');
        }
        assert(("Ooze"@) != ("Celestial"@)) by {
            assert(("Ooze"@)[0] == 'O');
            assert(("Celestial"@)[0] == 'C');
        }
        assert(("Ooze"@) != ("Construct"@)) by {
            assert(("Ooze"@)[0] == 'O');
            assert(("Construct"@)[0] == 'C');
        }
        assert(("Ooze"@) != ("Dragon"@)) by {
            assert(("Ooze"@)[0] == 'O');
            assert(("Dragon"@)[0] == 'D');
        }
        assert(("Ooze"@) != ("Elemental"@)) by {
            assert(("Ooze"@)[0] == 'O');
            assert(("Elemental"@)[0] == 'E');
        }
        assert(("Ooze"@) != ("Fey"@)) by {
            assert(("Ooze"@)[0] == 'O');
            assert(("Fey"@)[0] == 'F');
        }
        assert(("Ooze"@) != ("Fiend"@)) by {
            assert(("Ooze"@)[0] == 'O');
            assert(("Fiend"@)[0] == 'F');
        }
        assert(("Ooze"@) != ("Giant"@)) by {
            assert(("Ooze"@)[0] == 'O');
            assert(("Giant"@)[0] == 'G');
        }
        assert(("Ooze"@) != ("Humanoid"@)) by {
            assert(("Ooze"@)[0] == 'O');
            assert(("Humanoid"@)[0] == 'H');
        }
        assert(("Ooze"@) != ("Monstrosity"@)) by {
            assert(("Ooze"@)[0] == 'O');
            assert(("Monstrosity"@)[0] == 'M');
        }
        assert(("Plant"@) != ("Aberration"@)) by {
            assert(("Plant"@)[0] == 'P');
            assert(("Aberration"@)[0] == 'A');
        }
        assert(("Plant"@) != ("Beast"@)) by {
            assert(("Plant"@)[0] == 'P');
            assert(("Beast"@)[0] == 'B');
        }
        assert(("Plant"@) != ("Celestial"@)) by {
            assert(("Plant"@)[0] == 'P');
            assert(("Celestial"@)[0] == 'C');
        }
        assert(("Plant"@) != ("Construct"@)) by {
            assert(("Plant"@)[0] == 'P');
            assert(("Construct"@)[0] == 'C');
        }
        assert(("Plant"@) != ("Dragon"@)) by {
            assert(("Plant"@)[0] == 'P');
            assert(("Dragon"@)[0] == 'D');
        }
        assert(("Plant"@) != ("Elemental"@)) by {
            assert(("Plant"@)[0] == 'P');
            assert(("Elemental"@)[0] == 'E');
        }
        assert(("Plant"@) != ("Fey"@)) by {
            assert(("Plant"@)[0] == 'P');
            assert(("Fey"@)[0] == 'F');
        }
        assert(("Plant"@) != ("Fiend"@)) by {
            assert(("Plant"@)[0] == 'P');
            assert(("Fiend"@)[0] == 'F');
        }
        assert(("Plant"@) != ("Giant"@)) by {
            assert(("Plant"@)[0] == 'P');
            assert(("Giant"@)[0] == 'G');
        }
        assert(("Plant"@) != ("Humanoid"@)) by {
            assert(("Plant"@)[0] == 'P');
            assert(("Humanoid"@)[0] == 'H');
        }
        assert(("Plant"@) != ("Monstrosity"@)) by {
            assert(("Plant"@)[0] == 'P');
            assert(("Monstrosity"@)[0] == 'M');
        }
        assert(("Plant"@) != ("Ooze"@)) by {
            assert(("Plant"@)[0] == 'P');
            assert(("Ooze"@)[0] == 'O');
        }
        assert(("Undead"@) != ("Aberration"@)) by {
            assert(("Undead"@)[0] == 'U');
            assert(("Aberration"@)[0] == 'A');
        }
        assert(("Undead"@) != ("Beast"@)) by {
            assert(("Undead"@)[0] == 'U');
            assert(("Beast"@)[0] == 'B');
        }
        assert(("Undead"@) != ("Celestial"@)) by {
            assert(("Undead"@)[0] == 'U');
            assert(("Celestial"@)[0] == 'C');
        }
        assert(("Undead"@) != ("Construct"@)) by {
            assert(("Undead"@)[0] == 'U');
            assert(("Construct"@)[0] == 'C');
        }
        assert(("Undead"@) != ("Dragon"@)) by {
            assert(("Undead"@)[0] == 'U');
            assert(("Dragon"@)[0] == 'D');
        }
        assert(("Undead"@) != ("Elemental"@)) by {
            assert(("Undead"@)[0] == 'U');
            assert(("Elemental"@)[0] == 'E');
        }
        assert(("Undead"@) != ("Fey"@)) by {
            assert(("Undead"@)[0] == 'U');
            assert(("Fey"@)[0] == 'F');
        }
        assert(("Undead"@) != ("Fiend"@)) by {
            assert(("Undead"@)[0] == 'U');
            assert(("Fiend"@)[0] == 'F');
        }
        assert(("Undead"@) != ("Giant"@)) by {
            assert(("Undead"@)[0] == 'U');
            assert(("Giant"@)[0] == 'G');
        }
        assert(("Undead"@) != ("Humanoid"@)) by {
            assert(("Undead"@)[0] == 'U');
            assert(("Humanoid"@)[0] == 'H');
        }
        assert(("Undead"@) != ("Monstrosity"@)) by {
            assert(("Undead"@)[0] == 'U');
            assert(("Monstrosity"@)[0] == 'M');
        }
        assert(("Undead"@) != ("Ooze"@)) by {
            assert(("Undead"@)[0] == 'U');
            assert(("Ooze"@)[0] == 'O');
        }
        assert(("Undead"@) != ("Plant"@)) by {
            assert(("Undead"@)[0] == 'U');
            assert(("Plant"@)[0] == 'P');
        }
        match v {
            MonsterType::Aberration => {
                assert(Self::spec_dec(Self::spec_enc(MonsterType::Aberration)) == Some(MonsterType::Aberration));
            },
            MonsterType::Beast => {
                assert(Self::spec_dec(Self::spec_enc(MonsterType::Beast)) == Some(MonsterType::Beast));
            },
            MonsterType::Celestial => {
                assert(Self::spec_dec(Self::spec_enc(MonsterType::Celestial)) == Some(MonsterType::Celestial));
            },
            MonsterType::Construct => {
                assert(Self::spec_dec(Self::spec_enc(MonsterType::Construct)) == Some(MonsterType::Construct));
            },
            MonsterType::Dragon => {
                assert(Self::spec_dec(Self::spec_enc(MonsterType::Dragon)) == Some(MonsterType::Dragon));
            },
            MonsterType::Elemental => {
                assert(Self::spec_dec(Self::spec_enc(MonsterType::Elemental)) == Some(MonsterType::Elemental));
            },
            MonsterType::Fey => {
                assert(Self::spec_dec(Self::spec_enc(MonsterType::Fey)) == Some(MonsterType::Fey));
            },
            MonsterType::Fiend => {
                assert(Self::spec_dec(Self::spec_enc(MonsterType::Fiend)) == Some(MonsterType::Fiend));
            },
            MonsterType::Giant => {
                assert(Self::spec_dec(Self::spec_enc(MonsterType::Giant)) == Some(MonsterType::Giant));
            },
            MonsterType::Humanoid => {
                assert(Self::spec_dec(Self::spec_enc(MonsterType::Humanoid)) == Some(MonsterType::Humanoid));
            },
            MonsterType::Monstrosity => {
                assert(Self::spec_dec(Self::spec_enc(MonsterType::Monstrosity)) == Some(MonsterType::Monstrosity));
            },
            MonsterType::Ooze => {
                assert(Self::spec_dec(Self::spec_enc(MonsterType::Ooze)) == Some(MonsterType::Ooze));
            },
            MonsterType::Plant => {
                assert(Self::spec_dec(Self::spec_enc(MonsterType::Plant)) == Some(MonsterType::Plant));
            },
            MonsterType::Undead => {
                assert(Self::spec_dec(Self::spec_enc(MonsterType::Undead)) == Some(MonsterType::Undead));
            },
        }
    }
}

} // verus!
