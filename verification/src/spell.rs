//! Spells: level, casting time, duration, range, area, components, damage
//! and saving throws, with their stat-block display text.

use vstd::prelude::*;

verus! {

use crate::record::{Codec, DecodeError, Record, RecordV, field_views, rec_views, str_eq};
use crate::text::{dec_str, dec_string, push_dec_i64};
use crate::{DamageType, DieStat};


/// The level of a spell, from cantrip up to ninth.
#[derive(Debug, Clone, Copy, PartialEq, Eq, Structural)]
pub enum SpellLevel {
    Cantrip,
    Level1,
    Level2,
    Level3,
    Level4,
    Level5,
    Level6,
    Level7,
    Level8,
    Level9,
}

impl DeepView for SpellLevel {
    type V = SpellLevel;

    open spec fn deep_view(&self) -> SpellLevel {
        *self
    }
}

impl SpellLevel {
    /// The display text of this spell level.
    pub open spec fn spec_display(self) -> Seq<char> {
        match self {
            SpellLevel::Cantrip => "Cantrip"@,
            SpellLevel::Level1 => "1st Level"@,
            SpellLevel::Level2 => "2nd Level"@,
            SpellLevel::Level3 => "3rd Level"@,
            SpellLevel::Level4 => "4th Level"@,
            SpellLevel::Level5 => "5th Level"@,
            SpellLevel::Level6 => "6th Level"@,
            SpellLevel::Level7 => "7th Level"@,
            SpellLevel::Level8 => "8th Level"@,
            SpellLevel::Level9 => "9th Level"@,
        }
    }

    /// Renders the display text of this value.
    pub fn to_string(&self) -> (s: String)
        ensures
            s@ == self.spec_display(),
    {
        match self {
            SpellLevel::Cantrip => String::from_str("Cantrip"),
            SpellLevel::Level1 => String::from_str("1st Level"),
            SpellLevel::Level2 => String::from_str("2nd Level"),
            SpellLevel::Level3 => String::from_str("3rd Level"),
            SpellLevel::Level4 => String::from_str("4th Level"),
            SpellLevel::Level5 => String::from_str("5th Level"),
            SpellLevel::Level6 => String::from_str("6th Level"),
            SpellLevel::Level7 => String::from_str("7th Level"),
            SpellLevel::Level8 => String::from_str("8th Level"),
            SpellLevel::Level9 => String::from_str("9th Level"),
        }
    }
}

impl Codec for SpellLevel {
    open spec fn spec_enc(v: SpellLevel) -> RecordV {
        match v {
            SpellLevel::Cantrip => RecordV::Tag("Cantrip"@, Seq::empty()),
            SpellLevel::Level1 => RecordV::Tag("Level1"@, Seq::empty()),
            SpellLevel::Level2 => RecordV::Tag("Level2"@, Seq::empty()),
            SpellLevel::Level3 => RecordV::Tag("Level3"@, Seq::empty()),
            SpellLevel::Level4 => RecordV::Tag("Level4"@, Seq::empty()),
            SpellLevel::Level5 => RecordV::Tag("Level5"@, Seq::empty()),
            SpellLevel::Level6 => RecordV::Tag("Level6"@, Seq::empty()),
            SpellLevel::Level7 => RecordV::Tag("Level7"@, Seq::empty()),
            SpellLevel::Level8 => RecordV::Tag("Level8"@, Seq::empty()),
            SpellLevel::Level9 => RecordV::Tag("Level9"@, Seq::empty()),
        }
    }

    open spec fn spec_dec(r: RecordV) -> Option<SpellLevel> {
        match r {
            RecordV::Tag(t, args) => {
                if t == "Cantrip"@ && args.len() == 0 {
                    Some(SpellLevel::Cantrip)
                } else if t == "Level1"@ && args.len() == 0 {
                    Some(SpellLevel::Level1)
                } else if t == "Level2"@ && args.len() == 0 {
                    Some(SpellLevel::Level2)
                } else if t == "Level3"@ && args.len() == 0 {
                    Some(SpellLevel::Level3)
                } else if t == "Level4"@ && args.len() == 0 {
                    Some(SpellLevel::Level4)
                } else if t == "Level5"@ && args.len() == 0 {
                    Some(SpellLevel::Level5)
                } else if t == "Level6"@ && args.len() == 0 {
                    Some(SpellLevel::Level6)
                } else if t == "Level7"@ && args.len() == 0 {
                    Some(SpellLevel::Level7)
                } else if t == "Level8"@ && args.len() == 0 {
                    Some(SpellLevel::Level8)
                } else if t == "Level9"@ && args.len() == 0 {
                    Some(SpellLevel::Level9)
                } else {
                    None
                }
            },
            _ => None,
        }
    }

    fn to_record(&self) -> (r: Record) {
        match self {
            SpellLevel::Cantrip => {
                let r = Record::Tag(String::from_str("Cantrip"), Vec::new());
                proof {
                    assert(rec_views(Seq::<Record>::empty()) =~= Seq::<RecordV>::empty());
                }
                r
            },
            SpellLevel::Level1 => {
                let r = Record::Tag(String::from_str("Level1"), Vec::new());
                proof {
                    assert(rec_views(Seq::<Record>::empty()) =~= Seq::<RecordV>::empty());
                }
                r
            },
            SpellLevel::Level2 => {
                let r = Record::Tag(String::from_str("Level2"), Vec::new());
                proof {
                    assert(rec_views(Seq::<Record>::empty()) =~= Seq::<RecordV>::empty());
                }
                r
            },
            SpellLevel::Level3 => {
                let r = Record::Tag(String::from_str("Level3"), Vec::new());
                proof {
                    assert(rec_views(Seq::<Record>::empty()) =~= Seq::<RecordV>::empty());
                }
                r
            },
            SpellLevel::Level4 => {
                let r = Record::Tag(String::from_str("Level4"), Vec::new());
                proof {
                    assert(rec_views(Seq::<Record>::empty()) =~= Seq::<RecordV>::empty());
                }
                r
            },
            SpellLevel::Level5 => {
                let r = Record::Tag(String::from_str("Level5"), Vec::new());
                proof {
                    assert(rec_views(Seq::<Record>::empty()) =~= Seq::<RecordV>::empty());
                }
                r
            },
            SpellLevel::Level6 => {
                let r = Record::Tag(String::from_str("Level6"), Vec::new());
                proof {
                    assert(rec_views(Seq::<Record>::empty()) =~= Seq::<RecordV>::empty());
                }
                r
            },
            SpellLevel::Level7 => {
                let r = Record::Tag(String::from_str("Level7"), Vec::new());
                proof {
                    assert(rec_views(Seq::<Record>::empty()) =~= Seq::<RecordV>::empty());
                }
                r
            },
            SpellLevel::Level8 => {
                let r = Record::Tag(String::from_str("Level8"), Vec::new());
                proof {
                    assert(rec_views(Seq::<Record>::empty()) =~= Seq::<RecordV>::empty());
                }
                r
            },
            SpellLevel::Level9 => {
                let r = Record::Tag(String::from_str("Level9"), Vec::new());
                proof {
                    assert(rec_views(Seq::<Record>::empty()) =~= Seq::<RecordV>::empty());
                }
                r
            },
        }
    }

    fn from_record(r: &Record) -> (res: Result<SpellLevel, DecodeError>) {
        match r {
            Record::Tag(t, args) => {
                if str_eq(t.as_str(), "Cantrip") && args.len() == 0 {
                    Ok(SpellLevel::Cantrip)
                } else if str_eq(t.as_str(), "Level1") && args.len() == 0 {
                    Ok(SpellLevel::Level1)
                } else if str_eq(t.as_str(), "Level2") && args.len() == 0 {
                    Ok(SpellLevel::Level2)
                } else if str_eq(t.as_str(), "Level3") && args.len() == 0 {
                    Ok(SpellLevel::Level3)
                } else if str_eq(t.as_str(), "Level4") && args.len() == 0 {
                    Ok(SpellLevel::Level4)
                } else if str_eq(t.as_str(), "Level5") && args.len() == 0 {
                    Ok(SpellLevel::Level5)
                } else if str_eq(t.as_str(), "Level6") && args.len() == 0 {
                    Ok(SpellLevel::Level6)
                } else if str_eq(t.as_str(), "Level7") && args.len() == 0 {
                    Ok(SpellLevel::Level7)
                } else if str_eq(t.as_str(), "Level8") && args.len() == 0 {
                    Ok(SpellLevel::Level8)
                } else if str_eq(t.as_str(), "Level9") && args.len() == 0 {
                    Ok(SpellLevel::Level9)
                } else {
                    Err(DecodeError::Malformed)
                }
            },
            _ => Err(DecodeError::Malformed),
        }
    }

    proof fn lemma_round_trip(v: SpellLevel) {
        reveal_strlit("Cantrip");
        reveal_strlit("Level1");
        reveal_strlit("Level2");
        reveal_strlit("Level3");
        reveal_strlit("Level4");
        reveal_strlit("Level5");
        reveal_strlit("Level6");
        reveal_strlit("Level7");
        reveal_strlit("Level8");
        reveal_strlit("Level9");
        assert(("Level1"@) != ("Cantrip"@)) by {
            assert(("Level1"@)[0] == 'L');
            assert(("Cantrip"@)[0] == 'C');
        }
        assert(("Level2"@) != ("Cantrip"@)) by {
            assert(("Level2"@)[0] == 'L');
            assert(("Cantrip"@)[0] == 'C');
        }
        assert(("Level2"@) != ("Level1"@)) by {
            assert(("Level2"@)[5] == '2');
            assert(("Level1"@)[5] == '1');
        }
        assert(("Level3"@) != ("Cantrip"@)) by {
            assert(("Level3"@)[0] == 'L');
            assert(("Cantrip"@)[0] == 'C');
        }
        assert(("Level3"@) != ("Level1"@)) by {
            assert(("Level3"@)[5] == '3');
            assert(("Level1"@)[5] == '1');
        }
        assert(("Level3"@) != ("Level2"@)) by {
            assert(("Level3"@)[5] == '3');
            assert(("Level2"@)[5] == '2');
        }
        assert(("Level4"@) != ("Cantrip"@)) by {
            assert(("Level4"@)[0] == 'L');
            assert(("Cantrip"@)[0] == 'C');
        }
        assert(("Level4"@) != ("Level1"@)) by {
            assert(("Level4"@)[5] == '4');
            assert(("Level1"@)[5] == '1');
        }
        assert(("Level4"@) != ("Level2"@)) by {
            assert(("Level4"@)[5] == '4');
            assert(("Level2"@)[5] == '2');
        }
        assert(("Level4"@) != ("Level3"@)) by {
            assert(("Level4"@)[5] == '4');
            assert(("Level3"@)[5] == '3');
        }
        assert(("Level5"@) != ("Cantrip"@)) by {
            assert(("Level5"@)[0] == 'L');
            assert(("Cantrip"@)[0] == 'C');
        }
        assert(("Level5"@) != ("Level1"@)) by {
            assert(("Level5"@)[5] == '5');
            assert(("Level1"@)[5] == '1');
        }
        assert(("Level5"@) != ("Level2"@)) by {
            assert(("Level5"@)[5] == '5');
            assert(("Level2"@)[5] == '2');
        }
        assert(("Level5"@) != ("Level3"@)) by {
            assert(("Level5"@)[5] == '5');
            assert(("Level3"@)[5] == '3');
        }
        assert(("Level5"@) != ("Level4"@)) by {
            assert(("Level5"@)[5] == '5');
            assert(("Level4"@)[5] == '4');
        }
        assert(("Level6"@) != ("Cantrip"@)) by {
            assert(("Level6"@)[0] == 'L');
            assert(("Cantrip"@)[0] == 'C');
        }
        assert(("Level6"@) != ("Level1"@)) by {
            assert(("Level6"@)[5] == '6');
            assert(("Level1"@)[5] == '1');
        }
        assert(("Level6"@) != ("Level2"@)) by {
            assert(("Level6"@)[5] == '6');
            assert(("Level2"@)[5] == '2');
        }
        assert(("Level6"@) != ("Level3"@)) by {
            assert(("Level6"@)[5] == '6');
            assert(("Level3"@)[5] == '3');
        }
        assert(("Level6"@) != ("Level4"@)) by {
            assert(("Level6"@)[5] == '6');
            assert(("Level4"@)[5] == '4');
        }
        assert(("Level6"@) != ("Level5"@)) by {
            assert(("Level6"@)[5] == '6');
            assert(("Level5"@)[5] == '5');
        }
        assert(("Level7"@) != ("Cantrip"@)) by {
            assert(("Level7"@)[0] == 'L');
            assert(("Cantrip"@)[0] == 'C');
        }
        assert(("Level7"@) != ("Level1"@)) by {
            assert(("Level7"@)[5] == '7');
            assert(("Level1"@)[5] == '1');
        }
        assert(("Level7"@) != ("Level2"@)) by {
            assert(("Level7"@)[5] == '7');
            assert(("Level2"@)[5] == '2');
        }
        assert(("Level7"@) != ("Level3"@)) by {
            assert(("Level7"@)[5] == '7');
            assert(("Level3"@)[5] == '3');
        }
        assert(("Level7"@) != ("Level4"@)) by {
            assert(("Level7"@)[5] == '7');
            assert(("Level4"@)[5] == '4');
        }
        assert(("Level7"@) != ("Level5"@)) by {
            assert(("Level7"@)[5] == '7');
            assert(("Level5"@)[5] == '5');
        }
        assert(("Level7"@) != ("Level6"@)) by {
            assert(("Level7"@)[5] == '7');
            assert(("Level6"@)[5] == '6');
        }
        assert(("Level8"@) != ("Cantrip"@)) by {
            assert(("Level8"@)[0] == 'L');
            assert(("Cantrip"@)[0] == 'C');
        }
        assert(("Level8"@) != ("Level1"@)) by {
            assert(("Level8"@)[5] == '8');
            assert(("Level1"@)[5] == '1');
        }
        assert(("Level8"@) != ("Level2"@)) by {
            assert(("Level8"@)[5] == '8');
            assert(("Level2"@)[5] == '2');
        }
        assert(("Level8"@) != ("Level3"@)) by {
            assert(("Level8"@)[5] == '8');
            assert(("Level3"@)[5] == '3');
        }
        assert(("Level8"@) != ("Level4"@)) by {
            assert(("Level8"@)[5] == '8');
            assert(("Level4"@)[5] == '4');
        }
        assert(("Level8"@) != ("Level5"@)) by {
            assert(("Level8"@)[5] == '8');
            assert(("Level5"@)[5] == '5');
        }
        assert(("Level8"@) != ("Level6"@)) by {
            assert(("Level8"@)[5] == '8');
            assert(("Level6"@)[5] == '6');
        }
        assert(("Level8"@) != ("Level7"@)) by {
            assert(("Level8"@)[5] == '8');
            assert(("Level7"@)[5] == '7');
        }
        assert(("Level9"@) != ("Cantrip"@)) by {
            assert(("Level9"@)[0] == 'L');
            assert(("Cantrip"@)[0] == 'C');
        }
        assert(("Level9"@) != ("Level1"@)) by {
            assert(("Level9"@)[5] == '9');
            assert(("Level1"@)[5] == '1');
        }
        assert(("Level9"@) != ("Level2"@)) by {
            assert(("Level9"@)[5] == '9');
            assert(("Level2"@)[5] == '2');
        }
        assert(("Level9"@) != ("Level3"@)) by {
            assert(("Level9"@)[5] == '9');
            assert(("Level3"@)[5] == '3');
        }
        assert(("Level9"@) != ("Level4"@)) by {
            assert(("Level9"@)[5] == '9');
            assert(("Level4"@)[5] == '4');
        }
        assert(("Level9"@) != ("Level5"@)) by {
            assert(("Level9"@)[5] == '9');
            assert(("Level5"@)[5] == '5');
        }
        assert(("Level9"@) != ("Level6"@)) by {
            assert(("Level9"@)[5] == '9');
            assert(("Level6"@)[5] == '6');
        }
        assert(("Level9"@) != ("Level7"@)) by {
            assert(("Level9"@)[5] == '9');
            assert(("Level7"@)[5] == '7');
        }
        assert(("Level9"@) != ("Level8"@)) by {
            assert(("Level9"@)[5] == '9');
            assert(("Level8"@)[5] == '8');
        }
        match v {
            SpellLevel::Cantrip => {
                assert(Self::spec_dec(Self::spec_enc(SpellLevel::Cantrip)) == Some(SpellLevel::Cantrip));
            },
            SpellLevel::Level1 => {
                assert(Self::spec_dec(Self::spec_enc(SpellLevel::Level1)) == Some(SpellLevel::Level1));
            },
            SpellLevel::Level2 => {
                assert(Self::spec_dec(Self::spec_enc(SpellLevel::Level2)) == Some(SpellLevel::Level2));
            },
            SpellLevel::Level3 => {
                assert(Self::spec_dec(Self::spec_enc(SpellLevel::Level3)) == Some(SpellLevel::Level3));
            },
            SpellLevel::Level4 => {
                assert(Self::spec_dec(Self::spec_enc(SpellLevel::Level4)) == Some(SpellLevel::Level4));
            },
            SpellLevel::Level5 => {
                assert(Self::spec_dec(Self::spec_enc(SpellLevel::Level5)) == Some(SpellLevel::Level5));
            },
            SpellLevel::Level6 => {
                assert(Self::spec_dec(Self::spec_enc(SpellLevel::Level6)) == Some(SpellLevel::Level6));
            },
            SpellLevel::Level7 => {
                assert(Self::spec_dec(Self::spec_enc(SpellLevel::Level7)) == Some(SpellLevel::Level7));
            },
            SpellLevel::Level8 => {
                assert(Self::spec_dec(Self::spec_enc(SpellLevel::Level8)) == Some(SpellLevel::Level8));
            },
            SpellLevel::Level9 => {
                assert(Self::spec_dec(Self::spec_enc(SpellLevel::Level9)) == Some(SpellLevel::Level9));
            },
        }
    }
}

/// How long a spell takes to cast.
#[derive(Debug, Clone, Copy, PartialEq, Eq, Structural)]
pub enum CastingTime {
    Action,
    BonusAction,
    Reaction,
    Minute,
    Hour,
}

impl DeepView for CastingTime {
    type V = CastingTime;

    open spec fn deep_view(&self) -> CastingTime {
        *self
    }
}

impl CastingTime {
    /// The display text of this casting time.
    pub open spec fn spec_display(self) -> Seq<char> {
        match self {
            CastingTime::Action => "Action"@,
            CastingTime::BonusAction => "Bonus Action"@,
            CastingTime::Reaction => "Reaction"@,
            CastingTime::Minute => "Minute"@,
            CastingTime::Hour => "Hour"@,
        }
    }

    /// Renders the display text of this value.
    pub fn to_string(&self) -> (s: String)
        ensures
            s@ == self.spec_display(),
    {
        match self {
            CastingTime::Action => String::from_str("Action"),
            CastingTime::BonusAction => String::from_str("Bonus Action"),
            CastingTime::Reaction => String::from_str("Reaction"),
            CastingTime::Minute => String::from_str("Minute"),
            CastingTime::Hour => String::from_str("Hour"),
        }
    }
}

impl Codec for CastingTime {
    open spec fn spec_enc(v: CastingTime) -> RecordV {
        match v {
            CastingTime::Action => RecordV::Tag("Action"@, Seq::empty()),
            CastingTime::BonusAction => RecordV::Tag("BonusAction"@, Seq::empty()),
            CastingTime::Reaction => RecordV::Tag("Reaction"@, Seq::empty()),
            CastingTime::Minute => RecordV::Tag("Minute"@, Seq::empty()),
            CastingTime::Hour => RecordV::Tag("Hour"@, Seq::empty()),
        }
    }

    open spec fn spec_dec(r: RecordV) -> Option<CastingTime> {
        match r {
            RecordV::Tag(t, args) => {
                if t == "Action"@ && args.len() == 0 {
                    Some(CastingTime::Action)
                } else if t == "BonusAction"@ && args.len() == 0 {
                    Some(CastingTime::BonusAction)
                } else if t == "Reaction"@ && args.len() == 0 {
                    Some(CastingTime::Reaction)
                } else if t == "Minute"@ && args.len() == 0 {
                    Some(CastingTime::Minute)
                } else if t == "Hour"@ && args.len() == 0 {
                    Some(CastingTime::Hour)
                } else {
                    None
                }
            },
            _ => None,
        }
    }

    fn to_record(&self) -> (r: Record) {
        match self {
            CastingTime::Action => {
                let r = Record::Tag(String::from_str("Action"), Vec::new());
                proof {
                    assert(rec_views(Seq::<Record>::empty()) =~= Seq::<RecordV>::empty());
                }
                r
            },
            CastingTime::BonusAction => {
                let r = Record::Tag(String::from_str("BonusAction"), Vec::new());
                proof {
                    assert(rec_views(Seq::<Record>::empty()) =~= Seq::<RecordV>::empty());
                }
                r
            },
            CastingTime::Reaction => {
                let r = Record::Tag(String::from_str("Reaction"), Vec::new());
                proof {
                    assert(rec_views(Seq::<Record>::empty()) =~= Seq::<RecordV>::empty());
                }
                r
            },
            CastingTime::Minute => {
                let r = Record::Tag(String::from_str("Minute"), Vec::new());
                proof {
                    assert(rec_views(Seq::<Record>::empty()) =~= Seq::<RecordV>::empty());
                }
                r
            },
            CastingTime::Hour => {
                let r = Record::Tag(String::from_str("Hour"), Vec::new());
                proof {
                    assert(rec_views(Seq::<Record>::empty()) =~= Seq::<RecordV>::empty());
                }
                r
            },
        }
    }

    fn from_record(r: &Record) -> (res: Result<CastingTime, DecodeError>) {
        match r {
            Record::Tag(t, args) => {
                if str_eq(t.as_str(), "Action") && args.len() == 0 {
                    Ok(CastingTime::Action)
                } else if str_eq(t.as_str(), "BonusAction") && args.len() == 0 {
                    Ok(CastingTime::BonusAction)
                } else if str_eq(t.as_str(), "Reaction") && args.len() == 0 {
                    Ok(CastingTime::Reaction)
                } else if str_eq(t.as_str(), "Minute") && args.len() == 0 {
                    Ok(CastingTime::Minute)
                } else if str_eq(t.as_str(), "Hour") && args.len() == 0 {
                    Ok(CastingTime::Hour)
                } else {
                    Err(DecodeError::Malformed)
                }
            },
            _ => Err(DecodeError::Malformed),
        }
    }

    proof fn lemma_round_trip(v: CastingTime) {
        reveal_strlit("Action");
        reveal_strlit("BonusAction");
        reveal_strlit("Reaction");
        reveal_strlit("Minute");
        reveal_strlit("Hour");
        assert(("BonusAction"@) != ("Action"@)) by {
            assert(("BonusAction"@)[0] == 'B');
            assert(("Action"@)[0] == 'A');
        }
        assert(("Reaction"@) != ("Action"@)) by {
            assert(("Reaction"@)[0] == 'R');
            assert(("Action"@)[0] == 'A');
        }
        assert(("Reaction"@) != ("BonusAction"@)) by {
            assert(("Reaction"@)[0] == 'R');
            assert(("BonusAction"@)[0] == 'B');
        }
        assert(("Minute"@) != ("Action"@)) by {
            assert(("Minute"@)[0] == 'M');
            assert(("Action"@)[0] == 'A');
        }
        assert(("Minute"@) != ("BonusAction"@)) by {
            assert(("Minute"@)[0] == 'M');
            assert(("BonusAction"@)[0] == 'B');
        }
        assert(("Minute"@) != ("Reaction"@)) by {
            assert(("Minute"@)[0] == 'M');
            assert(("Reaction"@)[0] == 'R');
        }
        assert(("Hour"@) != ("Action"@)) by {
            assert(("Hour"@)[0] == 'H');
            assert(("Action"@)[0] == 'A');
        }
        assert(("Hour"@) != ("BonusAction"@)) by {
            assert(("Hour"@)[0] == 'H');
            assert(("BonusAction"@)[0] == 'B');
        }
        assert(("Hour"@) != ("Reaction"@)) by {
            assert(("Hour"@)[0] == 'H');
            assert(("Reaction"@)[0] == 'R');
        }
        assert(("Hour"@) != ("Minute"@)) by {
            assert(("Hour"@)[0] == 'H');
            assert(("Minute"@)[0] == 'M');
        }
        match v {
            CastingTime::Action => {
                assert(Self::spec_dec(Self::spec_enc(CastingTime::Action)) == Some(CastingTime::Action));
            },
            CastingTime::BonusAction => {
                assert(Self::spec_dec(Self::spec_enc(CastingTime::BonusAction)) == Some(CastingTime::BonusAction));
            },
            CastingTime::Reaction => {
                assert(Self::spec_dec(Self::spec_enc(CastingTime::Reaction)) == Some(CastingTime::Reaction));
            },
            CastingTime::Minute => {
                assert(Self::spec_dec(Self::spec_enc(CastingTime::Minute)) == Some(CastingTime::Minute));
            },
            CastingTime::Hour => {
                assert(Self::spec_dec(Self::spec_enc(CastingTime::Hour)) == Some(CastingTime::Hour));
            },
        }
    }
}

/// How long a spell's effect lasts.
#[derive(Debug, Clone, Copy, PartialEq, Eq, Structural)]
pub enum Duration {
    Instantaneous,
    Concentration,
    Minute,
    Hour,
    Day,
    UntilDispelled,
    UntilDispelledOrTriggered,
    UntilTriggered,
}

impl DeepView for Duration {
    type V = Duration;

    open spec fn deep_view(&self) -> Duration {
        *self
    }
}

impl Duration {
    /// The display text of this duration.
    pub open spec fn spec_display(self) -> Seq<char> {
        match self {
            Duration::Instantaneous => "Instantaneous"@,
            Duration::Concentration => "Concentration"@,
            Duration::Minute => "Minute"@,
            Duration::Hour => "Hour"@,
            Duration::Day => "Day"@,
            Duration::UntilDispelled => "Until Dispelled"@,
            Duration::UntilDispelledOrTriggered => "Until Dispelled or Triggered"@,
            Duration::UntilTriggered => "Until Triggered"@,
        }
    }

    /// Renders the display text of this value.
    pub fn to_string(&self) -> (s: String)
        ensures
            s@ == self.spec_display(),
    {
        match self {
            Duration::Instantaneous => String::from_str("Instantaneous"),
            Duration::Concentration => String::from_str("Concentration"),
            Duration::Minute => String::from_str("Minute"),
            Duration::Hour => String::from_str("Hour"),
            Duration::Day => String::from_str("Day"),
            Duration::UntilDispelled => String::from_str("Until Dispelled"),
            Duration::UntilDispelledOrTriggered => String::from_str("Until Dispelled or Triggered"),
            Duration::UntilTriggered => String::from_str("Until Triggered"),
        }
    }
}

impl Codec for Duration {
    open spec fn spec_enc(v: Duration) -> RecordV {
        match v {
            Duration::Instantaneous => RecordV::Tag("Instantaneous"@, Seq::empty()),
            Duration::Concentration => RecordV::Tag("Concentration"@, Seq::empty()),
            Duration::Minute => RecordV::Tag("Minute"@, Seq::empty()),
            Duration::Hour => RecordV::Tag("Hour"@, Seq::empty()),
            Duration::Day => RecordV::Tag("Day"@, Seq::empty()),
            Duration::UntilDispelled => RecordV::Tag("UntilDispelled"@, Seq::empty()),
            Duration::UntilDispelledOrTriggered => RecordV::Tag("UntilDispelledOrTriggered"@, Seq::empty()),
            Duration::UntilTriggered => RecordV::Tag("UntilTriggered"@, Seq::empty()),
        }
    }

    open spec fn spec_dec(r: RecordV) -> Option<Duration> {
        match r {
            RecordV::Tag(t, args) => {
                if t == "Instantaneous"@ && args.len() == 0 {
                    Some(Duration::Instantaneous)
                } else if t == "Concentration"@ && args.len() == 0 {
                    Some(Duration::Concentration)
                } else if t == "Minute"@ && args.len() == 0 {
                    Some(Duration::Minute)
                } else if t == "Hour"@ && args.len() == 0 {
                    Some(Duration::Hour)
                } else if t == "Day"@ && args.len() == 0 {
                    Some(Duration::Day)
                } else if t == "UntilDispelled"@ && args.len() == 0 {
                    Some(Duration::UntilDispelled)
                } else if t == "UntilDispelledOrTriggered"@ && args.len() == 0 {
                    Some(Duration::UntilDispelledOrTriggered)
                } else if t == "UntilTriggered"@ && args.len() == 0 {
                    Some(Duration::UntilTriggered)
                } else {
                    None
                }
            },
            _ => None,
        }
    }

    fn to_record(&self) -> (r: Record) {
        match self {
            Duration::Instantaneous => {
                let r = Record::Tag(String::from_str("Instantaneous"), Vec::new());
                proof {
                    assert(rec_views(Seq::<Record>::empty()) =~= Seq::<RecordV>::empty());
                }
                r
            },
            Duration::Concentration => {
                let r = Record::Tag(String::from_str("Concentration"), Vec::new());
                proof {
                    assert(rec_views(Seq::<Record>::empty()) =~= Seq::<RecordV>::empty());
                }
                r
            },
            Duration::Minute => {
                let r = Record::Tag(String::from_str("Minute"), Vec::new());
                proof {
                    assert(rec_views(Seq::<Record>::empty()) =~= Seq::<RecordV>::empty());
                }
                r
            },
            Duration::Hour => {
                let r = Record::Tag(String::from_str("Hour"), Vec::new());
                proof {
                    assert(rec_views(Seq::<Record>::empty()) =~= Seq::<RecordV>::empty());
                }
                r
            },
            Duration::Day => {
                let r = Record::Tag(String::from_str("Day"), Vec::new());
                proof {
                    assert(rec_views(Seq::<Record>::empty()) =~= Seq::<RecordV>::empty());
                }
                r
            },
            Duration::UntilDispelled => {
                let r = Record::Tag(String::from_str("UntilDispelled"), Vec::new());
                proof {
                    assert(rec_views(Seq::<Record>::empty()) =~= Seq::<RecordV>::empty());
                }
                r
            },
            Duration::UntilDispelledOrTriggered => {
                let r = Record::Tag(String::from_str("UntilDispelledOrTriggered"), Vec::new());
                proof {
                    assert(rec_views(Seq::<Record>::empty()) =~= Seq::<RecordV>::empty());
                }
                r
            },
            Duration::UntilTriggered => {
                let r = Record::Tag(String::from_str("UntilTriggered"), Vec::new());
                proof {
                    assert(rec_views(Seq::<Record>::empty()) =~= Seq::<RecordV>::empty());
                }
                r
            },
        }
    }

    fn from_record(r: &Record) -> (res: Result<Duration, DecodeError>) {
        match r {
            Record::Tag(t, args) => {
                if str_eq(t.as_str(), "Instantaneous") && args.len() == 0 {
                    Ok(Duration::Instantaneous)
                } else if str_eq(t.as_str(), "Concentration") && args.len() == 0 {
                    Ok(Duration::Concentration)
                } else if str_eq(t.as_str(), "Minute") && args.len() == 0 {
                    Ok(Duration::Minute)
                } else if str_eq(t.as_str(), "Hour") && args.len() == 0 {
                    Ok(Duration::Hour)
                } else if str_eq(t.as_str(), "Day") && args.len() == 0 {
                    Ok(Duration::Day)
                } else if str_eq(t.as_str(), "UntilDispelled") && args.len() == 0 {
                    Ok(Duration::UntilDispelled)
                } else if str_eq(t.as_str(), "UntilDispelledOrTriggered") && args.len() == 0 {
                    Ok(Duration::UntilDispelledOrTriggered)
                } else if str_eq(t.as_str(), "UntilTriggered") && args.len() == 0 {
                    Ok(Duration::UntilTriggered)
                } else {
                    Err(DecodeError::Malformed)
                }
            },
            _ => Err(DecodeError::Malformed),
        }
    }

    proof fn lemma_round_trip(v: Duration) {
        reveal_strlit("Instantaneous");
        reveal_strlit("Concentration");
        reveal_strlit("Minute");
        reveal_strlit("Hour");
        reveal_strlit("Day");
        reveal_strlit("UntilDispelled");
        reveal_strlit("UntilDispelledOrTriggered");
        reveal_strlit("UntilTriggered");
        assert(("Concentration"@) != ("Instantaneous"@)) by {
            assert(("Concentration"@)[0] == 'C');
            assert(("Instantaneous"@)[0] == 'I');
        }
        assert(("Minute"@) != ("Instantaneous"@)) by {
            assert(("Minute"@)[0] == 'M');
            assert(("Instantaneous"@)[0] == 'I');
        }
        assert(("Minute"@) != ("Concentration"@)) by {
            assert(("Minute"@)[0] == 'M');
            assert(("Concentration"@)[0] == 'C');
        }
        assert(("Hour"@) != ("Instantaneous"@)) by {
            assert(("Hour"@)[0] == 'H');
            assert(("Instantaneous"@)[0] == 'I');
        }
        assert(("Hour"@) != ("Concentration"@)) by {
            assert(("Hour"@)[0] == 'H');
            assert(("Concentration"@)[0] == 'C');
        }
        assert(("Hour"@) != ("Minute"@)) by {
            assert(("Hour"@)[0] == 'H');
            assert(("Minute"@)[0] == 'M');
        }
        assert(("Day"@) != ("Instantaneous"@)) by {
            assert(("Day"@)[0] == 'D');
            assert(("Instantaneous"@)[0] == 'I');
        }
        assert(("Day"@) != ("Concentration"@)) by {
            assert(("Day"@)[0] == 'D');
            assert(("Concentration"@)[0] == 'C');
        }
        assert(("Day"@) != ("Minute"@)) by {
            assert(("Day"@)[0] == 'D');
            assert(("Minute"@)[0] == 'M');
        }
        assert(("Day"@) != ("Hour"@)) by {
            assert(("Day"@)[0] == 'D');
            assert(("Hour"@)[0] == 'H');
        }
        assert(("UntilDispelled"@) != ("Instantaneous"@)) by {
            assert(("UntilDispelled"@)[0] == 'U');
            assert(("Instantaneous"@)[0] == 'I');
        }
        assert(("UntilDispelled"@) != ("Concentration"@)) by {
            assert(("UntilDispelled"@)[0] == 'U');
            assert(("Concentration"@)[0] == 'C');
        }
        assert(("UntilDispelled"@) != ("Minute"@)) by {
            assert(("UntilDispelled"@)[0] == 'U');
            assert(("Minute"@)[0] == 'M');
        }
        assert(("UntilDispelled"@) != ("Hour"@)) by {
            assert(("UntilDispelled"@)[0] == 'U');
            assert(("Hour"@)[0] == 'H');
        }
        assert(("UntilDispelled"@) != ("Day"@)) by {
            assert(("UntilDispelled"@)[0] == 'U');
            assert(("Day"@)[0] == 'D');
        }
        assert(("UntilDispelledOrTriggered"@) != ("Instantaneous"@)) by {
            assert(("UntilDispelledOrTriggered"@)[0] == 'U');
            assert(("Instantaneous"@)[0] == 'I');
        }
        assert(("UntilDispelledOrTriggered"@) != ("Concentration"@)) by {
            assert(("UntilDispelledOrTriggered"@)[0] == 'U');
            assert(("Concentration"@)[0] == 'C');
        }
        assert(("UntilDispelledOrTriggered"@) != ("Minute"@)) by {
            assert(("UntilDispelledOrTriggered"@)[0] == 'U');
            assert(("Minute"@)[0] == 'M');
        }
        assert(("UntilDispelledOrTriggered"@) != ("Hour"@)) by {
            assert(("UntilDispelledOrTriggered"@)[0] == 'U');
            assert(("Hour"@)[0] == 'H');
        }
        assert(("UntilDispelledOrTriggered"@) != ("Day"@)) by {
            assert(("UntilDispelledOrTriggered"@)[0] == 'U');
            assert(("Day"@)[0] == 'D');
        }
        assert(("UntilDispelledOrTriggered"@) != ("UntilDispelled"@)) by {
            assert(("UntilDispelledOrTriggered"@).len() == 25);
            assert(("UntilDispelled"@).len() == 14);
        }
        assert(("UntilTriggered"@) != ("Instantaneous"@)) by {
            assert(("UntilTriggered"@)[0] == 'U');
            assert(("Instantaneous"@)[0] == 'I');
        }
        assert(("UntilTriggered"@) != ("Concentration"@)) by {
            assert(("UntilTriggered"@)[0] == 'U');
            assert(("Concentration"@)[0] == 'C');
        }
        assert(("UntilTriggered"@) != ("Minute"@)) by {
            assert(("UntilTriggered"@)[0] == 'U');
            assert(("Minute"@)[0] == 'M');
        }
        assert(("UntilTriggered"@) != ("Hour"@)) by {
            assert(("UntilTriggered"@)[0] == 'U');
            assert(("Hour"@)[0] == 'H');
        }
        assert(("UntilTriggered"@) != ("Day"@)) by {
            assert(("UntilTriggered"@)[0] == 'U');
            assert(("Day"@)[0] == 'D');
        }
        assert(("UntilTriggered"@) != ("UntilDispelled"@)) by {
            assert(("UntilTriggered"@)[5] == 'T');
            assert(("UntilDispelled"@)[5] == 'D');
        }
        assert(("UntilTriggered"@) != ("UntilDispelledOrTriggered"@)) by {
            assert(("UntilTriggered"@)[5] == 'T');
            assert(("UntilDispelledOrTriggered"@)[5] == 'D');
        }
        match v {
            Duration::Instantaneous => {
                assert(Self::spec_dec(Self::spec_enc(Duration::Instantaneous)) == Some(Duration::Instantaneous));
            },
            Duration::Concentration => {
                assert(Self::spec_dec(Self::spec_enc(Duration::Concentration)) == Some(Duration::Concentration));
            },
            Duration::Minute => {
                assert(Self::spec_dec(Self::spec_enc(Duration::Minute)) == Some(Duration::Minute));
            },
            Duration::Hour => {
                assert(Self::spec_dec(Self::spec_enc(Duration::Hour)) == Some(Duration::Hour));
            },
            Duration::Day => {
                assert(Self::spec_dec(Self::spec_enc(Duration::Day)) == Some(Duration::Day));
            },
            Duration::UntilDispelled => {
                assert(Self::spec_dec(Self::spec_enc(Duration::UntilDispelled)) == Some(Duration::UntilDispelled));
            },
            Duration::UntilDispelledOrTriggered => {
                assert(Self::spec_dec(Self::spec_enc(Duration::UntilDispelledOrTriggered)) == Some(Duration::UntilDispelledOrTriggered));
            },
            Duration::UntilTriggered => {
                assert(Self::spec_dec(Self::spec_enc(Duration::UntilTriggered)) == Some(Duration::UntilTriggered));
            },
        }
    }
}

/// The range of a spell: the caster, a touched target, or a distance in feet.
#[derive(Debug, Clone, Copy, PartialEq, Eq, Structural)]
pub enum SpellRange {
    S,
    Touch,
    Range(i32),
}

impl DeepView for SpellRange {
    type V = SpellRange;

    open spec fn deep_view(&self) -> SpellRange {
        *self
    }
}

impl SpellRange {
    /// The display text of this range: `"Self"`, `"Touch"`, or the distance.
    pub open spec fn spec_display(self) -> Seq<char> {
        match self {
            SpellRange::S => "Self"@,
            SpellRange::Touch => "Touch"@,
            SpellRange::Range(range) => dec_str(range as int),
        }
    }

    /// Renders the display text of this range.
    pub fn to_string(&self) -> (s: String)
        ensures
            s@ == self.spec_display(),
    {
        match self {
            SpellRange::S => String::from_str("Self"),
            SpellRange::Touch => String::from_str("Touch"),
            SpellRange::Range(range) => dec_string(*range as i64),
        }
    }
}

impl Codec for SpellRange {
    open spec fn spec_enc(v: SpellRange) -> RecordV {
        match v {
            SpellRange::S => RecordV::Tag("S"@, Seq::empty()),
            SpellRange::Touch => RecordV::Tag("Touch"@, Seq::empty()),
            SpellRange::Range(a0) => RecordV::Tag("Range"@, seq![<i32 as Codec>::spec_enc(a0)]),
        }
    }

    open spec fn spec_dec(r: RecordV) -> Option<SpellRange> {
        match r {
            RecordV::Tag(t, args) => {
                if t == "S"@ && args.len() == 0 {
                    Some(SpellRange::S)
                } else if t == "Touch"@ && args.len() == 0 {
                    Some(SpellRange::Touch)
                } else if t == "Range"@ && args.len() == 1 {
                    match <i32 as Codec>::spec_dec(args[0]) {
                        Some(a0) => Some(SpellRange::Range(a0)),
                        None => None,
                    }
                } else {
                    None
                }
            },
            _ => None,
        }
    }

    fn to_record(&self) -> (r: Record) {
        match self {
            SpellRange::S => {
                let r = Record::Tag(String::from_str("S"), Vec::new());
                proof {
                    assert(rec_views(Seq::<Record>::empty()) =~= Seq::<RecordV>::empty());
                }
                r
            },
            SpellRange::Touch => {
                let r = Record::Tag(String::from_str("Touch"), Vec::new());
                proof {
                    assert(rec_views(Seq::<Record>::empty()) =~= Seq::<RecordV>::empty());
                }
                r
            },
            SpellRange::Range(a0) => {
                let mut args: Vec<Record> = Vec::new();
                args.push(a0.to_record());
                let r = Record::Tag(String::from_str("Range"), args);
                proof {
                    assert(rec_views(args@) =~= seq![<i32 as Codec>::spec_enc(*a0)]);
                }
                r
            },
        }
    }

    fn from_record(r: &Record) -> (res: Result<SpellRange, DecodeError>) {
        match r {
            Record::Tag(t, args) => {
                if str_eq(t.as_str(), "S") && args.len() == 0 {
                    Ok(SpellRange::S)
                } else if str_eq(t.as_str(), "Touch") && args.len() == 0 {
                    Ok(SpellRange::Touch)
                } else if str_eq(t.as_str(), "Range") && args.len() == 1 {
                    let a0 = match <i32>::from_record(&args[0]) {
                        Ok(x) => x,
                        Err(e) => return Err(e),
                    };
                    Ok(SpellRange::Range(a0))
                } else {
                    Err(DecodeError::Malformed)
                }
            },
            _ => Err(DecodeError::Malformed),
        }
    }

    proof fn lemma_round_trip(v: SpellRange) {
        reveal_strlit("S");
        reveal_strlit("Touch");
        reveal_strlit("Range");
        assert(("Touch"@) != ("S"@)) by {
            assert(("Touch"@)[0] == 'T');
            assert(("S"@)[0] == 'S');
        }
        assert(("Range"@) != ("S"@)) by {
            assert(("Range"@)[0] == 'R');
            assert(("S"@)[0] == 'S');
        }
        assert(("Range"@) != ("Touch"@)) by {
            assert(("Range"@)[0] == 'R');
            assert(("Touch"@)[0] == 'T');
        }
        match v {
            SpellRange::S => {
                assert(Self::spec_dec(Self::spec_enc(SpellRange::S)) == Some(SpellRange::S));
            },
            SpellRange::Touch => {
                assert(Self::spec_dec(Self::spec_enc(SpellRange::Touch)) == Some(SpellRange::Touch));
            },
            SpellRange::Range(a0) => {
                <i32 as Codec>::lemma_round_trip(a0);
                assert(Self::spec_dec(Self::spec_enc(v)) == Some(v));
            },
        }
    }
}

/// The shape of a spell's area of effect, with its size in feet.
#[derive(Debug, Clone, Copy, PartialEq, Eq, Structural)]
pub enum Area {
    Cube(i32),
    Sphere(i32),
    Cone(i32),
    Line(i32),
    Cylinder(i32),
    Wall(i32),
}

impl DeepView for Area {
    type V = Area;

    open spec fn deep_view(&self) -> Area {
        *self
    }
}

impl Area {
    /// The display text of this area: `"{size} ft. {Shape}"`.
    pub open spec fn spec_display(self) -> Seq<char> {
        match self {
            Area::Cube(size) => dec_str(size as int) + " ft. Cube"@,
            Area::Sphere(size) => dec_str(size as int) + " ft. Sphere"@,
            Area::Cone(size) => dec_str(size as int) + " ft. Cone"@,
            Area::Line(size) => dec_str(size as int) + " ft. Line"@,
            Area::Cylinder(size) => dec_str(size as int) + " ft. Cylinder"@,
            Area::Wall(size) => dec_str(size as int) + " ft. Wall"@,
        }
    }

    /// Renders the display text of this area.
    pub fn to_string(&self) -> (s: String)
        ensures
            s@ == self.spec_display(),
    {
        let (size, label) = match self {
            Area::Cube(size) => (*size, " ft. Cube"),
            Area::Sphere(size) => (*size, " ft. Sphere"),
            Area::Cone(size) => (*size, " ft. Cone"),
            Area::Line(size) => (*size, " ft. Line"),
            Area::Cylinder(size) => (*size, " ft. Cylinder"),
            Area::Wall(size) => (*size, " ft. Wall"),
        };
        let mut s = dec_string(size as i64);
        s.append(label);
        s
    }
}

impl Codec for Area {
    open spec fn spec_enc(v: Area) -> RecordV {
        match v {
            Area::Cube(a0) => RecordV::Tag("Cube"@, seq![<i32 as Codec>::spec_enc(a0)]),
            Area::Sphere(a0) => RecordV::Tag("Sphere"@, seq![<i32 as Codec>::spec_enc(a0)]),
            Area::Cone(a0) => RecordV::Tag("Cone"@, seq![<i32 as Codec>::spec_enc(a0)]),
            Area::Line(a0) => RecordV::Tag("Line"@, seq![<i32 as Codec>::spec_enc(a0)]),
            Area::Cylinder(a0) => RecordV::Tag("Cylinder"@, seq![<i32 as Codec>::spec_enc(a0)]),
            Area::Wall(a0) => RecordV::Tag("Wall"@, seq![<i32 as Codec>::spec_enc(a0)]),
        }
    }

    open spec fn spec_dec(r: RecordV) -> Option<Area> {
        match r {
            RecordV::Tag(t, args) => {
                if t == "Cube"@ && args.len() == 1 {
                    match <i32 as Codec>::spec_dec(args[0]) {
                        Some(a0) => Some(Area::Cube(a0)),
                        None => None,
                    }
                } else if t == "Sphere"@ && args.len() == 1 {
                    match <i32 as Codec>::spec_dec(args[0]) {
                        Some(a0) => Some(Area::Sphere(a0)),
                        None => None,
                    }
                } else if t == "Cone"@ && args.len() == 1 {
                    match <i32 as Codec>::spec_dec(args[0]) {
                        Some(a0) => Some(Area::Cone(a0)),
                        None => None,
                    }
                } else if t == "Line"@ && args.len() == 1 {
                    match <i32 as Codec>::spec_dec(args[0]) {
                        Some(a0) => Some(Area::Line(a0)),
                        None => None,
                    }
                } else if t == "Cylinder"@ && args.len() == 1 {
                    match <i32 as Codec>::spec_dec(args[0]) {
                        Some(a0) => Some(Area::Cylinder(a0)),
                        None => None,
                    }
                } else if t == "Wall"@ && args.len() == 1 {
                    match <i32 as Codec>::spec_dec(args[0]) {
                        Some(a0) => Some(Area::Wall(a0)),
                        None => None,
                    }
                } else {
                    None
                }
            },
            _ => None,
        }
    }

    fn to_record(&self) -> (r: Record) {
        match self {
            Area::Cube(a0) => {
                let mut args: Vec<Record> = Vec::new();
                args.push(a0.to_record());
                let r = Record::Tag(String::from_str("Cube"), args);
                proof {
                    assert(rec_views(args@) =~= seq![<i32 as Codec>::spec_enc(*a0)]);
                }
                r
            },
            Area::Sphere(a0) => {
                let mut args: Vec<Record> = Vec::new();
                args.push(a0.to_record());
                let r = Record::Tag(String::from_str("Sphere"), args);
                proof {
                    assert(rec_views(args@) =~= seq![<i32 as Codec>::spec_enc(*a0)]);
                }
                r
            },
            Area::Cone(a0) => {
                let mut args: Vec<Record> = Vec::new();
                args.push(a0.to_record());
                let r = Record::Tag(String::from_str("Cone"), args);
                proof {
                    assert(rec_views(args@) =~= seq![<i32 as Codec>::spec_enc(*a0)]);
                }
                r
            },
            Area::Line(a0) => {
                let mut args: Vec<Record> = Vec::new();
                args.push(a0.to_record());
                let r = Record::Tag(String::from_str("Line"), args);
                proof {
                    assert(rec_views(args@) =~= seq![<i32 as Codec>::spec_enc(*a0)]);
                }
                r
            },
            Area::Cylinder(a0) => {
                let mut args: Vec<Record> = Vec::new();
                args.push(a0.to_record());
                let r = Record::Tag(String::from_str("Cylinder"), args);
                proof {
                    assert(rec_views(args@) =~= seq![<i32 as Codec>::spec_enc(*a0)]);
                }
                r
            },
            Area::Wall(a0) => {
                let mut args: Vec<Record> = Vec::new();
                args.push(a0.to_record());
                let r = Record::Tag(String::from_str("Wall"), args);
                proof {
                    assert(rec_views(args@) =~= seq![<i32 as Codec>::spec_enc(*a0)]);
                }
                r
            },
        }
    }

    fn from_record(r: &Record) -> (res: Result<Area, DecodeError>) {
        match r {
            Record::Tag(t, args) => {
                if str_eq(t.as_str(), "Cube") && args.len() == 1 {
                    let a0 = match <i32>::from_record(&args[0]) {
                        Ok(x) => x,
                        Err(e) => return Err(e),
                    };
                    Ok(Area::Cube(a0))
                } else if str_eq(t.as_str(), "Sphere") && args.len() == 1 {
                    let a0 = match <i32>::from_record(&args[0]) {
                        Ok(x) => x,
                        Err(e) => return Err(e),
                    };
                    Ok(Area::Sphere(a0))
                } else if str_eq(t.as_str(), "Cone") && args.len() == 1 {
                    let a0 = match <i32>::from_record(&args[0]) {
                        Ok(x) => x,
                        Err(e) => return Err(e),
                    };
                    Ok(Area::Cone(a0))
                } else if str_eq(t.as_str(), "Line") && args.len() == 1 {
                    let a0 = match <i32>::from_record(&args[0]) {
                        Ok(x) => x,
                        Err(e) => return Err(e),
                    };
                    Ok(Area::Line(a0))
                } else if str_eq(t.as_str(), "Cylinder") && args.len() == 1 {
                    let a0 = match <i32>::from_record(&args[0]) {
                        Ok(x) => x,
                        Err(e) => return Err(e),
                    };
                    Ok(Area::Cylinder(a0))
                } else if str_eq(t.as_str(), "Wall") && args.len() == 1 {
                    let a0 = match <i32>::from_record(&args[0]) {
                        Ok(x) => x,
                        Err(e) => return Err(e),
                    };
                    Ok(Area::Wall(a0))
                } else {
                    Err(DecodeError::Malformed)
                }
            },
            _ => Err(DecodeError::Malformed),
        }
    }

    proof fn lemma_round_trip(v: Area) {
        reveal_strlit("Cube");
        reveal_strlit("Sphere");
        reveal_strlit("Cone");
        reveal_strlit("Line");
        reveal_strlit("Cylinder");
        reveal_strlit("Wall");
        assert(("Sphere"@) != ("Cube"@)) by {
            assert(("Sphere"@)[0] == 'S');
            assert(("Cube"@)[0] == 'C');
        }
        assert(("Cone"@) != ("Cube"@)) by {
            assert(("Cone"@)[1] == 'o');
            assert(("Cube"@)[1] == 'u');
        }
        assert(("Cone"@) != ("Sphere"@)) by {
            assert(("Cone"@)[0] == 'C');
            assert(("Sphere"@)[0] == 'S');
        }
        assert(("Line"@) != ("Cube"@)) by {
            assert(("Line"@)[0] == 'L');
            assert(("Cube"@)[0] == 'C');
        }
        assert(("Line"@) != ("Sphere"@)) by {
            assert(("Line"@)[0] == 'L');
            assert(("Sphere"@)[0] == 'S');
        }
        assert(("Line"@) != ("Cone"@)) by {
            assert(("Line"@)[0] == 'L');
            assert(("Cone"@)[0] == 'C');
        }
        assert(("Cylinder"@) != ("Cube"@)) by {
            assert(("Cylinder"@)[1] == 'y');
            assert(("Cube"@)[1] == 'u');
        }
        assert(("Cylinder"@) != ("Sphere"@)) by {
            assert(("Cylinder"@)[0] == 'C');
            assert(("Sphere"@)[0] == 'S');
        }
        assert(("Cylinder"@) != ("Cone"@)) by {
            assert(("Cylinder"@)[1] == 'y');
            assert(("Cone"@)[1] == 'o');
        }
        assert(("Cylinder"@) != ("Line"@)) by {
            assert(("Cylinder"@)[0] == 'C');
            assert(("Line"@)[0] == 'L');
        }
        assert(("Wall"@) != ("Cube"@)) by {
            assert(("Wall"@)[0] == 'W');
            assert(("Cube"@)[0] == 'C');
        }
        assert(("Wall"@) != ("Sphere"@)) by {
            assert(("Wall"@)[0] == 'W');
            assert(("Sphere"@)[0] == 'S');
        }
        assert(("Wall"@) != ("Cone"@)) by {
            assert(("Wall"@)[0] == 'W');
            assert(("Cone"@)[0] == 'C');
        }
        assert(("Wall"@) != ("Line"@)) by {
            assert(("Wall"@)[0] == 'W');
            assert(("Line"@)[0] == 'L');
        }
        assert(("Wall"@) != ("Cylinder"@)) by {
            assert(("Wall"@)[0] == 'W');
            assert(("Cylinder"@)[0] == 'C');
        }
        match v {
            Area::Cube(a0) => {
                <i32 as Codec>::lemma_round_trip(a0);
                assert(Self::spec_dec(Self::spec_enc(v)) == Some(v));
            },
            Area::Sphere(a0) => {
                <i32 as Codec>::lemma_round_trip(a0);
                assert(Self::spec_dec(Self::spec_enc(v)) == Some(v));
            },
            Area::Cone(a0) => {
                <i32 as Codec>::lemma_round_trip(a0);
                assert(Self::spec_dec(Self::spec_enc(v)) == Some(v));
            },
            Area::Line(a0) => {
                <i32 as Codec>::lemma_round_trip(a0);
                assert(Self::spec_dec(Self::spec_enc(v)) == Some(v));
            },
            Area::Cylinder(a0) => {
                <i32 as Codec>::lemma_round_trip(a0);
                assert(Self::spec_dec(Self::spec_enc(v)) == Some(v));
            },
            Area::Wall(a0) => {
                <i32 as Codec>::lemma_round_trip(a0);
                assert(Self::spec_dec(Self::spec_enc(v)) == Some(v));
            },
        }
    }
}

/// Which of the verbal, somatic and material components a spell needs.
#[derive(Debug, Clone, Copy, PartialEq, Eq, Structural)]
pub enum Components {
    V,
    S,
    M,
    VS,
    VM,
    SM,
    VSM,
}

impl DeepView for Components {
    type V = Components;

    open spec fn deep_view(&self) -> Components {
        *self
    }
}

impl Components {
    /// The display text of this component set.
    pub open spec fn spec_display(self) -> Seq<char> {
        match self {
            Components::V => "V"@,
            Components::S => "S"@,
            Components::M => "M"@,
            Components::VS => "V, S"@,
            Components::VM => "V, M"@,
            Components::SM => "S, M"@,
            Components::VSM => "V, S, M"@,
        }
    }

    /// Renders the display text of this value.
    pub fn to_string(&self) -> (s: String)
        ensures
            s@ == self.spec_display(),
    {
        match self {
            Components::V => String::from_str("V"),
            Components::S => String::from_str("S"),
            Components::M => String::from_str("M"),
            Components::VS => String::from_str("V, S"),
            Components::VM => String::from_str("V, M"),
            Components::SM => String::from_str("S, M"),
            Components::VSM => String::from_str("V, S, M"),
        }
    }
}

impl Codec for Components {
    open spec fn spec_enc(v: Components) -> RecordV {
        match v {
            Components::V => RecordV::Tag("V"@, Seq::empty()),
            Components::S => RecordV::Tag("S"@, Seq::empty()),
            Components::M => RecordV::Tag("M"@, Seq::empty()),
            Components::VS => RecordV::Tag("VS"@, Seq::empty()),
            Components::VM => RecordV::Tag("VM"@, Seq::empty()),
            Components::SM => RecordV::Tag("SM"@, Seq::empty()),
            Components::VSM => RecordV::Tag("VSM"@, Seq::empty()),
        }
    }

    open spec fn spec_dec(r: RecordV) -> Option<Components> {
        match r {
            RecordV::Tag(t, args) => {
                if t == "V"@ && args.len() == 0 {
                    Some(Components::V)
                } else if t == "S"@ && args.len() == 0 {
                    Some(Components::S)
                } else if t == "M"@ && args.len() == 0 {
                    Some(Components::M)
                } else if t == "VS"@ && args.len() == 0 {
                    Some(Components::VS)
                } else if t == "VM"@ && args.len() == 0 {
                    Some(Components::VM)
                } else if t == "SM"@ && args.len() == 0 {
                    Some(Components::SM)
                } else if t == "VSM"@ && args.len() == 0 {
                    Some(Components::VSM)
                } else {
                    None
                }
            },
            _ => None,
        }
    }

    fn to_record(&self) -> (r: Record) {
        match self {
            Components::V => {
                let r = Record::Tag(String::from_str("V"), Vec::new());
                proof {
                    assert(rec_views(Seq::<Record>::empty()) =~= Seq::<RecordV>::empty());
                }
                r
            },
            Components::S => {
                let r = Record::Tag(String::from_str("S"), Vec::new());
                proof {
                    assert(rec_views(Seq::<Record>::empty()) =~= Seq::<RecordV>::empty());
                }
                r
            },
            Components::M => {
                let r = Record::Tag(String::from_str("M"), Vec::new());
                proof {
                    assert(rec_views(Seq::<Record>::empty()) =~= Seq::<RecordV>::empty());
                }
                r
            },
            Components::VS => {
                let r = Record::Tag(String::from_str("VS"), Vec::new());
                proof {
                    assert(rec_views(Seq::<Record>::empty()) =~= Seq::<RecordV>::empty());
                }
                r
            },
            Components::VM => {
                let r = Record::Tag(String::from_str("VM"), Vec::new());
                proof {
                    assert(rec_views(Seq::<Record>::empty()) =~= Seq::<RecordV>::empty());
                }
                r
            },
            Components::SM => {
                let r = Record::Tag(String::from_str("SM"), Vec::new());
                proof {
                    assert(rec_views(Seq::<Record>::empty()) =~= Seq::<RecordV>::empty());
                }
                r
            },
            Components::VSM => {
                let r = Record::Tag(String::from_str("VSM"), Vec::new());
                proof {
                    assert(rec_views(Seq::<Record>::empty()) =~= Seq::<RecordV>::empty());
                }
                r
            },
        }
    }

    fn from_record(r: &Record) -> (res: Result<Components, DecodeError>) {
        match r {
            Record::Tag(t, args) => {
                if str_eq(t.as_str(), "V") && args.len() == 0 {
                    Ok(Components::V)
                } else if str_eq(t.as_str(), "S") && args.len() == 0 {
                    Ok(Components::S)
                } else if str_eq(t.as_str(), "M") && args.len() == 0 {
                    Ok(Components::M)
                } else if str_eq(t.as_str(), "VS") && args.len() == 0 {
                    Ok(Components::VS)
                } else if str_eq(t.as_str(), "VM") && args.len() == 0 {
                    Ok(Components::VM)
                } else if str_eq(t.as_str(), "SM") && args.len() == 0 {
                    Ok(Components::SM)
                } else if str_eq(t.as_str(), "VSM") && args.len() == 0 {
                    Ok(Components::VSM)
                } else {
                    Err(DecodeError::Malformed)
                }
            },
            _ => Err(DecodeError::Malformed),
        }
    }

    proof fn lemma_round_trip(v: Components) {
        reveal_strlit("V");
        reveal_strlit("S");
        reveal_strlit("M");
        reveal_strlit("VS");
        reveal_strlit("VM");
        reveal_strlit("SM");
        reveal_strlit("VSM");
        assert(("S"@) != ("V"@)) by {
            assert(("S"@)[0] == 'S');
            assert(("V"@)[0] == 'V');
        }
        assert(("M"@) != ("V"@)) by {
            assert(("M"@)[0] == 'M');
            assert(("V"@)[0] == 'V');
        }
        assert(("M"@) != ("S"@)) by {
            assert(("M"@)[0] == 'M');
            assert(("S"@)[0] == 'S');
        }
        assert(("VS"@) != ("V"@)) by {
            assert(("VS"@).len() == 2);
            assert(("V"@).len() == 1);
        }
        assert(("VS"@) != ("S"@)) by {
            assert(("VS"@)[0] == 'V');
            assert(("S"@)[0] == 'S');
        }
        assert(("VS"@) != ("M"@)) by {
            assert(("VS"@)[0] == 'V');
            assert(("M"@)[0] == 'M');
        }
        assert(("VM"@) != ("V"@)) by {
            assert(("VM"@).len() == 2);
            assert(("V"@).len() == 1);
        }
        assert(("VM"@) != ("S"@)) by {
            assert(("VM"@)[0] == 'V');
            assert(("S"@)[0] == 'S');
        }
        assert(("VM"@) != ("M"@)) by {
            assert(("VM"@)[0] == 'V');
            assert(("M"@)[0] == 'M');
        }
        assert(("VM"@) != ("VS"@)) by {
            assert(("VM"@)[1] == 'M');
            assert(("VS"@)[1] == 'S');
        }
        assert(("SM"@) != ("V"@)) by {
            assert(("SM"@)[0] == 'S');
            assert(("V"@)[0] == 'V');
        }
        assert(("SM"@) != ("S"@)) by {
            assert(("SM"@).len() == 2);
            assert(("S"@).len() == 1);
        }
        assert(("SM"@) != ("M"@)) by {
            assert(("SM"@)[0] == 'S');
            assert(("M"@)[0] == 'M');
        }
        assert(("SM"@) != ("VS"@)) by {
            assert(("SM"@)[0] == 'S');
            assert(("VS"@)[0] == 'V');
        }
        assert(("SM"@) != ("VM"@)) by {
            assert(("SM"@)[0] == 'S');
            assert(("VM"@)[0] == 'V');
        }
        assert(("VSM"@) != ("V"@)) by {
            assert(("VSM"@).len() == 3);
            assert(("V"@).len() == 1);
        }
        assert(("VSM"@) != ("S"@)) by {
            assert(("VSM"@)[0] == 'V');
            assert(("S"@)[0] == 'S');
        }
        assert(("VSM"@) != ("M"@)) by {
            assert(("VSM"@)[0] == 'V');
            assert(("M"@)[0] == 'M');
        }
        assert(("VSM"@) != ("VS"@)) by {
            assert(("VSM"@).len() == 3);
            assert(("VS"@).len() == 2);
        }
        assert(("VSM"@) != ("VM"@)) by {
            assert(("VSM"@)[1] == 'S');
            assert(("VM"@)[1] == 'M');
        }
        assert(("VSM"@) != ("SM"@)) by {
            assert(("VSM"@)[0] == 'V');
            assert(("SM"@)[0] == 'S');
        }
        match v {
            Components::V => {
                assert(Self::spec_dec(Self::spec_enc(Components::V)) == Some(Components::V));
            },
            Components::S => {
                assert(Self::spec_dec(Self::spec_enc(Components::S)) == Some(Components::S));
            },
            Components::M => {
                assert(Self::spec_dec(Self::spec_enc(Components::M)) == Some(Components::M));
            },
            Components::VS => {
                assert(Self::spec_dec(Self::spec_enc(Components::VS)) == Some(Components::VS));
            },
            Components::VM => {
                assert(Self::spec_dec(Self::spec_enc(Components::VM)) == Some(Components::VM));
            },
            Components::SM => {
                assert(Self::spec_dec(Self::spec_enc(Components::SM)) == Some(Components::SM));
            },
            Components::VSM => {
                assert(Self::spec_dec(Self::spec_enc(Components::VSM)) == Some(Components::VSM));
            },
        }
    }
}

/// The saving throw a spell calls for: an ability and an optional DC.
#[derive(Debug, Clone, Copy, PartialEq, Eq, Structural)]
pub enum Save {
    Strength(Option<i32>),
    Dexterity(Option<i32>),
    Constitution(Option<i32>),
    Intelligence(Option<i32>),
    Wisdom(Option<i32>),
    Charisma(Option<i32>),
}

impl DeepView for Save {
    type V = Save;

    open spec fn deep_view(&self) -> Save {
        *self
    }
}

impl Save {
    /// The display text of this saving throw: the ability, then `" DC {dc}"`
    /// when a DC is given.
    pub open spec fn spec_display(self) -> Seq<char> {
        match self {
            Save::Strength(Some(dc)) => "Strength DC "@ + dec_str(dc as int),
            Save::Strength(None) => "Strength"@,
            Save::Dexterity(Some(dc)) => "Dexterity DC "@ + dec_str(dc as int),
            Save::Dexterity(None) => "Dexterity"@,
            Save::Constitution(Some(dc)) => "Constitution DC "@ + dec_str(dc as int),
            Save::Constitution(None) => "Constitution"@,
            Save::Intelligence(Some(dc)) => "Intelligence DC "@ + dec_str(dc as int),
            Save::Intelligence(None) => "Intelligence"@,
            Save::Wisdom(Some(dc)) => "Wisdom DC "@ + dec_str(dc as int),
            Save::Wisdom(None) => "Wisdom"@,
            Save::Charisma(Some(dc)) => "Charisma DC "@ + dec_str(dc as int),
            Save::Charisma(None) => "Charisma"@,
        }
    }

    /// Renders the display text of this saving throw.
    pub fn to_string(&self) -> (s: String)
        ensures
            s@ == self.spec_display(),
    {
        proof {
            reveal_strlit("Strength");
            reveal_strlit("Dexterity");
            reveal_strlit("Constitution");
            reveal_strlit("Intelligence");
            reveal_strlit("Wisdom");
            reveal_strlit("Charisma");
            reveal_strlit("Strength DC ");
            reveal_strlit("Dexterity DC ");
            reveal_strlit("Constitution DC ");
            reveal_strlit("Intelligence DC ");
            reveal_strlit("Wisdom DC ");
            reveal_strlit("Charisma DC ");
            reveal_strlit(" DC ");
        }
        let (mut s, dc) = match self {
            Save::Strength(dc) => (String::from_str("Strength"), *dc),
            Save::Dexterity(dc) => (String::from_str("Dexterity"), *dc),
            Save::Constitution(dc) => (String::from_str("Constitution"), *dc),
            Save::Intelligence(dc) => (String::from_str("Intelligence"), *dc),
            Save::Wisdom(dc) => (String::from_str("Wisdom"), *dc),
            Save::Charisma(dc) => (String::from_str("Charisma"), *dc),
        };
        match dc {
            Some(n) => {
                s.append(" DC ");
                push_dec_i64(&mut s, n as i64);
                proof {
                    assert(s@ =~= self.spec_display());
                }
            },
            None => {},
        }
        s
    }
}

impl Codec for Save {
    open spec fn spec_enc(v: Save) -> RecordV {
        match v {
            Save::Strength(a0) => RecordV::Tag("Strength"@, seq![<Option<i32> as Codec>::spec_enc(a0)]),
            Save::Dexterity(a0) => RecordV::Tag("Dexterity"@, seq![<Option<i32> as Codec>::spec_enc(a0)]),
            Save::Constitution(a0) => RecordV::Tag("Constitution"@, seq![<Option<i32> as Codec>::spec_enc(a0)]),
            Save::Intelligence(a0) => RecordV::Tag("Intelligence"@, seq![<Option<i32> as Codec>::spec_enc(a0)]),
            Save::Wisdom(a0) => RecordV::Tag("Wisdom"@, seq![<Option<i32> as Codec>::spec_enc(a0)]),
            Save::Charisma(a0) => RecordV::Tag("Charisma"@, seq![<Option<i32> as Codec>::spec_enc(a0)]),
        }
    }

    open spec fn spec_dec(r: RecordV) -> Option<Save> {
        match r {
            RecordV::Tag(t, args) => {
                if t == "Strength"@ && args.len() == 1 {
                    match <Option<i32> as Codec>::spec_dec(args[0]) {
                        Some(a0) => Some(Save::Strength(a0)),
                        None => None,
                    }
                } else if t == "Dexterity"@ && args.len() == 1 {
                    match <Option<i32> as Codec>::spec_dec(args[0]) {
                        Some(a0) => Some(Save::Dexterity(a0)),
                        None => None,
                    }
                } else if t == "Constitution"@ && args.len() == 1 {
                    match <Option<i32> as Codec>::spec_dec(args[0]) {
                        Some(a0) => Some(Save::Constitution(a0)),
                        None => None,
                    }
                } else if t == "Intelligence"@ && args.len() == 1 {
                    match <Option<i32> as Codec>::spec_dec(args[0]) {
                        Some(a0) => Some(Save::Intelligence(a0)),
                        None => None,
                    }
                } else if t == "Wisdom"@ && args.len() == 1 {
                    match <Option<i32> as Codec>::spec_dec(args[0]) {
                        Some(a0) => Some(Save::Wisdom(a0)),
                        None => None,
                    }
                } else if t == "Charisma"@ && args.len() == 1 {
                    match <Option<i32> as Codec>::spec_dec(args[0]) {
                        Some(a0) => Some(Save::Charisma(a0)),
                        None => None,
                    }
                } else {
                    None
                }
            },
            _ => None,
        }
    }

    fn to_record(&self) -> (r: Record) {
        match self {
            Save::Strength(a0) => {
                let mut args: Vec<Record> = Vec::new();
                args.push(a0.to_record());
                let r = Record::Tag(String::from_str("Strength"), args);
                proof {
                    assert(rec_views(args@) =~= seq![<Option<i32> as Codec>::spec_enc(a0.deep_view())]);
                }
                r
            },
            Save::Dexterity(a0) => {
                let mut args: Vec<Record> = Vec::new();
                args.push(a0.to_record());
                let r = Record::Tag(String::from_str("Dexterity"), args);
                proof {
                    assert(rec_views(args@) =~= seq![<Option<i32> as Codec>::spec_enc(a0.deep_view())]);
                }
                r
            },
            Save::Constitution(a0) => {
                let mut args: Vec<Record> = Vec::new();
                args.push(a0.to_record());
                let r = Record::Tag(String::from_str("Constitution"), args);
                proof {
                    assert(rec_views(args@) =~= seq![<Option<i32> as Codec>::spec_enc(a0.deep_view())]);
                }
                r
            },
            Save::Intelligence(a0) => {
                let mut args: Vec<Record> = Vec::new();
                args.push(a0.to_record());
                let r = Record::Tag(String::from_str("Intelligence"), args);
                proof {
                    assert(rec_views(args@) =~= seq![<Option<i32> as Codec>::spec_enc(a0.deep_view())]);
                }
                r
            },
            Save::Wisdom(a0) => {
                let mut args: Vec<Record> = Vec::new();
                args.push(a0.to_record());
                let r = Record::Tag(String::from_str("Wisdom"), args);
                proof {
                    assert(rec_views(args@) =~= seq![<Option<i32> as Codec>::spec_enc(a0.deep_view())]);
                }
                r
            },
            Save::Charisma(a0) => {
                let mut args: Vec<Record> = Vec::new();
                args.push(a0.to_record());
                let r = Record::Tag(String::from_str("Charisma"), args);
                proof {
                    assert(rec_views(args@) =~= seq![<Option<i32> as Codec>::spec_enc(a0.deep_view())]);
                }
                r
            },
        }
    }

    fn from_record(r: &Record) -> (res: Result<Save, DecodeError>) {
        match r {
            Record::Tag(t, args) => {
                if str_eq(t.as_str(), "Strength") && args.len() == 1 {
                    let a0 = match <Option<i32>>::from_record(&args[0]) {
                        Ok(x) => x,
                        Err(e) => return Err(e),
                    };
                    Ok(Save::Strength(a0))
                } else if str_eq(t.as_str(), "Dexterity") && args.len() == 1 {
                    let a0 = match <Option<i32>>::from_record(&args[0]) {
                        Ok(x) => x,
                        Err(e) => return Err(e),
                    };
                    Ok(Save::Dexterity(a0))
                } else if str_eq(t.as_str(), "Constitution") && args.len() == 1 {
                    let a0 = match <Option<i32>>::from_record(&args[0]) {
                        Ok(x) => x,
                        Err(e) => return Err(e),
                    };
                    Ok(Save::Constitution(a0))
                } else if str_eq(t.as_str(), "Intelligence") && args.len() == 1 {
                    let a0 = match <Option<i32>>::from_record(&args[0]) {
                        Ok(x) => x,
                        Err(e) => return Err(e),
                    };
                    Ok(Save::Intelligence(a0))
                } else if str_eq(t.as_str(), "Wisdom") && args.len() == 1 {
                    let a0 = match <Option<i32>>::from_record(&args[0]) {
                        Ok(x) => x,
                        Err(e) => return Err(e),
                    };
                    Ok(Save::Wisdom(a0))
                } else if str_eq(t.as_str(), "Charisma") && args.len() == 1 {
                    let a0 = match <Option<i32>>::from_record(&args[0]) {
                        Ok(x) => x,
                        Err(e) => return Err(e),
                    };
                    Ok(Save::Charisma(a0))
                } else {
                    Err(DecodeError::Malformed)
                }
            },
            _ => Err(DecodeError::Malformed),
        }
    }

    proof fn lemma_round_trip(v: Save) {
        reveal_strlit("Strength");
        reveal_strlit("Dexterity");
        reveal_strlit("Constitution");
        reveal_strlit("Intelligence");
        reveal_strlit("Wisdom");
        reveal_strlit("Charisma");
        assert(("Dexterity"@) != ("Strength"@)) by {
            assert(("Dexterity"@)[0] == 'D');
            assert(("Strength"@)[0] == 'S');
        }
        assert(("Constitution"@) != ("Strength"@)) by {
            assert(("Constitution"@)[0] == 'C');
            assert(("Strength"@)[0] == 'S');
        }
        assert(("Constitution"@) != ("Dexterity"@)) by {
            assert(("Constitution"@)[0] == 'C');
            assert(("Dexterity"@)[0] == 'D');
        }
        assert(("Intelligence"@) != ("Strength"@)) by {
            assert(("Intelligence"@)[0] == 'I');
            assert(("Strength"@)[0] == 'S');
        }
        assert(("Intelligence"@) != ("Dexterity"@)) by {
            assert(("Intelligence"@)[0] == 'I');
            assert(("Dexterity"@)[0] == 'D');
        }
        assert(("Intelligence"@) != ("Constitution"@)) by {
            assert(("Intelligence"@)[0] == 'I');
            assert(("Constitution"@)[0] == 'C');
        }
        assert(("Wisdom"@) != ("Strength"@)) by {
            assert(("Wisdom"@)[0] == 'W');
            assert(("Strength"@)[0] == 'S');
        }
        assert(("Wisdom"@) != ("Dexterity"@)) by {
            assert(("Wisdom"@)[0] == 'W');
            assert(("Dexterity"@)[0] == 'D');
        }
        assert(("Wisdom"@) != ("Constitution"@)) by {
            assert(("Wisdom"@)[0] == 'W');
            assert(("Constitution"@)[0] == 'C');
        }
        assert(("Wisdom"@) != ("Intelligence"@)) by {
            assert(("Wisdom"@)[0] == 'W');
            assert(("Intelligence"@)[0] == 'I');
        }
        assert(("Charisma"@) != ("Strength"@)) by {
            assert(("Charisma"@)[0] == 'C');
            assert(("Strength"@)[0] == 'S');
        }
        assert(("Charisma"@) != ("Dexterity"@)) by {
            assert(("Charisma"@)[0] == 'C');
            assert(("Dexterity"@)[0] == 'D');
        }
        assert(("Charisma"@) != ("Constitution"@)) by {
            assert(("Charisma"@)[1] == 'h');
            assert(("Constitution"@)[1] == 'o');
        }
        assert(("Charisma"@) != ("Intelligence"@)) by {
            assert(("Charisma"@)[0] == 'C');
            assert(("Intelligence"@)[0] == 'I');
        }
        assert(("Charisma"@) != ("Wisdom"@)) by {
            assert(("Charisma"@)[0] == 'C');
            assert(("Wisdom"@)[0] == 'W');
        }
        match v {
            Save::Strength(a0) => {
                <Option<i32> as Codec>::lemma_round_trip(a0);
                assert(Self::spec_dec(Self::spec_enc(v)) == Some(v));
            },
            Save::Dexterity(a0) => {
                <Option<i32> as Codec>::lemma_round_trip(a0);
                assert(Self::spec_dec(Self::spec_enc(v)) == Some(v));
            },
            Save::Constitution(a0) => {
                <Option<i32> as Codec>::lemma_round_trip(a0);
                assert(Self::spec_dec(Self::spec_enc(v)) == Some(v));
            },
            Save::Intelligence(a0) => {
                <Option<i32> as Codec>::lemma_round_trip(a0);
                assert(Self::spec_dec(Self::spec_enc(v)) == Some(v));
            },
            Save::Wisdom(a0) => {
                <Option<i32> as Codec>::lemma_round_trip(a0);
                assert(Self::spec_dec(Self::spec_enc(v)) == Some(v));
            },
            Save::Charisma(a0) => {
                <Option<i32> as Codec>::lemma_round_trip(a0);
                assert(Self::spec_dec(Self::spec_enc(v)) == Some(v));
            },
        }
    }
}

/// A spell: its level, timing, range, components, and optional damage,
/// area and saving throw.
#[derive(Debug, Clone, PartialEq)]
pub struct Spell {
    pub id: i32,
    pub name: String,
    pub description: String,
    pub level: SpellLevel,
    pub casting_time: CastingTime,
    pub duration: Duration,
    pub damage: Option<DieStat>,
    pub range: SpellRange,
    pub area: Option<Area>,
    pub damage_type: Option<DamageType>,
    pub components: Components,
    pub attack_bonus: Option<i32>,
    pub save: Option<Save>,
}

/// The mathematical form of a [`Spell`].
#[verifier::ext_equal]
pub struct SpellView {
    pub id: i32,
    pub name: Seq<char>,
    pub description: Seq<char>,
    pub level: SpellLevel,
    pub casting_time: CastingTime,
    pub duration: Duration,
    pub damage: Option<DieStat>,
    pub range: SpellRange,
    pub area: Option<Area>,
    pub damage_type: Option<DamageType>,
    pub components: Components,
    pub attack_bonus: Option<i32>,
    pub save: Option<Save>,
}

impl DeepView for Spell {
    type V = SpellView;

    open spec fn deep_view(&self) -> SpellView {
        SpellView {
            id: self.id,
            name: self.name@,
            description: self.description@,
            level: self.level,
            casting_time: self.casting_time,
            duration: self.duration,
            damage: self.damage.deep_view(),
            range: self.range,
            area: self.area.deep_view(),
            damage_type: self.damage_type.deep_view(),
            components: self.components,
            attack_bonus: self.attack_bonus.deep_view(),
            save: self.save.deep_view(),
        }
    }
}

impl Codec for Spell {
    open spec fn spec_enc(v: SpellView) -> RecordV {
        RecordV::Obj(
            seq![
                ("id"@, <i32 as Codec>::spec_enc(v.id)),
                ("name"@, <String as Codec>::spec_enc(v.name)),
                ("description"@, <String as Codec>::spec_enc(v.description)),
                ("level"@, <SpellLevel as Codec>::spec_enc(v.level)),
                ("casting_time"@, <CastingTime as Codec>::spec_enc(v.casting_time)),
                ("duration"@, <Duration as Codec>::spec_enc(v.duration)),
                ("damage"@, <Option<DieStat> as Codec>::spec_enc(v.damage)),
                ("range"@, <SpellRange as Codec>::spec_enc(v.range)),
                ("area"@, <Option<Area> as Codec>::spec_enc(v.area)),
                ("damage_type"@, <Option<DamageType> as Codec>::spec_enc(v.damage_type)),
                ("components"@, <Components as Codec>::spec_enc(v.components)),
                ("attack_bonus"@, <Option<i32> as Codec>::spec_enc(v.attack_bonus)),
                ("save"@, <Option<Save> as Codec>::spec_enc(v.save)),
            ],
        )
    }

    open spec fn spec_dec(r: RecordV) -> Option<SpellView> {
        match r {
            RecordV::Obj(fields) => if fields.len() == 13
                && fields[0].0 == "id"@
                && fields[1].0 == "name"@
                && fields[2].0 == "description"@
                && fields[3].0 == "level"@
                && fields[4].0 == "casting_time"@
                && fields[5].0 == "duration"@
                && fields[6].0 == "damage"@
                && fields[7].0 == "range"@
                && fields[8].0 == "area"@
                && fields[9].0 == "damage_type"@
                && fields[10].0 == "components"@
                && fields[11].0 == "attack_bonus"@
                && fields[12].0 == "save"@ {
                match (<i32 as Codec>::spec_dec(fields[0].1), <String as Codec>::spec_dec(fields[1].1), <String as Codec>::spec_dec(fields[2].1), <SpellLevel as Codec>::spec_dec(fields[3].1), <CastingTime as Codec>::spec_dec(fields[4].1), <Duration as Codec>::spec_dec(fields[5].1), <Option<DieStat> as Codec>::spec_dec(fields[6].1), <SpellRange as Codec>::spec_dec(fields[7].1), <Option<Area> as Codec>::spec_dec(fields[8].1), <Option<DamageType> as Codec>::spec_dec(fields[9].1), <Components as Codec>::spec_dec(fields[10].1), <Option<i32> as Codec>::spec_dec(fields[11].1), <Option<Save> as Codec>::spec_dec(fields[12].1)) {
                    (Some(f_id), Some(f_name), Some(f_description), Some(f_level), Some(f_casting_time), Some(f_duration), Some(f_damage), Some(f_range), Some(f_area), Some(f_damage_type), Some(f_components), Some(f_attack_bonus), Some(f_save)) => Some(SpellView { id: f_id, name: f_name, description: f_description, level: f_level, casting_time: f_casting_time, duration: f_duration, damage: f_damage, range: f_range, area: f_area, damage_type: f_damage_type, components: f_components, attack_bonus: f_attack_bonus, save: f_save }),
                    _ => None,
                }
            } else {
                None
            },
            _ => None,
        }
    }

    fn to_record(&self) -> (r: Record) {
        let mut fs: Vec<(String, Record)> = Vec::new();
        fs.push((String::from_str("id"), self.id.to_record()));
        fs.push((String::from_str("name"), self.name.to_record()));
        fs.push((String::from_str("description"), self.description.to_record()));
        fs.push((String::from_str("level"), self.level.to_record()));
        fs.push((String::from_str("casting_time"), self.casting_time.to_record()));
        fs.push((String::from_str("duration"), self.duration.to_record()));
        fs.push((String::from_str("damage"), self.damage.to_record()));
        fs.push((String::from_str("range"), self.range.to_record()));
        fs.push((String::from_str("area"), self.area.to_record()));
        fs.push((String::from_str("damage_type"), self.damage_type.to_record()));
        fs.push((String::from_str("components"), self.components.to_record()));
        fs.push((String::from_str("attack_bonus"), self.attack_bonus.to_record()));
        fs.push((String::from_str("save"), self.save.to_record()));
        let r = Record::Obj(fs);
        proof {
            assert(field_views(fs@) =~= seq![
                ("id"@, <i32 as Codec>::spec_enc(self.id)),
                ("name"@, <String as Codec>::spec_enc(self.name@)),
                ("description"@, <String as Codec>::spec_enc(self.description@)),
                ("level"@, <SpellLevel as Codec>::spec_enc(self.level)),
                ("casting_time"@, <CastingTime as Codec>::spec_enc(self.casting_time)),
                ("duration"@, <Duration as Codec>::spec_enc(self.duration)),
                ("damage"@, <Option<DieStat> as Codec>::spec_enc(self.damage.deep_view())),
                ("range"@, <SpellRange as Codec>::spec_enc(self.range)),
                ("area"@, <Option<Area> as Codec>::spec_enc(self.area.deep_view())),
                ("damage_type"@, <Option<DamageType> as Codec>::spec_enc(self.damage_type.deep_view())),
                ("components"@, <Components as Codec>::spec_enc(self.components)),
                ("attack_bonus"@, <Option<i32> as Codec>::spec_enc(self.attack_bonus.deep_view())),
                ("save"@, <Option<Save> as Codec>::spec_enc(self.save.deep_view())),
            ]);
        }
        r
    }

    fn from_record(r: &Record) -> (res: Result<Spell, DecodeError>) {
        match r {
            Record::Obj(fs) => {
                if fs.len() != 13 {
                    return Err(DecodeError::Malformed);
                }
                let e0 = &fs[0];
                if !str_eq(e0.0.as_str(), "id") {
                    return Err(DecodeError::Malformed);
                }
                let f_id = match <i32>::from_record(&e0.1) {
                    Ok(x) => x,
                    Err(e) => return Err(e),
                };
                let e1 = &fs[1];
                if !str_eq(e1.0.as_str(), "name") {
                    return Err(DecodeError::Malformed);
                }
                let f_name = match <String>::from_record(&e1.1) {
                    Ok(x) => x,
                    Err(e) => return Err(e),
                };
                let e2 = &fs[2];
                if !str_eq(e2.0.as_str(), "description") {
                    return Err(DecodeError::Malformed);
                }
                let f_description = match <String>::from_record(&e2.1) {
                    Ok(x) => x,
                    Err(e) => return Err(e),
                };
                let e3 = &fs[3];
                if !str_eq(e3.0.as_str(), "level") {
                    return Err(DecodeError::Malformed);
                }
                let f_level = match <SpellLevel>::from_record(&e3.1) {
                    Ok(x) => x,
                    Err(e) => return Err(e),
                };
                let e4 = &fs[4];
                if !str_eq(e4.0.as_str(), "casting_time") {
                    return Err(DecodeError::Malformed);
                }
                let f_casting_time = match <CastingTime>::from_record(&e4.1) {
                    Ok(x) => x,
                    Err(e) => return Err(e),
                };
                let e5 = &fs[5];
                if !str_eq(e5.0.as_str(), "duration") {
                    return Err(DecodeError::Malformed);
                }
                let f_duration = match <Duration>::from_record(&e5.1) {
                    Ok(x) => x,
                    Err(e) => return Err(e),
                };
                let e6 = &fs[6];
                if !str_eq(e6.0.as_str(), "damage") {
                    return Err(DecodeError::Malformed);
                }
                let f_damage = match <Option<DieStat>>::from_record(&e6.1) {
                    Ok(x) => x,
                    Err(e) => return Err(e),
                };
                let e7 = &fs[7];
                if !str_eq(e7.0.as_str(), "range") {
                    return Err(DecodeError::Malformed);
                }
                let f_range = match <SpellRange>::from_record(&e7.1) {
                    Ok(x) => x,
                    Err(e) => return Err(e),
                };
                let e8 = &fs[8];
                if !str_eq(e8.0.as_str(), "area") {
                    return Err(DecodeError::Malformed);
                }
                let f_area = match <Option<Area>>::from_record(&e8.1) {
                    Ok(x) => x,
                    Err(e) => return Err(e),
                };
                let e9 = &fs[9];
                if !str_eq(e9.0.as_str(), "damage_type") {
                    return Err(DecodeError::Malformed);
                }
                let f_damage_type = match <Option<DamageType>>::from_record(&e9.1) {
                    Ok(x) => x,
                    Err(e) => return Err(e),
                };
                let e10 = &fs[10];
                if !str_eq(e10.0.as_str(), "components") {
                    return Err(DecodeError::Malformed);
                }
                let f_components = match <Components>::from_record(&e10.1) {
                    Ok(x) => x,
                    Err(e) => return Err(e),
                };
                let e11 = &fs[11];
                if !str_eq(e11.0.as_str(), "attack_bonus") {
                    return Err(DecodeError::Malformed);
                }
                let f_attack_bonus = match <Option<i32>>::from_record(&e11.1) {
                    Ok(x) => x,
                    Err(e) => return Err(e),
                };
                let e12 = &fs[12];
                if !str_eq(e12.0.as_str(), "save") {
                    return Err(DecodeError::Malformed);
                }
                let f_save = match <Option<Save>>::from_record(&e12.1) {
                    Ok(x) => x,
                    Err(e) => return Err(e),
                };
                Ok(Spell { id: f_id, name: f_name, description: f_description, level: f_level, casting_time: f_casting_time, duration: f_duration, damage: f_damage, range: f_range, area: f_area, damage_type: f_damage_type, components: f_components, attack_bonus: f_attack_bonus, save: f_save })
            },
            _ => Err(DecodeError::Malformed),
        }
    }

    proof fn lemma_round_trip(v: SpellView) {
        <i32 as Codec>::lemma_round_trip(v.id);
        <String as Codec>::lemma_round_trip(v.name);
        <String as Codec>::lemma_round_trip(v.description);
        <SpellLevel as Codec>::lemma_round_trip(v.level);
        <CastingTime as Codec>::lemma_round_trip(v.casting_time);
        <Duration as Codec>::lemma_round_trip(v.duration);
        <Option<DieStat> as Codec>::lemma_round_trip(v.damage);
        <SpellRange as Codec>::lemma_round_trip(v.range);
        <Option<Area> as Codec>::lemma_round_trip(v.area);
        <Option<DamageType> as Codec>::lemma_round_trip(v.damage_type);
        <Components as Codec>::lemma_round_trip(v.components);
        <Option<i32> as Codec>::lemma_round_trip(v.attack_bonus);
        <Option<Save> as Codec>::lemma_round_trip(v.save);
    }
}

} // verus!
