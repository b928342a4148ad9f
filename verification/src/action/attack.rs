//! Attacks: the melee, ranged and combined weapon and spell attack variants,
//! their target shapes and ranges, and the stat-block sentence each renders to.
//!
//! The combined melee-or-ranged weapon attack renders with the label
//! `"Melee or Ranged Weapon Attack"`.

use vstd::prelude::*;

verus! {

use crate::record::{Codec, DecodeError, Record, RecordV, field_views, rec_views, str_eq};
use crate::text::{dec_str, dec_string, en_words, number_in_words, push_dec_i64};
use crate::{DamageType, DieStat};


/// What an attack can hit: a single target, a count of targets, or an area
/// of a given size in feet.
#[derive(Debug, Clone, Copy, PartialEq, Eq, Structural)]
pub enum TargetType {
    OneTarget,
    MultipleTargets(i32),
    Cone(i32),
    Line(i32),
    Cube(i32),
    Sphere(i32),
}

impl DeepView for TargetType {
    type V = TargetType;

    open spec fn deep_view(&self) -> TargetType {
        *self
    }
}

impl TargetType {
    /// The display text of this target shape, with counts and sizes spelled
    /// out as English words. A zero or negative count is not validated: it is
    /// rendered as the words of that number, `"zero"` or `"minus ..."`.
    pub open spec fn spec_display(self) -> Seq<char> {
        match self {
            TargetType::OneTarget => "one target"@,
            TargetType::MultipleTargets(x) => en_words(x as int) + " targets"@,
            TargetType::Cone(x) => en_words(x as int) + " ft. Cone"@,
            TargetType::Line(x) => en_words(x as int) + " ft. Line"@,
            TargetType::Cube(x) => en_words(x as int) + " ft. Cube"@,
            TargetType::Sphere(x) => en_words(x as int) + " ft. Sphere"@,
        }
    }

    /// Renders the display text of this target shape.
    pub fn to_string(&self) -> (s: String)
        ensures
            s@ == self.spec_display(),
    {
        match self {
            TargetType::OneTarget => String::from_str("one target"),
            TargetType::MultipleTargets(x) => {
                let mut s = number_in_words(*x as i64);
                s.append(" targets");
                s
            },
            TargetType::Cone(x) => {
                let mut s = number_in_words(*x as i64);
                s.append(" ft. Cone");
                s
            },
            TargetType::Line(x) => {
                let mut s = number_in_words(*x as i64);
                s.append(" ft. Line");
                s
            },
            TargetType::Cube(x) => {
                let mut s = number_in_words(*x as i64);
                s.append(" ft. Cube");
                s
            },
            TargetType::Sphere(x) => {
                let mut s = number_in_words(*x as i64);
                s.append(" ft. Sphere");
                s
            },
        }
    }
}

impl Codec for TargetType {
    open spec fn spec_enc(v: TargetType) -> RecordV {
        match v {
            TargetType::OneTarget => RecordV::Tag("OneTarget"@, Seq::empty()),
            TargetType::MultipleTargets(a0) => RecordV::Tag("MultipleTargets"@, seq![<i32 as Codec>::spec_enc(a0)]),
            TargetType::Cone(a0) => RecordV::Tag("Cone"@, seq![<i32 as Codec>::spec_enc(a0)]),
            TargetType::Line(a0) => RecordV::Tag("Line"@, seq![<i32 as Codec>::spec_enc(a0)]),
            TargetType::Cube(a0) => RecordV::Tag("Cube"@, seq![<i32 as Codec>::spec_enc(a0)]),
            TargetType::Sphere(a0) => RecordV::Tag("Sphere"@, seq![<i32 as Codec>::spec_enc(a0)]),
        }
    }

    open spec fn spec_dec(r: RecordV) -> Option<TargetType> {
        match r {
            RecordV::Tag(t, args) => {
                if t == "OneTarget"@ && args.len() == 0 {
                    Some(TargetType::OneTarget)
                } else if t == "MultipleTargets"@ && args.len() == 1 {
                    match <i32 as Codec>::spec_dec(args[0]) {
                        Some(a0) => Some(TargetType::MultipleTargets(a0)),
                        None => None,
                    }
                } else if t == "Cone"@ && args.len() == 1 {
                    match <i32 as Codec>::spec_dec(args[0]) {
                        Some(a0) => Some(TargetType::Cone(a0)),
                        None => None,
                    }
                } else if t == "Line"@ && args.len() == 1 {
                    match <i32 as Codec>::spec_dec(args[0]) {
                        Some(a0) => Some(TargetType::Line(a0)),
                        None => None,
                    }
                } else if t == "Cube"@ && args.len() == 1 {
                    match <i32 as Codec>::spec_dec(args[0]) {
                        Some(a0) => Some(TargetType::Cube(a0)),
                        None => None,
                    }
                } else if t == "Sphere"@ && args.len() == 1 {
                    match <i32 as Codec>::spec_dec(args[0]) {
                        Some(a0) => Some(TargetType::Sphere(a0)),
                        None => None,
                    }
                } else {
                    None
                }
            },
            _ => None,
        }
    }

    fn to_record(&self) -> (r: Record) {
        match self {
            TargetType::OneTarget => {
                let r = Record::Tag(String::from_str("OneTarget"), Vec::new());
                proof {
                    assert(rec_views(Seq::<Record>::empty()) =~= Seq::<RecordV>::empty());
                }
                r
            },
            TargetType::MultipleTargets(a0) => {
                let mut args: Vec<Record> = Vec::new();
                args.push(a0.to_record());
                let r = Record::Tag(String::from_str("MultipleTargets"), args);
                proof {
                    assert(rec_views(args@) =~= seq![<i32 as Codec>::spec_enc(*a0)]);
                }
                r
            },
            TargetType::Cone(a0) => {
                let mut args: Vec<Record> = Vec::new();
                args.push(a0.to_record());
                let r = Record::Tag(String::from_str("Cone"), args);
                proof {
                    assert(rec_views(args@) =~= seq![<i32 as Codec>::spec_enc(*a0)]);
                }
                r
            },
            TargetType::Line(a0) => {
                let mut args: Vec<Record> = Vec::new();
                args.push(a0.to_record());
                let r = Record::Tag(String::from_str("Line"), args);
                proof {
                    assert(rec_views(args@) =~= seq![<i32 as Codec>::spec_enc(*a0)]);
                }
                r
            },
            TargetType::Cube(a0) => {
                let mut args: Vec<Record> = Vec::new();
                args.push(a0.to_record());
                let r = Record::Tag(String::from_str("Cube"), args);
                proof {
                    assert(rec_views(args@) =~= seq![<i32 as Codec>::spec_enc(*a0)]);
                }
                r
            },
            TargetType::Sphere(a0) => {
                let mut args: Vec<Record> = Vec::new();
                args.push(a0.to_record());
                let r = Record::Tag(String::from_str("Sphere"), args);
                proof {
                    assert(rec_views(args@) =~= seq![<i32 as Codec>::spec_enc(*a0)]);
                }
                r
            },
        }
    }

    fn from_record(r: &Record) -> (res: Result<TargetType, DecodeError>) {
        match r {
            Record::Tag(t, args) => {
                if str_eq(t.as_str(), "OneTarget") && args.len() == 0 {
                    Ok(TargetType::OneTarget)
                } else if str_eq(t.as_str(), "MultipleTargets") && args.len() == 1 {
                    let a0 = match <i32>::from_record(&args[0]) {
                        Ok(x) => x,
                        Err(e) => return Err(e),
                    };
                    Ok(TargetType::MultipleTargets(a0))
                } else if str_eq(t.as_str(), "Cone") && args.len() == 1 {
                    let a0 = match <i32>::from_record(&args[0]) {
                        Ok(x) => x,
                        Err(e) => return Err(e),
                    };
                    Ok(TargetType::Cone(a0))
                } else if str_eq(t.as_str(), "Line") && args.len() == 1 {
                    let a0 = match <i32>::from_record(&args[0]) {
                        Ok(x) => x,
                        Err(e) => return Err(e),
                    };
                    Ok(TargetType::Line(a0))
                } else if str_eq(t.as_str(), "Cube") && args.len() == 1 {
                    let a0 = match <i32>::from_record(&args[0]) {
                        Ok(x) => x,
                        Err(e) => return Err(e),
                    };
                    Ok(TargetType::Cube(a0))
                } else if str_eq(t.as_str(), "Sphere") && args.len() == 1 {
                    let a0 = match <i32>::from_record(&args[0]) {
                        Ok(x) => x,
                        Err(e) => return Err(e),
                    };
                    Ok(TargetType::Sphere(a0))
                } else {
                    Err(DecodeError::Malformed)
                }
            },
            _ => Err(DecodeError::Malformed),
        }
    }

    proof fn lemma_round_trip(v: TargetType) {
        reveal_strlit("OneTarget");
        reveal_strlit("MultipleTargets");
        reveal_strlit("Cone");
        reveal_strlit("Line");
        reveal_strlit("Cube");
        reveal_strlit("Sphere");
        assert(("MultipleTargets"@) != ("OneTarget"@)) by {
            assert(("MultipleTargets"@)[0] == 'M');
            assert(("OneTarget"@)[0] == 'O');
        }
        assert(("Cone"@) != ("OneTarget"@)) by {
            assert(("Cone"@)[0] == 'C');
            assert(("OneTarget"@)[0] == 'O');
        }
        assert(("Cone"@) != ("MultipleTargets"@)) by {
            assert(("Cone"@)[0] == 'C');
            assert(("MultipleTargets"@)[0] == 'M');
        }
        assert(("Line"@) != ("OneTarget"@)) by {
            assert(("Line"@)[0] == 'L');
            assert(("OneTarget"@)[0] == 'O');
        }
        assert(("Line"@) != ("MultipleTargets"@)) by {
            assert(("Line"@)[0] == 'L');
            assert(("MultipleTargets"@)[0] == 'M');
        }
        assert(("Line"@) != ("Cone"@)) by {
            assert(("Line"@)[0] == 'L');
            assert(("Cone"@)[0] == 'C');
        }
        assert(("Cube"@) != ("OneTarget"@)) by {
            assert(("Cube"@)[0] == 'C');
            assert(("OneTarget"@)[0] == 'O');
        }
        assert(("Cube"@) != ("MultipleTargets"@)) by {
            assert(("Cube"@)[0] == 'C');
            assert(("MultipleTargets"@)[0] == 'M');
        }
        assert(("Cube"@) != ("Cone"@)) by {
            assert(("Cube"@)[1] == 'u');
            assert(("Cone"@)[1] == 'o');
        }
        assert(("Cube"@) != ("Line"@)) by {
            assert(("Cube"@)[0] == 'C');
            assert(("Line"@)[0] == 'L');
        }
        assert(("Sphere"@) != ("OneTarget"@)) by {
            assert(("Sphere"@)[0] == 'S');
            assert(("OneTarget"@)[0] == 'O');
        }
        assert(("Sphere"@) != ("MultipleTargets"@)) by {
            assert(("Sphere"@)[0] == 'S');
            assert(("MultipleTargets"@)[0] == 'M');
        }
        assert(("Sphere"@) != ("Cone"@)) by {
            assert(("Sphere"@)[0] == 'S');
            assert(("Cone"@)[0] == 'C');
        }
        assert(("Sphere"@) != ("Line"@)) by {
            assert(("Sphere"@)[0] == 'S');
            assert(("Line"@)[0] == 'L');
        }
        assert(("Sphere"@) != ("Cube"@)) by {
            assert(("Sphere"@)[0] == 'S');
            assert(("Cube"@)[0] == 'C');
        }
        match v {
            TargetType::OneTarget => {
                assert(Self::spec_dec(Self::spec_enc(TargetType::OneTarget)) == Some(TargetType::OneTarget));
            },
            TargetType::MultipleTargets(a0) => {
                <i32 as Codec>::lemma_round_trip(a0);
                assert(Self::spec_dec(Self::spec_enc(v)) == Some(v));
            },
            TargetType::Cone(a0) => {
                <i32 as Codec>::lemma_round_trip(a0);
                assert(Self::spec_dec(Self::spec_enc(v)) == Some(v));
            },
            TargetType::Line(a0) => {
                <i32 as Codec>::lemma_round_trip(a0);
                assert(Self::spec_dec(Self::spec_enc(v)) == Some(v));
            },
            TargetType::Cube(a0) => {
                <i32 as Codec>::lemma_round_trip(a0);
                assert(Self::spec_dec(Self::spec_enc(v)) == Some(v));
            },
            TargetType::Sphere(a0) => {
                <i32 as Codec>::lemma_round_trip(a0);
                assert(Self::spec_dec(Self::spec_enc(v)) == Some(v));
            },
        }
    }
}

/// The close and long range of a ranged attack, in feet.
#[derive(Debug, Clone, Copy, PartialEq, Eq, Structural)]
pub struct Range {
    pub close_range: i32,
    pub long_range: i32,
}

impl DeepView for Range {
    type V = Range;

    open spec fn deep_view(&self) -> Range {
        *self
    }
}

impl Range {
    /// The display text of a range: `"{close} ft. / {long} ft."`.
    pub open spec fn spec_display(self) -> Seq<char> {
        dec_str(self.close_range as int) + " ft. / "@ + dec_str(self.long_range as int) + " ft."@
    }

    /// Renders the display text of this range.
    pub fn to_string(&self) -> (s: String)
        ensures
            s@ == self.spec_display(),
    {
        let mut s = dec_string(self.close_range as i64);
        s.append(" ft. / ");
        push_dec_i64(&mut s, self.long_range as i64);
        s.append(" ft.");
        proof {
            assert(s@ =~= self.spec_display());
        }
        s
    }

    /// The range shown when a ranged attack gives none: zero feet both ways.
    pub open spec fn spec_default_display() -> Seq<char> {
        dec_str(0) + " ft. / "@ + dec_str(0) + " ft."@
    }
}

impl Codec for Range {
    open spec fn spec_enc(v: Range) -> RecordV {
        RecordV::Obj(
            seq![
                ("close_range"@, <i32 as Codec>::spec_enc(v.close_range)),
                ("long_range"@, <i32 as Codec>::spec_enc(v.long_range)),
            ],
        )
    }

    open spec fn spec_dec(r: RecordV) -> Option<Range> {
        match r {
            RecordV::Obj(fields) => if fields.len() == 2
                && fields[0].0 == "close_range"@
                && fields[1].0 == "long_range"@ {
                match (<i32 as Codec>::spec_dec(fields[0].1), <i32 as Codec>::spec_dec(fields[1].1)) {
                    (Some(f_close_range), Some(f_long_range)) => Some(Range { close_range: f_close_range, long_range: f_long_range }),
                    _ => None,
                }
            } else {
                None
            },
            _ => None,
        }
    }

    fn to_record(&self) -> (r: Record) {
        let mut fs: Vec<(String, Record)> = Vec::new();
        fs.push((String::from_str("close_range"), self.close_range.to_record()));
        fs.push((String::from_str("long_range"), self.long_range.to_record()));
        let r = Record::Obj(fs);
        proof {
            assert(field_views(fs@) =~= seq![
                ("close_range"@, <i32 as Codec>::spec_enc(self.close_range)),
                ("long_range"@, <i32 as Codec>::spec_enc(self.long_range)),
            ]);
        }
        r
    }

    fn from_record(r: &Record) -> (res: Result<Range, DecodeError>) {
        match r {
            Record::Obj(fs) => {
                if fs.len() != 2 {
                    return Err(DecodeError::Malformed);
                }
                let e0 = &fs[0];
                if !str_eq(e0.0.as_str(), "close_range") {
                    return Err(DecodeError::Malformed);
                }
                let f_close_range = match <i32>::from_record(&e0.1) {
                    Ok(x) => x,
                    Err(e) => return Err(e),
                };
                let e1 = &fs[1];
                if !str_eq(e1.0.as_str(), "long_range") {
                    return Err(DecodeError::Malformed);
                }
                let f_long_range = match <i32>::from_record(&e1.1) {
                    Ok(x) => x,
                    Err(e) => return Err(e),
                };
                Ok(Range { close_range: f_close_range, long_range: f_long_range })
            },
            _ => Err(DecodeError::Malformed),
        }
    }

    proof fn lemma_round_trip(v: Range) {
        <i32 as Codec>::lemma_round_trip(v.close_range);
        <i32 as Codec>::lemma_round_trip(v.long_range);
    }
}

/// A melee attack: its reach defaults to five feet when absent.
#[derive(Debug, Clone, PartialEq)]
pub struct Melee {
    pub name: String,
    pub modifier: i32,
    pub reach: Option<i32>,
    pub target_type: TargetType,
    pub damage: DieStat,
    pub damage_type: DamageType,
    pub description: String,
}

/// The mathematical form of a [`Melee`].
#[verifier::ext_equal]
pub struct MeleeView {
    pub name: Seq<char>,
    pub modifier: i32,
    pub reach: Option<i32>,
    pub target_type: TargetType,
    pub damage: DieStat,
    pub damage_type: DamageType,
    pub description: Seq<char>,
}

impl DeepView for Melee {
    type V = MeleeView;

    open spec fn deep_view(&self) -> MeleeView {
        MeleeView {
            name: self.name@,
            modifier: self.modifier,
            reach: self.reach.deep_view(),
            target_type: self.target_type,
            damage: self.damage,
            damage_type: self.damage_type,
            description: self.description@,
        }
    }
}

impl MeleeView {
    /// The stat-block sentence of a melee attack, with `kind` naming it a
    /// weapon or a spell attack.
    pub open spec fn spec_display(self, kind: Seq<char>) -> Seq<char> {
        self.name + ". Melee "@ + kind + " Attack: "@ + dec_str(self.modifier as int)
            + " to hit, reach "@ + dec_str(
            match self.reach {
                Some(r) => r as int,
                None => 5,
            },
        ) + ", "@ + self.target_type.spec_display() + ". Hit: "@ + self.damage.spec_display()
            + " "@ + self.damage_type.spec_display() + ". "@ + self.description
    }
}

impl Melee {
    /// Renders the stat-block sentence of this attack, naming it a `kind`
    /// attack.
    pub fn display_with_kind(&self, kind: &str) -> (s: String)
        ensures
            s@ == self.deep_view().spec_display(kind@),
    {
        let mut s = self.name.clone();
        s.append(". Melee ");
        s.append(kind);
        s.append(" Attack: ");
        push_dec_i64(&mut s, self.modifier as i64);
        s.append(" to hit, reach ");
        let reach = match self.reach {
            Some(r) => r,
            None => 5,
        };
        push_dec_i64(&mut s, reach as i64);
        s.append(", ");
        let target = self.target_type.to_string();
        s.append(target.as_str());
        s.append(". Hit: ");
        let damage = self.damage.to_string();
        s.append(damage.as_str());
        s.append(" ");
        let damage_type = self.damage_type.to_string();
        s.append(damage_type.as_str());
        s.append(". ");
        s.append(self.description.as_str());
        proof {
            assert(s@ =~= self.deep_view().spec_display(kind@));
        }
        s
    }
}

impl Codec for Melee {
    open spec fn spec_enc(v: MeleeView) -> RecordV {
        RecordV::Obj(
            seq![
                ("name"@, <String as Codec>::spec_enc(v.name)),
                ("modifier"@, <i32 as Codec>::spec_enc(v.modifier)),
                ("reach"@, <Option<i32> as Codec>::spec_enc(v.reach)),
                ("target_type"@, <TargetType as Codec>::spec_enc(v.target_type)),
                ("damage"@, <DieStat as Codec>::spec_enc(v.damage)),
                ("damage_type"@, <DamageType as Codec>::spec_enc(v.damage_type)),
                ("description"@, <String as Codec>::spec_enc(v.description)),
            ],
        )
    }

    open spec fn spec_dec(r: RecordV) -> Option<MeleeView> {
        match r {
            RecordV::Obj(fields) => if fields.len() == 7
                && fields[0].0 == "name"@
                && fields[1].0 == "modifier"@
                && fields[2].0 == "reach"@
                && fields[3].0 == "target_type"@
                && fields[4].0 == "damage"@
                && fields[5].0 == "damage_type"@
                && fields[6].0 == "description"@ {
                match (<String as Codec>::spec_dec(fields[0].1), <i32 as Codec>::spec_dec(fields[1].1), <Option<i32> as Codec>::spec_dec(fields[2].1), <TargetType as Codec>::spec_dec(fields[3].1), <DieStat as Codec>::spec_dec(fields[4].1), <DamageType as Codec>::spec_dec(fields[5].1), <String as Codec>::spec_dec(fields[6].1)) {
                    (Some(f_name), Some(f_modifier), Some(f_reach), Some(f_target_type), Some(f_damage), Some(f_damage_type), Some(f_description)) => Some(MeleeView { name: f_name, modifier: f_modifier, reach: f_reach, target_type: f_target_type, damage: f_damage, damage_type: f_damage_type, description: f_description }),
                    _ => None,
                }
            } else {
                None
            },
            _ => None,
        }
    }

    fn to_record(&self) -> (r: Record) {
        let mut fs: Vec<(String, Record)> = Vec::new();
        fs.push((String::from_str("name"), self.name.to_record()));
        fs.push((String::from_str("modifier"), self.modifier.to_record()));
        fs.push((String::from_str("reach"), self.reach.to_record()));
        fs.push((String::from_str("target_type"), self.target_type.to_record()));
        fs.push((String::from_str("damage"), self.damage.to_record()));
        fs.push((String::from_str("damage_type"), self.damage_type.to_record()));
        fs.push((String::from_str("description"), self.description.to_record()));
        let r = Record::Obj(fs);
        proof {
            assert(field_views(fs@) =~= seq![
                ("name"@, <String as Codec>::spec_enc(self.name@)),
                ("modifier"@, <i32 as Codec>::spec_enc(self.modifier)),
                ("reach"@, <Option<i32> as Codec>::spec_enc(self.reach.deep_view())),
                ("target_type"@, <TargetType as Codec>::spec_enc(self.target_type)),
                ("damage"@, <DieStat as Codec>::spec_enc(self.damage)),
                ("damage_type"@, <DamageType as Codec>::spec_enc(self.damage_type)),
                ("description"@, <String as Codec>::spec_enc(self.description@)),
            ]);
        }
        r
    }

    fn from_record(r: &Record) -> (res: Result<Melee, DecodeError>) {
        match r {
            Record::Obj(fs) => {
                if fs.len() != 7 {
                    return Err(DecodeError::Malformed);
                }
                let e0 = &fs[0];
                if !str_eq(e0.0.as_str(), "name") {
                    return Err(DecodeError::Malformed);
                }
                let f_name = match <String>::from_record(&e0.1) {
                    Ok(x) => x,
                    Err(e) => return Err(e),
                };
                let e1 = &fs[1];
                if !str_eq(e1.0.as_str(), "modifier") {
                    return Err(DecodeError::Malformed);
                }
                let f_modifier = match <i32>::from_record(&e1.1) {
                    Ok(x) => x,
                    Err(e) => return Err(e),
                };
                let e2 = &fs[2];
                if !str_eq(e2.0.as_str(), "reach") {
                    return Err(DecodeError::Malformed);
                }
                let f_reach = match <Option<i32>>::from_record(&e2.1) {
                    Ok(x) => x,
                    Err(e) => return Err(e),
                };
                let e3 = &fs[3];
                if !str_eq(e3.0.as_str(), "target_type") {
                    return Err(DecodeError::Malformed);
                }
                let f_target_type = match <TargetType>::from_record(&e3.1) {
                    Ok(x) => x,
                    Err(e) => return Err(e),
                };
                let e4 = &fs[4];
                if !str_eq(e4.0.as_str(), "damage") {
                    return Err(DecodeError::Malformed);
                }
                let f_damage = match <DieStat>::from_record(&e4.1) {
                    Ok(x) => x,
                    Err(e) => return Err(e),
                };
                let e5 = &fs[5];
                if !str_eq(e5.0.as_str(), "damage_type") {
                    return Err(DecodeError::Malformed);
                }
                let f_damage_type = match <DamageType>::from_record(&e5.1) {
                    Ok(x) => x,
                    Err(e) => return Err(e),
                };
                let e6 = &fs[6];
                if !str_eq(e6.0.as_str(), "description") {
                    return Err(DecodeError::Malformed);
                }
                let f_description = match <String>::from_record(&e6.1) {
                    Ok(x) => x,
                    Err(e) => return Err(e),
                };
                Ok(Melee { name: f_name, modifier: f_modifier, reach: f_reach, target_type: f_target_type, damage: f_damage, damage_type: f_damage_type, description: f_description })
            },
            _ => Err(DecodeError::Malformed),
        }
    }

    proof fn lemma_round_trip(v: MeleeView) {
        <String as Codec>::lemma_round_trip(v.name);
        <i32 as Codec>::lemma_round_trip(v.modifier);
        <Option<i32> as Codec>::lemma_round_trip(v.reach);
        <TargetType as Codec>::lemma_round_trip(v.target_type);
        <DieStat as Codec>::lemma_round_trip(v.damage);
        <DamageType as Codec>::lemma_round_trip(v.damage_type);
        <String as Codec>::lemma_round_trip(v.description);
    }
}

/// A ranged attack: its range defaults to zero feet both ways when absent.
#[derive(Debug, Clone, PartialEq)]
pub struct Ranged {
    pub name: String,
    pub modifier: i32,
    pub range: Option<Range>,
    pub target_type: TargetType,
    pub damage: DieStat,
    pub damage_type: DamageType,
    pub description: String,
}

/// The mathematical form of a [`Ranged`].
#[verifier::ext_equal]
pub struct RangedView {
    pub name: Seq<char>,
    pub modifier: i32,
    pub range: Option<Range>,
    pub target_type: TargetType,
    pub damage: DieStat,
    pub damage_type: DamageType,
    pub description: Seq<char>,
}

impl DeepView for Ranged {
    type V = RangedView;

    open spec fn deep_view(&self) -> RangedView {
        RangedView {
            name: self.name@,
            modifier: self.modifier,
            range: self.range.deep_view(),
            target_type: self.target_type,
            damage: self.damage,
            damage_type: self.damage_type,
            description: self.description@,
        }
    }
}

impl RangedView {
    /// The stat-block sentence of a ranged attack, with `kind` naming it a
    /// weapon or a spell attack.
    pub open spec fn spec_display(self, kind: Seq<char>) -> Seq<char> {
        self.name + ". Ranged "@ + kind + " Attack: "@ + dec_str(self.modifier as int)
            + " to hit, range "@ + (match self.range {
            Some(r) => r.spec_display(),
            None => Range::spec_default_display(),
        }) + ", "@ + self.target_type.spec_display() + ". Hit: "@ + self.damage.spec_display()
            + " "@ + self.damage_type.spec_display() + ". "@ + self.description
    }
}

impl Ranged {
    /// Renders the stat-block sentence of this attack, naming it a `kind`
    /// attack.
    pub fn display_with_kind(&self, kind: &str) -> (s: String)
        ensures
            s@ == self.deep_view().spec_display(kind@),
    {
        let mut s = self.name.clone();
        s.append(". Ranged ");
        s.append(kind);
        s.append(" Attack: ");
        push_dec_i64(&mut s, self.modifier as i64);
        s.append(" to hit, range ");
        let range = match &self.range {
            Some(r) => r.to_string(),
            None => Range { close_range: 0, long_range: 0 }.to_string(),
        };
        s.append(range.as_str());
        s.append(", ");
        let target = self.target_type.to_string();
        s.append(target.as_str());
        s.append(". Hit: ");
        let damage = self.damage.to_string();
        s.append(damage.as_str());
        s.append(" ");
        let damage_type = self.damage_type.to_string();
        s.append(damage_type.as_str());
        s.append(". ");
        s.append(self.description.as_str());
        proof {
            assert(s@ =~= self.deep_view().spec_display(kind@));
        }
        s
    }
}

impl Codec for Ranged {
    open spec fn spec_enc(v: RangedView) -> RecordV {
        RecordV::Obj(
            seq![
                ("name"@, <String as Codec>::spec_enc(v.name)),
                ("modifier"@, <i32 as Codec>::spec_enc(v.modifier)),
                ("range"@, <Option<Range> as Codec>::spec_enc(v.range)),
                ("target_type"@, <TargetType as Codec>::spec_enc(v.target_type)),
                ("damage"@, <DieStat as Codec>::spec_enc(v.damage)),
                ("damage_type"@, <DamageType as Codec>::spec_enc(v.damage_type)),
                ("description"@, <String as Codec>::spec_enc(v.description)),
            ],
        )
    }

    open spec fn spec_dec(r: RecordV) -> Option<RangedView> {
        match r {
            RecordV::Obj(fields) => if fields.len() == 7
                && fields[0].0 == "name"@
                && fields[1].0 == "modifier"@
                && fields[2].0 == "range"@
                && fields[3].0 == "target_type"@
                && fields[4].0 == "damage"@
                && fields[5].0 == "damage_type"@
                && fields[6].0 == "description"@ {
                match (<String as Codec>::spec_dec(fields[0].1), <i32 as Codec>::spec_dec(fields[1].1), <Option<Range> as Codec>::spec_dec(fields[2].1), <TargetType as Codec>::spec_dec(fields[3].1), <DieStat as Codec>::spec_dec(fields[4].1), <DamageType as Codec>::spec_dec(fields[5].1), <String as Codec>::spec_dec(fields[6].1)) {
                    (Some(f_name), Some(f_modifier), Some(f_range), Some(f_target_type), Some(f_damage), Some(f_damage_type), Some(f_description)) => Some(RangedView { name: f_name, modifier: f_modifier, range: f_range, target_type: f_target_type, damage: f_damage, damage_type: f_damage_type, description: f_description }),
                    _ => None,
                }
            } else {
                None
            },
            _ => None,
        }
    }

    fn to_record(&self) -> (r: Record) {
        let mut fs: Vec<(String, Record)> = Vec::new();
        fs.push((String::from_str("name"), self.name.to_record()));
        fs.push((String::from_str("modifier"), self.modifier.to_record()));
        fs.push((String::from_str("range"), self.range.to_record()));
        fs.push((String::from_str("target_type"), self.target_type.to_record()));
        fs.push((String::from_str("damage"), self.damage.to_record()));
        fs.push((String::from_str("damage_type"), self.damage_type.to_record()));
        fs.push((String::from_str("description"), self.description.to_record()));
        let r = Record::Obj(fs);
        proof {
            assert(field_views(fs@) =~= seq![
                ("name"@, <String as Codec>::spec_enc(self.name@)),
                ("modifier"@, <i32 as Codec>::spec_enc(self.modifier)),
                ("range"@, <Option<Range> as Codec>::spec_enc(self.range.deep_view())),
                ("target_type"@, <TargetType as Codec>::spec_enc(self.target_type)),
                ("damage"@, <DieStat as Codec>::spec_enc(self.damage)),
                ("damage_type"@, <DamageType as Codec>::spec_enc(self.damage_type)),
                ("description"@, <String as Codec>::spec_enc(self.description@)),
            ]);
        }
        r
    }

    fn from_record(r: &Record) -> (res: Result<Ranged, DecodeError>) {
        match r {
            Record::Obj(fs) => {
                if fs.len() != 7 {
                    return Err(DecodeError::Malformed);
                }
                let e0 = &fs[0];
                if !str_eq(e0.0.as_str(), "name") {
                    return Err(DecodeError::Malformed);
                }
                let f_name = match <String>::from_record(&e0.1) {
                    Ok(x) => x,
                    Err(e) => return Err(e),
                };
                let e1 = &fs[1];
                if !str_eq(e1.0.as_str(), "modifier") {
                    return Err(DecodeError::Malformed);
                }
                let f_modifier = match <i32>::from_record(&e1.1) {
                    Ok(x) => x,
                    Err(e) => return Err(e),
                };
                let e2 = &fs[2];
                if !str_eq(e2.0.as_str(), "range") {
                    return Err(DecodeError::Malformed);
                }
                let f_range = match <Option<Range>>::from_record(&e2.1) {
                    Ok(x) => x,
                    Err(e) => return Err(e),
                };
                let e3 = &fs[3];
                if !str_eq(e3.0.as_str(), "target_type") {
                    return Err(DecodeError::Malformed);
                }
                let f_target_type = match <TargetType>::from_record(&e3.1) {
                    Ok(x) => x,
                    Err(e) => return Err(e),
                };
                let e4 = &fs[4];
                if !str_eq(e4.0.as_str(), "damage") {
                    return Err(DecodeError::Malformed);
                }
                let f_damage = match <DieStat>::from_record(&e4.1) {
                    Ok(x) => x,
                    Err(e) => return Err(e),
                };
                let e5 = &fs[5];
                if !str_eq(e5.0.as_str(), "damage_type") {
                    return Err(DecodeError::Malformed);
                }
                let f_damage_type = match <DamageType>::from_record(&e5.1) {
                    Ok(x) => x,
                    Err(e) => return Err(e),
                };
                let e6 = &fs[6];
                if !str_eq(e6.0.as_str(), "description") {
                    return Err(DecodeError::Malformed);
                }
                let f_description = match <String>::from_record(&e6.1) {
                    Ok(x) => x,
                    Err(e) => return Err(e),
                };
                Ok(Ranged { name: f_name, modifier: f_modifier, range: f_range, target_type: f_target_type, damage: f_damage, damage_type: f_damage_type, description: f_description })
            },
            _ => Err(DecodeError::Malformed),
        }
    }

    proof fn lemma_round_trip(v: RangedView) {
        <String as Codec>::lemma_round_trip(v.name);
        <i32 as Codec>::lemma_round_trip(v.modifier);
        <Option<Range> as Codec>::lemma_round_trip(v.range);
        <TargetType as Codec>::lemma_round_trip(v.target_type);
        <DieStat as Codec>::lemma_round_trip(v.damage);
        <DamageType as Codec>::lemma_round_trip(v.damage_type);
        <String as Codec>::lemma_round_trip(v.description);
    }
}

/// An attack usable in melee or at range: it shows both a reach and a range,
/// each falling back to its default when absent.
#[derive(Debug, Clone, PartialEq)]
pub struct MeleeOrRanged {
    pub name: String,
    pub modifier: i32,
    pub reach: Option<i32>,
    pub range: Option<Range>,
    pub target_type: TargetType,
    pub damage: DieStat,
    pub damage_type: DamageType,
    pub description: String,
}

/// The mathematical form of a [`MeleeOrRanged`].
#[verifier::ext_equal]
pub struct MeleeOrRangedView {
    pub name: Seq<char>,
    pub modifier: i32,
    pub reach: Option<i32>,
    pub range: Option<Range>,
    pub target_type: TargetType,
    pub damage: DieStat,
    pub damage_type: DamageType,
    pub description: Seq<char>,
}

impl DeepView for MeleeOrRanged {
    type V = MeleeOrRangedView;

    open spec fn deep_view(&self) -> MeleeOrRangedView {
        MeleeOrRangedView {
            name: self.name@,
            modifier: self.modifier,
            reach: self.reach.deep_view(),
            range: self.range.deep_view(),
            target_type: self.target_type,
            damage: self.damage,
            damage_type: self.damage_type,
            description: self.description@,
        }
    }
}

impl MeleeOrRangedView {
    /// The stat-block sentence of a combined attack, with `kind` naming it a
    /// weapon or a spell attack.
    pub open spec fn spec_display(self, kind: Seq<char>) -> Seq<char> {
        self.name + ". Melee or Ranged "@ + kind + " Attack: "@ + dec_str(self.modifier as int)
            + " to hit, reach "@ + dec_str(
            match self.reach {
                Some(r) => r as int,
                None => 5,
            },
        ) + ", range "@ + (match self.range {
            Some(r) => r.spec_display(),
            None => Range::spec_default_display(),
        }) + ", "@ + self.target_type.spec_display() + ". Hit: "@ + self.damage.spec_display()
            + " "@ + self.damage_type.spec_display() + ". "@ + self.description
    }
}

impl MeleeOrRanged {
    /// Renders the stat-block sentence of this attack, naming it a `kind`
    /// attack.
    pub fn display_with_kind(&self, kind: &str) -> (s: String)
        ensures
            s@ == self.deep_view().spec_display(kind@),
    {
        let mut s = self.name.clone();
        s.append(". Melee or Ranged ");
        s.append(kind);
        s.append(" Attack: ");
        push_dec_i64(&mut s, self.modifier as i64);
        s.append(" to hit, reach ");
        let reach = match self.reach {
            Some(r) => r,
            None => 5,
        };
        push_dec_i64(&mut s, reach as i64);
        s.append(", range ");
        let range = match &self.range {
            Some(r) => r.to_string(),
            None => Range { close_range: 0, long_range: 0 }.to_string(),
        };
        s.append(range.as_str());
        s.append(", ");
        let target = self.target_type.to_string();
        s.append(target.as_str());
        s.append(". Hit: ");
        let damage = self.damage.to_string();
        s.append(damage.as_str());
        s.append(" ");
        let damage_type = self.damage_type.to_string();
        s.append(damage_type.as_str());
        s.append(". ");
        s.append(self.description.as_str());
        proof {
            assert(s@ =~= self.deep_view().spec_display(kind@));
        }
        s
    }
}

impl Codec for MeleeOrRanged {
    open spec fn spec_enc(v: MeleeOrRangedView) -> RecordV {
        RecordV::Obj(
            seq![
                ("name"@, <String as Codec>::spec_enc(v.name)),
                ("modifier"@, <i32 as Codec>::spec_enc(v.modifier)),
                ("reach"@, <Option<i32> as Codec>::spec_enc(v.reach)),
                ("range"@, <Option<Range> as Codec>::spec_enc(v.range)),
                ("target_type"@, <TargetType as Codec>::spec_enc(v.target_type)),
                ("damage"@, <DieStat as Codec>::spec_enc(v.damage)),
                ("damage_type"@, <DamageType as Codec>::spec_enc(v.damage_type)),
                ("description"@, <String as Codec>::spec_enc(v.description)),
            ],
        )
    }

    open spec fn spec_dec(r: RecordV) -> Option<MeleeOrRangedView> {
        match r {
            RecordV::Obj(fields) => if fields.len() == 8
                && fields[0].0 == "name"@
                && fields[1].0 == "modifier"@
                && fields[2].0 == "reach"@
                && fields[3].0 == "range"@
                && fields[4].0 == "target_type"@
                && fields[5].0 == "damage"@
                && fields[6].0 == "damage_type"@
                && fields[7].0 == "description"@ {
                match (<String as Codec>::spec_dec(fields[0].1), <i32 as Codec>::spec_dec(fields[1].1), <Option<i32> as Codec>::spec_dec(fields[2].1), <Option<Range> as Codec>::spec_dec(fields[3].1), <TargetType as Codec>::spec_dec(fields[4].1), <DieStat as Codec>::spec_dec(fields[5].1), <DamageType as Codec>::spec_dec(fields[6].1), <String as Codec>::spec_dec(fields[7].1)) {
                    (Some(f_name), Some(f_modifier), Some(f_reach), Some(f_range), Some(f_target_type), Some(f_damage), Some(f_damage_type), Some(f_description)) => Some(MeleeOrRangedView { name: f_name, modifier: f_modifier, reach: f_reach, range: f_range, target_type: f_target_type, damage: f_damage, damage_type: f_damage_type, description: f_description }),
                    _ => None,
                }
            } else {
                None
            },
            _ => None,
        }
    }

    fn to_record(&self) -> (r: Record) {
        let mut fs: Vec<(String, Record)> = Vec::new();
        fs.push((String::from_str("name"), self.name.to_record()));
        fs.push((String::from_str("modifier"), self.modifier.to_record()));
        fs.push((String::from_str("reach"), self.reach.to_record()));
        fs.push((String::from_str("range"), self.range.to_record()));
        fs.push((String::from_str("target_type"), self.target_type.to_record()));
        fs.push((String::from_str("damage"), self.damage.to_record()));
        fs.push((String::from_str("damage_type"), self.damage_type.to_record()));
        fs.push((String::from_str("description"), self.description.to_record()));
        let r = Record::Obj(fs);
        proof {
            assert(field_views(fs@) =~= seq![
                ("name"@, <String as Codec>::spec_enc(self.name@)),
                ("modifier"@, <i32 as Codec>::spec_enc(self.modifier)),
                ("reach"@, <Option<i32> as Codec>::spec_enc(self.reach.deep_view())),
                ("range"@, <Option<Range> as Codec>::spec_enc(self.range.deep_view())),
                ("target_type"@, <TargetType as Codec>::spec_enc(self.target_type)),
                ("damage"@, <DieStat as Codec>::spec_enc(self.damage)),
                ("damage_type"@, <DamageType as Codec>::spec_enc(self.damage_type)),
                ("description"@, <String as Codec>::spec_enc(self.description@)),
            ]);
        }
        r
    }

    fn from_record(r: &Record) -> (res: Result<MeleeOrRanged, DecodeError>) {
        match r {
            Record::Obj(fs) => {
                if fs.len() != 8 {
                    return Err(DecodeError::Malformed);
                }
                let e0 = &fs[0];
                if !str_eq(e0.0.as_str(), "name") {
                    return Err(DecodeError::Malformed);
                }
                let f_name = match <String>::from_record(&e0.1) {
                    Ok(x) => x,
                    Err(e) => return Err(e),
                };
                let e1 = &fs[1];
                if !str_eq(e1.0.as_str(), "modifier") {
                    return Err(DecodeError::Malformed);
                }
                let f_modifier = match <i32>::from_record(&e1.1) {
                    Ok(x) => x,
                    Err(e) => return Err(e),
                };
                let e2 = &fs[2];
                if !str_eq(e2.0.as_str(), "reach") {
                    return Err(DecodeError::Malformed);
                }
                let f_reach = match <Option<i32>>::from_record(&e2.1) {
                    Ok(x) => x,
                    Err(e) => return Err(e),
                };
                let e3 = &fs[3];
                if !str_eq(e3.0.as_str(), "range") {
                    return Err(DecodeError::Malformed);
                }
                let f_range = match <Option<Range>>::from_record(&e3.1) {
                    Ok(x) => x,
                    Err(e) => return Err(e),
                };
                let e4 = &fs[4];
                if !str_eq(e4.0.as_str(), "target_type") {
                    return Err(DecodeError::Malformed);
                }
                let f_target_type = match <TargetType>::from_record(&e4.1) {
                    Ok(x) => x,
                    Err(e) => return Err(e),
                };
                let e5 = &fs[5];
                if !str_eq(e5.0.as_str(), "damage") {
                    return Err(DecodeError::Malformed);
                }
                let f_damage = match <DieStat>::from_record(&e5.1) {
                    Ok(x) => x,
                    Err(e) => return Err(e),
                };
                let e6 = &fs[6];
                if !str_eq(e6.0.as_str(), "damage_type") {
                    return Err(DecodeError::Malformed);
                }
                let f_damage_type = match <DamageType>::from_record(&e6.1) {
                    Ok(x) => x,
                    Err(e) => return Err(e),
                };
                let e7 = &fs[7];
                if !str_eq(e7.0.as_str(), "description") {
                    return Err(DecodeError::Malformed);
                }
                let f_description = match <String>::from_record(&e7.1) {
                    Ok(x) => x,
                    Err(e) => return Err(e),
                };
                Ok(MeleeOrRanged { name: f_name, modifier: f_modifier, reach: f_reach, range: f_range, target_type: f_target_type, damage: f_damage, damage_type: f_damage_type, description: f_description })
            },
            _ => Err(DecodeError::Malformed),
        }
    }

    proof fn lemma_round_trip(v: MeleeOrRangedView) {
        <String as Codec>::lemma_round_trip(v.name);
        <i32 as Codec>::lemma_round_trip(v.modifier);
        <Option<i32> as Codec>::lemma_round_trip(v.reach);
        <Option<Range> as Codec>::lemma_round_trip(v.range);
        <TargetType as Codec>::lemma_round_trip(v.target_type);
        <DieStat as Codec>::lemma_round_trip(v.damage);
        <DamageType as Codec>::lemma_round_trip(v.damage_type);
        <String as Codec>::lemma_round_trip(v.description);
    }
}

/// An attack action: melee, ranged or both, as a weapon or a spell.
#[derive(Debug, Clone, PartialEq)]
pub enum Attack {
    MeleeWeaponAttack(Melee),
    RangedWeaponAttack(Ranged),
    MeleeOrRangedWeaponAttack(MeleeOrRanged),
    MeleeSpellAttack(Melee),
    RangedSpellAttack(Ranged),
}

/// The mathematical form of an [`Attack`].
#[verifier::ext_equal]
pub enum AttackView {
    MeleeWeaponAttack(MeleeView),
    RangedWeaponAttack(RangedView),
    MeleeOrRangedWeaponAttack(MeleeOrRangedView),
    MeleeSpellAttack(MeleeView),
    RangedSpellAttack(RangedView),
}

impl DeepView for Attack {
    type V = AttackView;

    open spec fn deep_view(&self) -> AttackView {
        match self {
            Attack::MeleeWeaponAttack(x) => AttackView::MeleeWeaponAttack(x.deep_view()),
            Attack::RangedWeaponAttack(x) => AttackView::RangedWeaponAttack(x.deep_view()),
            Attack::MeleeOrRangedWeaponAttack(x) => AttackView::MeleeOrRangedWeaponAttack(
                x.deep_view(),
            ),
            Attack::MeleeSpellAttack(x) => AttackView::MeleeSpellAttack(x.deep_view()),
            Attack::RangedSpellAttack(x) => AttackView::RangedSpellAttack(x.deep_view()),
        }
    }
}

impl AttackView {
    /// The stat-block sentence of an attack: weapon variants name a weapon
    /// attack, spell variants a spell attack.
    pub open spec fn spec_display(self) -> Seq<char> {
        match self {
            AttackView::MeleeWeaponAttack(x) => x.spec_display("Weapon"@),
            AttackView::RangedWeaponAttack(x) => x.spec_display("Weapon"@),
            AttackView::MeleeOrRangedWeaponAttack(x) => x.spec_display("Weapon"@),
            AttackView::MeleeSpellAttack(x) => x.spec_display("Spell"@),
            AttackView::RangedSpellAttack(x) => x.spec_display("Spell"@),
        }
    }
}

impl Attack {
    /// Renders the stat-block sentence of this attack.
    pub fn to_string(&self) -> (s: String)
        ensures
            s@ == self.deep_view().spec_display(),
    {
        match self {
            Attack::MeleeWeaponAttack(x) => x.display_with_kind("Weapon"),
            Attack::RangedWeaponAttack(x) => x.display_with_kind("Weapon"),
            Attack::MeleeOrRangedWeaponAttack(x) => x.display_with_kind("Weapon"),
            Attack::MeleeSpellAttack(x) => x.display_with_kind("Spell"),
            Attack::RangedSpellAttack(x) => x.display_with_kind("Spell"),
        }
    }
}

impl Codec for Attack {
    open spec fn spec_enc(v: AttackView) -> RecordV {
        match v {
            AttackView::MeleeWeaponAttack(a0) => RecordV::Tag("MeleeWeaponAttack"@, seq![<Melee as Codec>::spec_enc(a0)]),
            AttackView::RangedWeaponAttack(a0) => RecordV::Tag("RangedWeaponAttack"@, seq![<Ranged as Codec>::spec_enc(a0)]),
            AttackView::MeleeOrRangedWeaponAttack(a0) => RecordV::Tag("MeleeOrRangedWeaponAttack"@, seq![<MeleeOrRanged as Codec>::spec_enc(a0)]),
            AttackView::MeleeSpellAttack(a0) => RecordV::Tag("MeleeSpellAttack"@, seq![<Melee as Codec>::spec_enc(a0)]),
            AttackView::RangedSpellAttack(a0) => RecordV::Tag("RangedSpellAttack"@, seq![<Ranged as Codec>::spec_enc(a0)]),
        }
    }

    open spec fn spec_dec(r: RecordV) -> Option<AttackView> {
        match r {
            RecordV::Tag(t, args) => {
                if t == "MeleeWeaponAttack"@ && args.len() == 1 {
                    match <Melee as Codec>::spec_dec(args[0]) {
                        Some(a0) => Some(AttackView::MeleeWeaponAttack(a0)),
                        None => None,
                    }
                } else if t == "RangedWeaponAttack"@ && args.len() == 1 {
                    match <Ranged as Codec>::spec_dec(args[0]) {
                        Some(a0) => Some(AttackView::RangedWeaponAttack(a0)),
                        None => None,
                    }
                } else if t == "MeleeOrRangedWeaponAttack"@ && args.len() == 1 {
                    match <MeleeOrRanged as Codec>::spec_dec(args[0]) {
                        Some(a0) => Some(AttackView::MeleeOrRangedWeaponAttack(a0)),
                        None => None,
                    }
                } else if t == "MeleeSpellAttack"@ && args.len() == 1 {
                    match <Melee as Codec>::spec_dec(args[0]) {
                        Some(a0) => Some(AttackView::MeleeSpellAttack(a0)),
                        None => None,
                    }
                } else if t == "RangedSpellAttack"@ && args.len() == 1 {
                    match <Ranged as Codec>::spec_dec(args[0]) {
                        Some(a0) => Some(AttackView::RangedSpellAttack(a0)),
                        None => None,
                    }
                } else {
                    None
                }
            },
            _ => None,
        }
    }

    fn to_record(&self) -> (r: Record) {
        match self {
            Attack::MeleeWeaponAttack(a0) => {
                let mut args: Vec<Record> = Vec::new();
                args.push(a0.to_record());
                let r = Record::Tag(String::from_str("MeleeWeaponAttack"), args);
                proof {
                    assert(rec_views(args@) =~= seq![<Melee as Codec>::spec_enc(a0.deep_view())]);
                }
                r
            },
            Attack::RangedWeaponAttack(a0) => {
                let mut args: Vec<Record> = Vec::new();
                args.push(a0.to_record());
                let r = Record::Tag(String::from_str("RangedWeaponAttack"), args);
                proof {
                    assert(rec_views(args@) =~= seq![<Ranged as Codec>::spec_enc(a0.deep_view())]);
                }
                r
            },
            Attack::MeleeOrRangedWeaponAttack(a0) => {
                let mut args: Vec<Record> = Vec::new();
                args.push(a0.to_record());
                let r = Record::Tag(String::from_str("MeleeOrRangedWeaponAttack"), args);
                proof {
                    assert(rec_views(args@) =~= seq![<MeleeOrRanged as Codec>::spec_enc(a0.deep_view())]);
                }
                r
            },
            Attack::MeleeSpellAttack(a0) => {
                let mut args: Vec<Record> = Vec::new();
                args.push(a0.to_record());
                let r = Record::Tag(String::from_str("MeleeSpellAttack"), args);
                proof {
                    assert(rec_views(args@) =~= seq![<Melee as Codec>::spec_enc(a0.deep_view())]);
                }
                r
            },
            Attack::RangedSpellAttack(a0) => {
                let mut args: Vec<Record> = Vec::new();
                args.push(a0.to_record());
                let r = Record::Tag(String::from_str("RangedSpellAttack"), args);
                proof {
                    assert(rec_views(args@) =~= seq![<Ranged as Codec>::spec_enc(a0.deep_view())]);
                }
                r
            },
        }
    }

    fn from_record(r: &Record) -> (res: Result<Attack, DecodeError>) {
        match r {
            Record::Tag(t, args) => {
                if str_eq(t.as_str(), "MeleeWeaponAttack") && args.len() == 1 {
                    let a0 = match <Melee>::from_record(&args[0]) {
                        Ok(x) => x,
                        Err(e) => return Err(e),
                    };
                    Ok(Attack::MeleeWeaponAttack(a0))
                } else if str_eq(t.as_str(), "RangedWeaponAttack") && args.len() == 1 {
                    let a0 = match <Ranged>::from_record(&args[0]) {
                        Ok(x) => x,
                        Err(e) => return Err(e),
                    };
                    Ok(Attack::RangedWeaponAttack(a0))
                } else if str_eq(t.as_str(), "MeleeOrRangedWeaponAttack") && args.len() == 1 {
                    let a0 = match <MeleeOrRanged>::from_record(&args[0]) {
                        Ok(x) => x,
                        Err(e) => return Err(e),
                    };
                    Ok(Attack::MeleeOrRangedWeaponAttack(a0))
                } else if str_eq(t.as_str(), "MeleeSpellAttack") && args.len() == 1 {
                    let a0 = match <Melee>::from_record(&args[0]) {
                        Ok(x) => x,
                        Err(e) => return Err(e),
                    };
                    Ok(Attack::MeleeSpellAttack(a0))
                } else if str_eq(t.as_str(), "RangedSpellAttack") && args.len() == 1 {
                    let a0 = match <Ranged>::from_record(&args[0]) {
                        Ok(x) => x,
                        Err(e) => return Err(e),
                    };
                    Ok(Attack::RangedSpellAttack(a0))
                } else {
                    Err(DecodeError::Malformed)
                }
            },
            _ => Err(DecodeError::Malformed),
        }
    }

    proof fn lemma_round_trip(v: AttackView) {
        reveal_strlit("MeleeWeaponAttack");
        reveal_strlit("RangedWeaponAttack");
        reveal_strlit("MeleeOrRangedWeaponAttack");
        reveal_strlit("MeleeSpellAttack");
        reveal_strlit("RangedSpellAttack");
        assert(("RangedWeaponAttack"@) != ("MeleeWeaponAttack"@)) by {
            assert(("RangedWeaponAttack"@)[0] == 'R');
            assert(("MeleeWeaponAttack"@)[0] == 'M');
        }
        assert(("MeleeOrRangedWeaponAttack"@) != ("MeleeWeaponAttack"@)) by {
            assert(("MeleeOrRangedWeaponAttack"@)[5] == 'O');
            assert(("MeleeWeaponAttack"@)[5] == 'W');
        }
        assert(("MeleeOrRangedWeaponAttack"@) != ("RangedWeaponAttack"@)) by {
            assert(("MeleeOrRangedWeaponAttack"@)[0] == 'M');
            assert(("RangedWeaponAttack"@)[0] == 'R');
        }
        assert(("MeleeSpellAttack"@) != ("MeleeWeaponAttack"@)) by {
            assert(("MeleeSpellAttack"@)[5] == 'S');
            assert(("MeleeWeaponAttack"@)[5] == 'W');
        }
        assert(("MeleeSpellAttack"@) != ("RangedWeaponAttack"@)) by {
            assert(("MeleeSpellAttack"@)[0] == 'M');
            assert(("RangedWeaponAttack"@)[0] == 'R');
        }
        assert(("MeleeSpellAttack"@) != ("MeleeOrRangedWeaponAttack"@)) by {
            assert(("MeleeSpellAttack"@)[5] == 'S');
            assert(("MeleeOrRangedWeaponAttack"@)[5] == 'O');
        }
        assert(("RangedSpellAttack"@) != ("MeleeWeaponAttack"@)) by {
            assert(("RangedSpellAttack"@)[0] == 'R');
            assert(("MeleeWeaponAttack"@)[0] == 'M');
        }
        assert(("RangedSpellAttack"@) != ("RangedWeaponAttack"@)) by {
            assert(("RangedSpellAttack"@)[6] == 'S');
            assert(("RangedWeaponAttack"@)[6] == 'W');
        }
        assert(("RangedSpellAttack"@) != ("MeleeOrRangedWeaponAttack"@)) by {
            assert(("RangedSpellAttack"@)[0] == 'R');
            assert(("MeleeOrRangedWeaponAttack"@)[0] == 'M');
        }
        assert(("RangedSpellAttack"@) != ("MeleeSpellAttack"@)) by {
            assert(("RangedSpellAttack"@)[0] == 'R');
            assert(("MeleeSpellAttack"@)[0] == 'M');
        }
        match v {
            AttackView::MeleeWeaponAttack(a0) => {
                <Melee as Codec>::lemma_round_trip(a0);
                assert(Self::spec_dec(Self::spec_enc(v)) == Some(v));
            },
            AttackView::RangedWeaponAttack(a0) => {
                <Ranged as Codec>::lemma_round_trip(a0);
                assert(Self::spec_dec(Self::spec_enc(v)) == Some(v));
            },
            AttackView::MeleeOrRangedWeaponAttack(a0) => {
                <MeleeOrRanged as Codec>::lemma_round_trip(a0);
                assert(Self::spec_dec(Self::spec_enc(v)) == Some(v));
            },
            AttackView::MeleeSpellAttack(a0) => {
                <Melee as Codec>::lemma_round_trip(a0);
                assert(Self::spec_dec(Self::spec_enc(v)) == Some(v));
            },
            AttackView::RangedSpellAttack(a0) => {
                <Ranged as Codec>::lemma_round_trip(a0);
                assert(Self::spec_dec(Self::spec_enc(v)) == Some(v));
            },
        }
    }
}

} // verus!
