//! Creatures: the stat-block data of a monster, player or NPC, with its
//! attributes, senses, languages, traits and actions, and a validating
//! request-to-creature conversion.

use vstd::prelude::*;

pub mod monster;

verus! {

use crate::action::{Action, ActionView};
use crate::ident::fresh_id;
use crate::record::{Codec, DecodeError, Record, RecordV, field_views, rec_views, str_eq};
use crate::text::{dec_str, dec_string, push_dec_i64};
use crate::{Alignment, ConditionType, ConstructionError, DamageType, Die, DieStat, OtherAttribute, OtherAttributeView};


/// A creature's full stat block.
#[derive(Debug, Clone, PartialEq)]
pub struct Creature {
    id: String,
    name: String,
    creature_type: CreatureType,
    alignment: Alignment,
    armor_class: i32,
    health_points: Health,
    speed: MovementSpeed,
    stats: Vec<Stat>,
    saving_throws: Option<Vec<Stat>>,
    damage_resistances: Option<Vec<DamageType>>,
    damage_immunities: Option<Vec<DamageType>>,
    damage_vulnerabilities: Option<Vec<DamageType>>,
    condition_immunities: Option<Vec<ConditionType>>,
    skills: Option<Vec<Skill>>,
    senses: Option<Vec<Sense>>,
    languages: Option<Vec<Language>>,
    challenge_rating: String,
    racial_traits: Option<Vec<RacialTrait>>,
    description: Option<String>,
    actions: Option<Vec<Action>>,
    lair: Option<Lair>,
    others: Option<Vec<OtherAttribute>>,
}

/// The mathematical form of a [`Creature`].
#[verifier::ext_equal]
pub struct CreatureView {
    pub id: Seq<char>,
    pub name: Seq<char>,
    pub creature_type: CreatureType,
    pub alignment: Alignment,
    pub armor_class: i32,
    pub health_points: Health,
    pub speed: MovementSpeed,
    pub stats: Seq<Stat>,
    pub saving_throws: Option<Seq<Stat>>,
    pub damage_resistances: Option<Seq<DamageType>>,
    pub damage_immunities: Option<Seq<DamageType>>,
    pub damage_vulnerabilities: Option<Seq<DamageType>>,
    pub condition_immunities: Option<Seq<ConditionType>>,
    pub skills: Option<Seq<Skill>>,
    pub senses: Option<Seq<Sense>>,
    pub languages: Option<Seq<Language>>,
    pub challenge_rating: Seq<char>,
    pub racial_traits: Option<Seq<RacialTraitView>>,
    pub description: Option<Seq<char>>,
    pub actions: Option<Seq<ActionView>>,
    pub lair: Option<LairView>,
    pub others: Option<Seq<OtherAttributeView>>,
}

impl DeepView for Creature {
    type V = CreatureView;

    closed spec fn deep_view(&self) -> CreatureView {
        CreatureView {
            id: self.id@,
            name: self.name@,
            creature_type: self.creature_type,
            alignment: self.alignment,
            armor_class: self.armor_class,
            health_points: self.health_points,
            speed: self.speed,
            stats: self.stats.deep_view(),
            saving_throws: self.saving_throws.deep_view(),
            damage_resistances: self.damage_resistances.deep_view(),
            damage_immunities: self.damage_immunities.deep_view(),
            damage_vulnerabilities: self.damage_vulnerabilities.deep_view(),
            condition_immunities: self.condition_immunities.deep_view(),
            skills: self.skills.deep_view(),
            senses: self.senses.deep_view(),
            languages: self.languages.deep_view(),
            challenge_rating: self.challenge_rating@,
            racial_traits: self.racial_traits.deep_view(),
            description: self.description.deep_view(),
            actions: self.actions.deep_view(),
            lair: self.lair.deep_view(),
            others: self.others.deep_view(),
        }
    }
}

impl Creature {
    /// Builds a creature from its parts. The identifier must be non-empty;
    /// an empty one is a construction error, never an accepted creature.
    #[verifier::rlimit(30)]
    pub fn new(
        id: String,
        name: String,
        creature_type: CreatureType,
        alignment: Alignment,
        armor_class: i32,
        health_points: Health,
        speed: MovementSpeed,
        stats: Vec<Stat>,
        saving_throws: Option<Vec<Stat>>,
        damage_resistances: Option<Vec<DamageType>>,
        damage_immunities: Option<Vec<DamageType>>,
        damage_vulnerabilities: Option<Vec<DamageType>>,
        condition_immunities: Option<Vec<ConditionType>>,
        skills: Option<Vec<Skill>>,
        senses: Option<Vec<Sense>>,
        languages: Option<Vec<Language>>,
        challenge_rating: String,
        racial_traits: Option<Vec<RacialTrait>>,
        description: Option<String>,
        actions: Option<Vec<Action>>,
        lair: Option<Lair>,
        others: Option<Vec<OtherAttribute>>,
    ) -> (res: Result<Creature, ConstructionError>)
        ensures
            res is Ok <==> id@.len() > 0,
            match res {
                Ok(c) => {
                    &&& c.deep_view().id == id@
                    &&& c.deep_view().name == name@
                    &&& c.deep_view().creature_type == creature_type
                    &&& c.deep_view().alignment == alignment
                    &&& c.deep_view().armor_class == armor_class
                    &&& c.deep_view().health_points == health_points
                    &&& c.deep_view().speed == speed
                    &&& c.deep_view().stats == stats.deep_view()
                    &&& c.deep_view().saving_throws == saving_throws.deep_view()
                    &&& c.deep_view().damage_resistances == damage_resistances.deep_view()
                    &&& c.deep_view().damage_immunities == damage_immunities.deep_view()
                    &&& c.deep_view().damage_vulnerabilities == damage_vulnerabilities.deep_view()
                    &&& c.deep_view().condition_immunities == condition_immunities.deep_view()
                    &&& c.deep_view().skills == skills.deep_view()
                    &&& c.deep_view().senses == senses.deep_view()
                    &&& c.deep_view().languages == languages.deep_view()
                    &&& c.deep_view().challenge_rating == challenge_rating@
                    &&& c.deep_view().racial_traits == racial_traits.deep_view()
                    &&& c.deep_view().description == description.deep_view()
                    &&& c.deep_view().actions == actions.deep_view()
                    &&& c.deep_view().lair == lair.deep_view()
                    &&& c.deep_view().others == others.deep_view()
                },
                Err(e) => e == ConstructionError::EmptyIdentifier,
            },
    {
        if id.as_str().is_empty() {
            return Err(ConstructionError::EmptyIdentifier);
        }
        Ok(Creature { id, name, creature_type, alignment, armor_class, health_points, speed, stats, saving_throws, damage_resistances, damage_immunities, damage_vulnerabilities, condition_immunities, skills, senses, languages, challenge_rating, racial_traits, description, actions, lair, others })
    }


    /// Reads the `id` field.
    pub fn id(&self) -> (r: &str)
        ensures
            r@ == self.deep_view().id,
    {
        self.id.as_str()
    }

    /// Reads the `name` field.
    pub fn name(&self) -> (r: &str)
        ensures
            r@ == self.deep_view().name,
    {
        self.name.as_str()
    }

    /// Reads the `creature_type` field.
    pub fn creature_type(&self) -> (r: &CreatureType)
        ensures
            *r == self.deep_view().creature_type,
    {
        &self.creature_type
    }

    /// Reads the `alignment` field.
    pub fn alignment(&self) -> (r: &Alignment)
        ensures
            *r == self.deep_view().alignment,
    {
        &self.alignment
    }

    /// Reads the `armor_class` field.
    pub fn armor_class(&self) -> (r: &i32)
        ensures
            *r == self.deep_view().armor_class,
    {
        &self.armor_class
    }

    /// Reads the `health_points` field.
    pub fn health_points(&self) -> (r: &Health)
        ensures
            *r == self.deep_view().health_points,
    {
        &self.health_points
    }

    /// Reads the `speed` field.
    pub fn speed(&self) -> (r: &MovementSpeed)
        ensures
            *r == self.deep_view().speed,
    {
        &self.speed
    }

    /// Reads the `stats` field.
    pub fn stats(&self) -> (r: &Vec<Stat>)
        ensures
            r.deep_view() == self.deep_view().stats,
    {
        &self.stats
    }

    /// Reads the `saving_throws` field.
    pub fn saving_throws(&self) -> (r: Option<&Vec<Stat>>)
        ensures
            match r {
                Some(v) => self.deep_view().saving_throws == Some(v.deep_view()),
                None => self.deep_view().saving_throws is None,
            },
    {
        match &self.saving_throws {
            Some(v) => Some(v),
            None => None,
        }
    }

    /// Reads the `damage_resistances` field.
    pub fn damage_resistances(&self) -> (r: Option<&Vec<DamageType>>)
        ensures
            match r {
                Some(v) => self.deep_view().damage_resistances == Some(v.deep_view()),
                None => self.deep_view().damage_resistances is None,
            },
    {
        match &self.damage_resistances {
            Some(v) => Some(v),
            None => None,
        }
    }

    /// Reads the `damage_immunities` field.
    pub fn damage_immunities(&self) -> (r: Option<&Vec<DamageType>>)
        ensures
            match r {
                Some(v) => self.deep_view().damage_immunities == Some(v.deep_view()),
                None => self.deep_view().damage_immunities is None,
            },
    {
        match &self.damage_immunities {
            Some(v) => Some(v),
            None => None,
        }
    }

    /// Reads the `damage_vulnerabilities` field.
    pub fn damage_vulnerabilities(&self) -> (r: Option<&Vec<DamageType>>)
        ensures
            match r {
                Some(v) => self.deep_view().damage_vulnerabilities == Some(v.deep_view()),
                None => self.deep_view().damage_vulnerabilities is None,
            },
    {
        match &self.damage_vulnerabilities {
            Some(v) => Some(v),
            None => None,
        }
    }

    /// Reads the `condition_immunities` field.
    pub fn condition_immunities(&self) -> (r: Option<&Vec<ConditionType>>)
        ensures
            match r {
                Some(v) => self.deep_view().condition_immunities == Some(v.deep_view()),
                None => self.deep_view().condition_immunities is None,
            },
    {
        match &self.condition_immunities {
            Some(v) => Some(v),
            None => None,
        }
    }

    /// Reads the `skills` field.
    pub fn skills(&self) -> (r: Option<&Vec<Skill>>)
        ensures
            match r {
                Some(v) => self.deep_view().skills == Some(v.deep_view()),
                None => self.deep_view().skills is None,
            },
    {
        match &self.skills {
            Some(v) => Some(v),
            None => None,
        }
    }

    /// Reads the `senses` field.
    pub fn senses(&self) -> (r: Option<&Vec<Sense>>)
        ensures
            match r {
                Some(v) => self.deep_view().senses == Some(v.deep_view()),
                None => self.deep_view().senses is None,
            },
    {
        match &self.senses {
            Some(v) => Some(v),
            None => None,
        }
    }

    /// Reads the `languages` field.
    pub fn languages(&self) -> (r: Option<&Vec<Language>>)
        ensures
            match r {
                Some(v) => self.deep_view().languages == Some(v.deep_view()),
                None => self.deep_view().languages is None,
            },
    {
        match &self.languages {
            Some(v) => Some(v),
            None => None,
        }
    }

    /// Reads the `challenge_rating` field.
    pub fn challenge_rating(&self) -> (r: &str)
        ensures
            r@ == self.deep_view().challenge_rating,
    {
        self.challenge_rating.as_str()
    }

    /// Reads the `racial_traits` field.
    pub fn racial_traits(&self) -> (r: Option<&Vec<RacialTrait>>)
        ensures
            match r {
                Some(v) => self.deep_view().racial_traits == Some(v.deep_view()),
                None => self.deep_view().racial_traits is None,
            },
    {
        match &self.racial_traits {
            Some(v) => Some(v),
            None => None,
        }
    }

    /// Reads the `description` field.
    pub fn description(&self) -> (r: Option<&str>)
        ensures
            match r {
                Some(s) => self.deep_view().description == Some(s@),
                None => self.deep_view().description is None,
            },
    {
        match &self.description {
            Some(s) => Some(s.as_str()),
            None => None,
        }
    }

    /// Reads the `actions` field.
    pub fn actions(&self) -> (r: Option<&Vec<Action>>)
        ensures
            match r {
                Some(v) => self.deep_view().actions == Some(v.deep_view()),
                None => self.deep_view().actions is None,
            },
    {
        match &self.actions {
            Some(v) => Some(v),
            None => None,
        }
    }

    /// Reads the `lair` field.
    pub fn lair(&self) -> (r: Option<&Lair>)
        ensures
            match r {
                Some(v) => self.deep_view().lair == Some(v.deep_view()),
                None => self.deep_view().lair is None,
            },
    {
        match &self.lair {
            Some(v) => Some(v),
            None => None,
        }
    }

    /// Reads the `others` field.
    pub fn others(&self) -> (r: Option<&Vec<OtherAttribute>>)
        ensures
            match r {
                Some(v) => self.deep_view().others == Some(v.deep_view()),
                None => self.deep_view().others is None,
            },
    {
        match &self.others {
            Some(v) => Some(v),
            None => None,
        }
    }

    /// Replaces the `name` field.
    pub fn set_name(&mut self, name: String)
        ensures
            final(self).deep_view() == (CreatureView { name: name@, ..old(self).deep_view() }),
    {
        self.name = name;
    }

    /// Replaces the `creature_type` field.
    pub fn set_creature_type(&mut self, creature_type: CreatureType)
        ensures
            final(self).deep_view() == (CreatureView { creature_type: creature_type, ..old(self).deep_view() }),
    {
        self.creature_type = creature_type;
    }

    /// Replaces the `alignment` field.
    pub fn set_alignment(&mut self, alignment: Alignment)
        ensures
            final(self).deep_view() == (CreatureView { alignment: alignment, ..old(self).deep_view() }),
    {
        self.alignment = alignment;
    }

    /// Replaces the `armor_class` field.
    pub fn set_armor_class(&mut self, armor_class: i32)
        ensures
            final(self).deep_view() == (CreatureView { armor_class: armor_class, ..old(self).deep_view() }),
    {
        self.armor_class = armor_class;
    }

    /// Replaces the `health_points` field.
    pub fn set_health_points(&mut self, health_points: Health)
        ensures
            final(self).deep_view() == (CreatureView { health_points: health_points, ..old(self).deep_view() }),
    {
        self.health_points = health_points;
    }

    /// Replaces the `speed` field.
    pub fn set_speed(&mut self, speed: MovementSpeed)
        ensures
            final(self).deep_view() == (CreatureView { speed: speed, ..old(self).deep_view() }),
    {
        self.speed = speed;
    }

    /// Replaces the `stats` field.
    pub fn set_stats(&mut self, stats: Vec<Stat>)
        ensures
            final(self).deep_view() == (CreatureView { stats: stats.deep_view(), ..old(self).deep_view() }),
    {
        self.stats = stats;
    }

    /// Replaces the `saving_throws` field.
    pub fn set_saving_throws(&mut self, saving_throws: Option<Vec<Stat>>)
        ensures
            final(self).deep_view() == (CreatureView { saving_throws: saving_throws.deep_view(), ..old(self).deep_view() }),
    {
        self.saving_throws = saving_throws;
    }

    /// Replaces the `damage_resistances` field.
    pub fn set_damage_resistances(&mut self, damage_resistances: Option<Vec<DamageType>>)
        ensures
            final(self).deep_view() == (CreatureView { damage_resistances: damage_resistances.deep_view(), ..old(self).deep_view() }),
    {
        self.damage_resistances = damage_resistances;
    }

    /// Replaces the `damage_immunities` field.
    pub fn set_damage_immunities(&mut self, damage_immunities: Option<Vec<DamageType>>)
        ensures
            final(self).deep_view() == (CreatureView { damage_immunities: damage_immunities.deep_view(), ..old(self).deep_view() }),
    {
        self.damage_immunities = damage_immunities;
    }

    /// Replaces the `damage_vulnerabilities` field.
    pub fn set_damage_vulnerabilities(&mut self, damage_vulnerabilities: Option<Vec<DamageType>>)
        ensures
            final(self).deep_view() == (CreatureView { damage_vulnerabilities: damage_vulnerabilities.deep_view(), ..old(self).deep_view() }),
    {
        self.damage_vulnerabilities = damage_vulnerabilities;
    }

    /// Replaces the `condition_immunities` field.
    pub fn set_condition_immunities(&mut self, condition_immunities: Option<Vec<ConditionType>>)
        ensures
            final(self).deep_view() == (CreatureView { condition_immunities: condition_immunities.deep_view(), ..old(self).deep_view() }),
    {
        self.condition_immunities = condition_immunities;
    }

    /// Replaces the `skills` field.
    pub fn set_skills(&mut self, skills: Option<Vec<Skill>>)
        ensures
            final(self).deep_view() == (CreatureView { skills: skills.deep_view(), ..old(self).deep_view() }),
    {
        self.skills = skills;
    }

    /// Replaces the `senses` field.
    pub fn set_senses(&mut self, senses: Option<Vec<Sense>>)
        ensures
            final(self).deep_view() == (CreatureView { senses: senses.deep_view(), ..old(self).deep_view() }),
    {
        self.senses = senses;
    }

    /// Replaces the `languages` field.
    pub fn set_languages(&mut self, languages: Option<Vec<Language>>)
        ensures
            final(self).deep_view() == (CreatureView { languages: languages.deep_view(), ..old(self).deep_view() }),
    {
        self.languages = languages;
    }

    /// Replaces the `challenge_rating` field.
    pub fn set_challenge_rating(&mut self, challenge_rating: String)
        ensures
            final(self).deep_view() == (CreatureView { challenge_rating: challenge_rating@, ..old(self).deep_view() }),
    {
        self.challenge_rating = challenge_rating;
    }

    /// Replaces the `racial_traits` field.
    pub fn set_racial_traits(&mut self, racial_traits: Option<Vec<RacialTrait>>)
        ensures
            final(self).deep_view() == (CreatureView { racial_traits: racial_traits.deep_view(), ..old(self).deep_view() }),
    {
        self.racial_traits = racial_traits;
    }

    /// Replaces the `description` field.
    pub fn set_description(&mut self, description: Option<String>)
        ensures
            final(self).deep_view() == (CreatureView { description: description.deep_view(), ..old(self).deep_view() }),
    {
        self.description = description;
    }

    /// Replaces the `actions` field.
    pub fn set_actions(&mut self, actions: Option<Vec<Action>>)
        ensures
            final(self).deep_view() == (CreatureView { actions: actions.deep_view(), ..old(self).deep_view() }),
    {
        self.actions = actions;
    }

    /// Replaces the `lair` field.
    pub fn set_lair(&mut self, lair: Option<Lair>)
        ensures
            final(self).deep_view() == (CreatureView { lair: lair.deep_view(), ..old(self).deep_view() }),
    {
        self.lair = lair;
    }

    /// Replaces the `others` field.
    pub fn set_others(&mut self, others: Option<Vec<OtherAttribute>>)
        ensures
            final(self).deep_view() == (CreatureView { others: others.deep_view(), ..old(self).deep_view() }),
    {
        self.others = others;
    }
}

/// A partially specified creature: every field is optional, and conversion
/// to a [`Creature`] checks that each required field is present.
#[derive(Debug, Clone, PartialEq)]
pub struct CreatureRequest {
    pub name: Option<String>,
    pub creature_type: Option<CreatureType>,
    pub alignment: Option<Alignment>,
    pub armor_class: Option<i32>,
    pub health_points: Option<Health>,
    pub speed: Option<MovementSpeed>,
    pub stats: Option<Vec<Stat>>,
    pub saving_throws: Option<Vec<Stat>>,
    pub damage_resistances: Option<Vec<DamageType>>,
    pub damage_immunities: Option<Vec<DamageType>>,
    pub damage_vulnerabilities: Option<Vec<DamageType>>,
    pub condition_immunities: Option<Vec<ConditionType>>,
    pub skills: Option<Vec<Skill>>,
    pub senses: Option<Vec<Sense>>,
    pub languages: Option<Vec<Language>>,
    pub challenge_rating: Option<String>,
    pub racial_traits: Option<Vec<RacialTrait>>,
    pub description: Option<String>,
    pub actions: Option<Vec<Action>>,
    pub lair: Option<Lair>,
    pub others: Option<Vec<OtherAttribute>>,
}

/// The mathematical form of a [`CreatureRequest`].
#[verifier::ext_equal]
pub struct CreatureRequestView {
    pub name: Option<Seq<char>>,
    pub creature_type: Option<CreatureType>,
    pub alignment: Option<Alignment>,
    pub armor_class: Option<i32>,
    pub health_points: Option<Health>,
    pub speed: Option<MovementSpeed>,
    pub stats: Option<Seq<Stat>>,
    pub saving_throws: Option<Seq<Stat>>,
    pub damage_resistances: Option<Seq<DamageType>>,
    pub damage_immunities: Option<Seq<DamageType>>,
    pub damage_vulnerabilities: Option<Seq<DamageType>>,
    pub condition_immunities: Option<Seq<ConditionType>>,
    pub skills: Option<Seq<Skill>>,
    pub senses: Option<Seq<Sense>>,
    pub languages: Option<Seq<Language>>,
    pub challenge_rating: Option<Seq<char>>,
    pub racial_traits: Option<Seq<RacialTraitView>>,
    pub description: Option<Seq<char>>,
    pub actions: Option<Seq<ActionView>>,
    pub lair: Option<LairView>,
    pub others: Option<Seq<OtherAttributeView>>,
}

impl DeepView for CreatureRequest {
    type V = CreatureRequestView;

    open spec fn deep_view(&self) -> CreatureRequestView {
        CreatureRequestView {
            name: self.name.deep_view(),
            creature_type: self.creature_type.deep_view(),
            alignment: self.alignment.deep_view(),
            armor_class: self.armor_class.deep_view(),
            health_points: self.health_points.deep_view(),
            speed: self.speed.deep_view(),
            stats: self.stats.deep_view(),
            saving_throws: self.saving_throws.deep_view(),
            damage_resistances: self.damage_resistances.deep_view(),
            damage_immunities: self.damage_immunities.deep_view(),
            damage_vulnerabilities: self.damage_vulnerabilities.deep_view(),
            condition_immunities: self.condition_immunities.deep_view(),
            skills: self.skills.deep_view(),
            senses: self.senses.deep_view(),
            languages: self.languages.deep_view(),
            challenge_rating: self.challenge_rating.deep_view(),
            racial_traits: self.racial_traits.deep_view(),
            description: self.description.deep_view(),
            actions: self.actions.deep_view(),
            lair: self.lair.deep_view(),
            others: self.others.deep_view(),
        }
    }
}

impl Default for CreatureRequest {
    /// An empty request: every field absent.
    fn default() -> (r: CreatureRequest)
        ensures
            r.deep_view().name is None,
            r.deep_view().creature_type is None,
            r.deep_view().alignment is None,
            r.deep_view().armor_class is None,
            r.deep_view().health_points is None,
            r.deep_view().speed is None,
            r.deep_view().stats is None,
            r.deep_view().saving_throws is None,
            r.deep_view().damage_resistances is None,
            r.deep_view().damage_immunities is None,
            r.deep_view().damage_vulnerabilities is None,
            r.deep_view().condition_immunities is None,
            r.deep_view().skills is None,
            r.deep_view().senses is None,
            r.deep_view().languages is None,
            r.deep_view().challenge_rating is None,
            r.deep_view().racial_traits is None,
            r.deep_view().description is None,
            r.deep_view().actions is None,
            r.deep_view().lair is None,
            r.deep_view().others is None,
    {
        CreatureRequest {
            name: None,
            creature_type: None,
            alignment: None,
            armor_class: None,
            health_points: None,
            speed: None,
            stats: None,
            saving_throws: None,
            damage_resistances: None,
            damage_immunities: None,
            damage_vulnerabilities: None,
            condition_immunities: None,
            skills: None,
            senses: None,
            languages: None,
            challenge_rating: None,
            racial_traits: None,
            description: None,
            actions: None,
            lair: None,
            others: None,
        }
    }
}

impl CreatureRequest {
    /// Converts this request into a creature. Conversion fails exactly when a
    /// required field is absent; on success the creature takes every supplied
    /// field and a freshly generated, non-empty identifier.
    pub fn to_creature(self) -> (res: Result<Creature, ConstructionError>)
        ensures
            res is Ok <==> {
                &&& self.deep_view().name is Some
                &&& self.deep_view().creature_type is Some
                &&& self.deep_view().alignment is Some
                &&& self.deep_view().armor_class is Some
                &&& self.deep_view().health_points is Some
                &&& self.deep_view().speed is Some
                &&& self.deep_view().stats is Some
                &&& self.deep_view().challenge_rating is Some
            },
            match res {
                Ok(c) => {
                    &&& c.deep_view().id.len() == 36
                    &&& c.deep_view().name == self.deep_view().name.unwrap()
                    &&& c.deep_view().creature_type == self.deep_view().creature_type.unwrap()
                    &&& c.deep_view().alignment == self.deep_view().alignment.unwrap()
                    &&& c.deep_view().armor_class == self.deep_view().armor_class.unwrap()
                    &&& c.deep_view().health_points == self.deep_view().health_points.unwrap()
                    &&& c.deep_view().speed == self.deep_view().speed.unwrap()
                    &&& c.deep_view().stats == self.deep_view().stats.unwrap()
                    &&& c.deep_view().saving_throws == self.deep_view().saving_throws
                    &&& c.deep_view().damage_resistances == self.deep_view().damage_resistances
                    &&& c.deep_view().damage_immunities == self.deep_view().damage_immunities
                    &&& c.deep_view().damage_vulnerabilities == self.deep_view().damage_vulnerabilities
                    &&& c.deep_view().condition_immunities == self.deep_view().condition_immunities
                    &&& c.deep_view().skills == self.deep_view().skills
                    &&& c.deep_view().senses == self.deep_view().senses
                    &&& c.deep_view().languages == self.deep_view().languages
                    &&& c.deep_view().challenge_rating == self.deep_view().challenge_rating.unwrap()
                    &&& c.deep_view().racial_traits == self.deep_view().racial_traits
                    &&& c.deep_view().description == self.deep_view().description
                    &&& c.deep_view().actions == self.deep_view().actions
                    &&& c.deep_view().lair == self.deep_view().lair
                    &&& c.deep_view().others == self.deep_view().others
                },
                Err(e) => e == ConstructionError::MissingField,
            },
    {
        let name = match self.name {
            Some(x) => x,
            None => return Err(ConstructionError::MissingField),
        };
        let creature_type = match self.creature_type {
            Some(x) => x,
            None => return Err(ConstructionError::MissingField),
        };
        let alignment = match self.alignment {
            Some(x) => x,
            None => return Err(ConstructionError::MissingField),
        };
        let armor_class = match self.armor_class {
            Some(x) => x,
            None => return Err(ConstructionError::MissingField),
        };
        let health_points = match self.health_points {
            Some(x) => x,
            None => return Err(ConstructionError::MissingField),
        };
        let speed = match self.speed {
            Some(x) => x,
            None => return Err(ConstructionError::MissingField),
        };
        let stats = match self.stats {
            Some(x) => x,
            None => return Err(ConstructionError::MissingField),
        };
        let saving_throws = self.saving_throws;
        let damage_resistances = self.damage_resistances;
        let damage_immunities = self.damage_immunities;
        let damage_vulnerabilities = self.damage_vulnerabilities;
        let condition_immunities = self.condition_immunities;
        let skills = self.skills;
        let senses = self.senses;
        let languages = self.languages;
        let challenge_rating = match self.challenge_rating {
            Some(x) => x,
            None => return Err(ConstructionError::MissingField),
        };
        let racial_traits = self.racial_traits;
        let description = self.description;
        let actions = self.actions;
        let lair = self.lair;
        let others = self.others;
        let id = fresh_id();
        Ok(Creature {
            id,
            name,
            creature_type,
            alignment,
            armor_class,
            health_points,
            speed,
            stats,
            saving_throws,
            damage_resistances,
            damage_immunities,
            damage_vulnerabilities,
            condition_immunities,
            skills,
            senses,
            languages,
            challenge_rating,
            racial_traits,
            description,
            actions,
            lair,
            others,
        })
    }
}

/// How a creature moves: its speeds in feet, one variant per mode.
#[derive(Debug, Clone, Copy, PartialEq, Eq, Structural)]
pub enum MovementSpeed {
    Walk(u8),
    Swim(u8),
    Fly { speed: u8, hover: bool },
    Burrow(u8),
    Climb(u8),
}

impl DeepView for MovementSpeed {
    type V = MovementSpeed;

    open spec fn deep_view(&self) -> MovementSpeed {
        *self
    }
}

impl MovementSpeed {
    /// The display text of this speed: the mode, the feet, and `" (hover)"`
    /// for a hovering flight.
    pub open spec fn spec_display(self) -> Seq<char> {
        match self {
            MovementSpeed::Walk(x) => dec_str(x as int) + "ft."@,
            MovementSpeed::Burrow(x) => "burrow "@ + dec_str(x as int) + "ft."@,
            MovementSpeed::Swim(x) => "swim "@ + dec_str(x as int) + "ft."@,
            MovementSpeed::Climb(x) => "climb "@ + dec_str(x as int) + "ft."@,
            MovementSpeed::Fly { speed, hover } => "fly "@ + dec_str(speed as int) + "ft."@ + (
            if hover {
                " (hover)"@
            } else {
                Seq::<char>::empty()
            }),
        }
    }

    /// Renders the display text of this speed.
    pub fn to_string(&self) -> (s: String)
        ensures
            s@ == self.spec_display(),
    {
        match self {
            MovementSpeed::Walk(x) => {
                let mut s = dec_string(*x as i64);
                s.append("ft.");
                s
            },
            MovementSpeed::Burrow(x) => {
                let mut s = String::from_str("burrow ");
                push_dec_i64(&mut s, *x as i64);
                s.append("ft.");
                proof {
                    assert(s@ =~= self.spec_display());
                }
                s
            },
            MovementSpeed::Swim(x) => {
                let mut s = String::from_str("swim ");
                push_dec_i64(&mut s, *x as i64);
                s.append("ft.");
                proof {
                    assert(s@ =~= self.spec_display());
                }
                s
            },
            MovementSpeed::Climb(x) => {
                let mut s = String::from_str("climb ");
                push_dec_i64(&mut s, *x as i64);
                s.append("ft.");
                proof {
                    assert(s@ =~= self.spec_display());
                }
                s
            },
            MovementSpeed::Fly { speed, hover } => {
                let mut s = String::from_str("fly ");
                push_dec_i64(&mut s, *speed as i64);
                s.append("ft.");
                if *hover {
                    s.append(" (hover)");
                }
                proof {
                    assert(s@ =~= self.spec_display());
                }
                s
            },
        }
    }
}

impl Codec for MovementSpeed {
    open spec fn spec_enc(v: MovementSpeed) -> RecordV {
        match v {
            MovementSpeed::Walk(x) => RecordV::Tag("Walk"@, seq![<u8 as Codec>::spec_enc(x)]),
            MovementSpeed::Swim(x) => RecordV::Tag("Swim"@, seq![<u8 as Codec>::spec_enc(x)]),
            MovementSpeed::Fly { speed, hover } => RecordV::Tag(
                "Fly"@,
                seq![<u8 as Codec>::spec_enc(speed), <bool as Codec>::spec_enc(hover)],
            ),
            MovementSpeed::Burrow(x) => RecordV::Tag("Burrow"@, seq![<u8 as Codec>::spec_enc(x)]),
            MovementSpeed::Climb(x) => RecordV::Tag("Climb"@, seq![<u8 as Codec>::spec_enc(x)]),
        }
    }

    open spec fn spec_dec(r: RecordV) -> Option<MovementSpeed> {
        match r {
            RecordV::Tag(t, args) => {
                if t == "Walk"@ && args.len() == 1 {
                    match <u8 as Codec>::spec_dec(args[0]) {
                        Some(a0) => Some(MovementSpeed::Walk(a0)),
                        None => None,
                    }
                } else if t == "Swim"@ && args.len() == 1 {
                    match <u8 as Codec>::spec_dec(args[0]) {
                        Some(a0) => Some(MovementSpeed::Swim(a0)),
                        None => None,
                    }
                } else if t == "Fly"@ && args.len() == 2 {
                    match (<u8 as Codec>::spec_dec(args[0]), <bool as Codec>::spec_dec(args[1])) {
                        (Some(a0), Some(a1)) => Some(MovementSpeed::Fly { speed: a0, hover: a1 }),
                        _ => None,
                    }
                } else if t == "Burrow"@ && args.len() == 1 {
                    match <u8 as Codec>::spec_dec(args[0]) {
                        Some(a0) => Some(MovementSpeed::Burrow(a0)),
                        None => None,
                    }
                } else if t == "Climb"@ && args.len() == 1 {
                    match <u8 as Codec>::spec_dec(args[0]) {
                        Some(a0) => Some(MovementSpeed::Climb(a0)),
                        None => None,
                    }
                } else {
                    None
                }
            },
            _ => None,
        }
    }

    fn to_record(&self) -> (r: Record) {
        match self {
            MovementSpeed::Walk(x) => {
                let mut args: Vec<Record> = Vec::new();
                args.push(x.to_record());
                let r = Record::Tag(String::from_str("Walk"), args);
                proof {
                    assert(rec_views(args@) =~= seq![<u8 as Codec>::spec_enc(*x)]);
                }
                r
            },
            MovementSpeed::Swim(x) => {
                let mut args: Vec<Record> = Vec::new();
                args.push(x.to_record());
                let r = Record::Tag(String::from_str("Swim"), args);
                proof {
                    assert(rec_views(args@) =~= seq![<u8 as Codec>::spec_enc(*x)]);
                }
                r
            },
            MovementSpeed::Fly { speed, hover } => {
                let mut args: Vec<Record> = Vec::new();
                args.push(speed.to_record());
                args.push(hover.to_record());
                let r = Record::Tag(String::from_str("Fly"), args);
                proof {
                    assert(rec_views(args@) =~= seq![
                        <u8 as Codec>::spec_enc(*speed),
                        <bool as Codec>::spec_enc(*hover),
                    ]);
                }
                r
            },
            MovementSpeed::Burrow(x) => {
                let mut args: Vec<Record> = Vec::new();
                args.push(x.to_record());
                let r = Record::Tag(String::from_str("Burrow"), args);
                proof {
                    assert(rec_views(args@) =~= seq![<u8 as Codec>::spec_enc(*x)]);
                }
                r
            },
            MovementSpeed::Climb(x) => {
                let mut args: Vec<Record> = Vec::new();
                args.push(x.to_record());
                let r = Record::Tag(String::from_str("Climb"), args);
                proof {
                    assert(rec_views(args@) =~= seq![<u8 as Codec>::spec_enc(*x)]);
                }
                r
            },
        }
    }

    fn from_record(r: &Record) -> (res: Result<MovementSpeed, DecodeError>) {
        match r {
            Record::Tag(t, args) => {
                if str_eq(t.as_str(), "Walk") && args.len() == 1 {
                    let a0 = match <u8>::from_record(&args[0]) {
                        Ok(x) => x,
                        Err(e) => return Err(e),
                    };
                    Ok(MovementSpeed::Walk(a0))
                } else if str_eq(t.as_str(), "Swim") && args.len() == 1 {
                    let a0 = match <u8>::from_record(&args[0]) {
                        Ok(x) => x,
                        Err(e) => return Err(e),
                    };
                    Ok(MovementSpeed::Swim(a0))
                } else if str_eq(t.as_str(), "Fly") && args.len() == 2 {
                    let a0 = match <u8>::from_record(&args[0]) {
                        Ok(x) => x,
                        Err(e) => return Err(e),
                    };
                    let a1 = match <bool>::from_record(&args[1]) {
                        Ok(x) => x,
                        Err(e) => return Err(e),
                    };
                    Ok(MovementSpeed::Fly { speed: a0, hover: a1 })
                } else if str_eq(t.as_str(), "Burrow") && args.len() == 1 {
                    let a0 = match <u8>::from_record(&args[0]) {
                        Ok(x) => x,
                        Err(e) => return Err(e),
                    };
                    Ok(MovementSpeed::Burrow(a0))
                } else if str_eq(t.as_str(), "Climb") && args.len() == 1 {
                    let a0 = match <u8>::from_record(&args[0]) {
                        Ok(x) => x,
                        Err(e) => return Err(e),
                    };
                    Ok(MovementSpeed::Climb(a0))
                } else {
                    Err(DecodeError::Malformed)
                }
            },
            _ => Err(DecodeError::Malformed),
        }
    }

    proof fn lemma_round_trip(v: MovementSpeed) {
        reveal_strlit("Walk");
        reveal_strlit("Swim");
        reveal_strlit("Fly");
        reveal_strlit("Burrow");
        reveal_strlit("Climb");
        assert(("Swim"@) != ("Walk"@)) by {
            assert(("Swim"@)[0] == 'S');
            assert(("Walk"@)[0] == 'W');
        }
        assert(("Fly"@) != ("Walk"@)) by {
            assert(("Fly"@).len() == 3);
            assert(("Walk"@).len() == 4);
        }
        assert(("Fly"@) != ("Swim"@)) by {
            assert(("Fly"@).len() == 3);
            assert(("Swim"@).len() == 4);
        }
        assert(("Burrow"@) != ("Walk"@)) by {
            assert(("Burrow"@).len() == 6);
            assert(("Walk"@).len() == 4);
        }
        assert(("Burrow"@) != ("Swim"@)) by {
            assert(("Burrow"@).len() == 6);
            assert(("Swim"@).len() == 4);
        }
        assert(("Burrow"@) != ("Fly"@)) by {
            assert(("Burrow"@).len() == 6);
            assert(("Fly"@).len() == 3);
        }
        assert(("Climb"@) != ("Walk"@)) by {
            assert(("Climb"@).len() == 5);
            assert(("Walk"@).len() == 4);
        }
        assert(("Climb"@) != ("Swim"@)) by {
            assert(("Climb"@).len() == 5);
            assert(("Swim"@).len() == 4);
        }
        assert(("Climb"@) != ("Fly"@)) by {
            assert(("Climb"@).len() == 5);
            assert(("Fly"@).len() == 3);
        }
        assert(("Climb"@) != ("Burrow"@)) by {
            assert(("Climb"@).len() == 5);
            assert(("Burrow"@).len() == 6);
        }
    }
}

/// One of a creature's six ability scores, with its derived modifier.
#[derive(Debug, Clone, Copy, PartialEq, Eq, Structural)]
pub struct Stat {
    pub stat_type: StatType,
    pub value: i32,
    pub modifier: i32,
}

impl DeepView for Stat {
    type V = Stat;

    open spec fn deep_view(&self) -> Stat {
        *self
    }
}

impl Stat {
    /// The modifier an ability score derives: half the score less ten,
    /// rounded down.
    pub open spec fn spec_modifier(value: int) -> int {
        (value - 10) / 2
    }

    /// Builds an ability score from its value; the modifier is always
    /// derived, never supplied.
    pub fn from_value(stat_type: StatType, value: i32) -> (r: Stat)
        ensures
            r.stat_type == stat_type,
            r.value == value,
            r.modifier == Stat::spec_modifier(value as int),
    {
        let d: i64 = value as i64 - 10;
        let m: i64 = if d >= 0 {
            d / 2
        } else {
            -((-d + 1) / 2)
        };
        Stat { stat_type, value, modifier: m as i32 }
    }
}

/// One of the six ability kinds.
#[derive(Debug, Clone, Copy, PartialEq, Eq, Structural)]
pub enum StatType {
    Strength,
    Dexterity,
    Constitution,
    Intelligence,
    Wisdom,
    Charisma,
}

impl DeepView for StatType {
    type V = StatType;

    open spec fn deep_view(&self) -> StatType {
        *self
    }
}

impl Codec for StatType {
    open spec fn spec_enc(v: StatType) -> RecordV {
        match v {
            StatType::Strength => RecordV::Tag("Strength"@, Seq::empty()),
            StatType::Dexterity => RecordV::Tag("Dexterity"@, Seq::empty()),
            StatType::Constitution => RecordV::Tag("Constitution"@, Seq::empty()),
            StatType::Intelligence => RecordV::Tag("Intelligence"@, Seq::empty()),
            StatType::Wisdom => RecordV::Tag("Wisdom"@, Seq::empty()),
            StatType::Charisma => RecordV::Tag("Charisma"@, Seq::empty()),
        }
    }

    open spec fn spec_dec(r: RecordV) -> Option<StatType> {
        match r {
            RecordV::Tag(t, args) => {
                if t == "Strength"@ && args.len() == 0 {
                    Some(StatType::Strength)
                } else if t == "Dexterity"@ && args.len() == 0 {
                    Some(StatType::Dexterity)
                } else if t == "Constitution"@ && args.len() == 0 {
                    Some(StatType::Constitution)
                } else if t == "Intelligence"@ && args.len() == 0 {
                    Some(StatType::Intelligence)
                } else if t == "Wisdom"@ && args.len() == 0 {
                    Some(StatType::Wisdom)
                } else if t == "Charisma"@ && args.len() == 0 {
                    Some(StatType::Charisma)
                } else {
                    None
                }
            },
            _ => None,
        }
    }

    fn to_record(&self) -> (r: Record) {
        match self {
            StatType::Strength => {
                let r = Record::Tag(String::from_str("Strength"), Vec::new());
                proof {
                    assert(rec_views(Seq::<Record>::empty()) =~= Seq::<RecordV>::empty());
                }
                r
            },
            StatType::Dexterity => {
                let r = Record::Tag(String::from_str("Dexterity"), Vec::new());
                proof {
                    assert(rec_views(Seq::<Record>::empty()) =~= Seq::<RecordV>::empty());
                }
                r
            },
            StatType::Constitution => {
                let r = Record::Tag(String::from_str("Constitution"), Vec::new());
                proof {
                    assert(rec_views(Seq::<Record>::empty()) =~= Seq::<RecordV>::empty());
                }
                r
            },
            StatType::Intelligence => {
                let r = Record::Tag(String::from_str("Intelligence"), Vec::new());
                proof {
                    assert(rec_views(Seq::<Record>::empty()) =~= Seq::<RecordV>::empty());
                }
                r
            },
            StatType::Wisdom => {
                let r = Record::Tag(String::from_str("Wisdom"), Vec::new());
                proof {
                    assert(rec_views(Seq::<Record>::empty()) =~= Seq::<RecordV>::empty());
                }
                r
            },
            StatType::Charisma => {
                let r = Record::Tag(String::from_str("Charisma"), Vec::new());
                proof {
                    assert(rec_views(Seq::<Record>::empty()) =~= Seq::<RecordV>::empty());
                }
                r
            },
        }
    }

    fn from_record(r: &Record) -> (res: Result<StatType, DecodeError>) {
        match r {
            Record::Tag(t, args) => {
                if str_eq(t.as_str(), "Strength") && args.len() == 0 {
                    Ok(StatType::Strength)
                } else if str_eq(t.as_str(), "Dexterity") && args.len() == 0 {
                    Ok(StatType::Dexterity)
                } else if str_eq(t.as_str(), "Constitution") && args.len() == 0 {
                    Ok(StatType::Constitution)
                } else if str_eq(t.as_str(), "Intelligence") && args.len() == 0 {
                    Ok(StatType::Intelligence)
                } else if str_eq(t.as_str(), "Wisdom") && args.len() == 0 {
                    Ok(StatType::Wisdom)
                } else if str_eq(t.as_str(), "Charisma") && args.len() == 0 {
                    Ok(StatType::Charisma)
                } else {
                    Err(DecodeError::Malformed)
                }
            },
            _ => Err(DecodeError::Malformed),
        }
    }

    proof fn lemma_round_trip(v: StatType) {
        reveal_strlit("Strength");
        reveal_strlit("Dexterity");
        reveal_strlit("Constitution");
        reveal_strlit("Intelligence");
        reveal_strlit("Wisdom");
        reveal_strlit("Charisma");
        assert(("Dexterity"@) != ("Strength"@)) by {
            assert(("Dexterity"@)[0] == 'D');
            assert(("Strength"@)[0] == 'S');
        }
        assert(("Constitution"@) != ("Strength"@)) by {
            assert(("Constitution"@)[0] == 'C');
            assert(("Strength"@)[0] == 'S');
        }
        assert(("Constitution"@) != ("Dexterity"@)) by {
            assert(("Constitution"@)[0] == 'C');
            assert(("Dexterity"@)[0] == 'D');
        }
        assert(("Intelligence"@) != ("Strength"@)) by {
            assert(("Intelligence"@)[0] == 'I');
            assert(("Strength"@)[0] == 'S');
        }
        assert(("Intelligence"@) != ("Dexterity"@)) by {
            assert(("Intelligence"@)[0] == 'I');
            assert(("Dexterity"@)[0] == 'D');
        }
        assert(("Intelligence"@) != ("Constitution"@)) by {
            assert(("Intelligence"@)[0] == 'I');
            assert(("Constitution"@)[0] == 'C');
        }
        assert(("Wisdom"@) != ("Strength"@)) by {
            assert(("Wisdom"@)[0] == 'W');
            assert(("Strength"@)[0] == 'S');
        }
        assert(("Wisdom"@) != ("Dexterity"@)) by {
            assert(("Wisdom"@)[0] == 'W');
            assert(("Dexterity"@)[0] == 'D');
        }
        assert(("Wisdom"@) != ("Constitution"@)) by {
            assert(("Wisdom"@)[0] == 'W');
            assert(("Constitution"@)[0] == 'C');
        }
        assert(("Wisdom"@) != ("Intelligence"@)) by {
            assert(("Wisdom"@)[0] == 'W');
            assert(("Intelligence"@)[0] == 'I');
        }
        assert(("Charisma"@) != ("Strength"@)) by {
            assert(("Charisma"@)[0] == 'C');
            assert(("Strength"@)[0] == 'S');
        }
        assert(("Charisma"@) != ("Dexterity"@)) by {
            assert(("Charisma"@)[0] == 'C');
            assert(("Dexterity"@)[0] == 'D');
        }
        assert(("Charisma"@) != ("Constitution"@)) by {
            assert(("Charisma"@)[1] == 'h');
            assert(("Constitution"@)[1] == 'o');
        }
        assert(("Charisma"@) != ("Intelligence"@)) by {
            assert(("Charisma"@)[0] == 'C');
            assert(("Intelligence"@)[0] == 'I');
        }
        assert(("Charisma"@) != ("Wisdom"@)) by {
            assert(("Charisma"@)[0] == 'C');
            assert(("Wisdom"@)[0] == 'W');
        }
        match v {
            StatType::Strength => {
                assert(Self::spec_dec(Self::spec_enc(StatType::Strength)) == Some(StatType::Strength));
            },
            StatType::Dexterity => {
                assert(Self::spec_dec(Self::spec_enc(StatType::Dexterity)) == Some(StatType::Dexterity));
            },
            StatType::Constitution => {
                assert(Self::spec_dec(Self::spec_enc(StatType::Constitution)) == Some(StatType::Constitution));
            },
            StatType::Intelligence => {
                assert(Self::spec_dec(Self::spec_enc(StatType::Intelligence)) == Some(StatType::Intelligence));
            },
            StatType::Wisdom => {
                assert(Self::spec_dec(Self::spec_enc(StatType::Wisdom)) == Some(StatType::Wisdom));
            },
            StatType::Charisma => {
                assert(Self::spec_dec(Self::spec_enc(StatType::Charisma)) == Some(StatType::Charisma));
            },
        }
    }
}

impl Codec for Stat {
    open spec fn spec_enc(v: Stat) -> RecordV {
        RecordV::Obj(
            seq![
                ("stat_type"@, <StatType as Codec>::spec_enc(v.stat_type)),
                ("value"@, <i32 as Codec>::spec_enc(v.value)),
                ("modifier"@, <i32 as Codec>::spec_enc(v.modifier)),
            ],
        )
    }

    open spec fn spec_dec(r: RecordV) -> Option<Stat> {
        match r {
            RecordV::Obj(fields) => if fields.len() == 3
                && fields[0].0 == "stat_type"@
                && fields[1].0 == "value"@
                && fields[2].0 == "modifier"@ {
                match (<StatType as Codec>::spec_dec(fields[0].1), <i32 as Codec>::spec_dec(fields[1].1), <i32 as Codec>::spec_dec(fields[2].1)) {
                    (Some(f_stat_type), Some(f_value), Some(f_modifier)) => Some(Stat { stat_type: f_stat_type, value: f_value, modifier: f_modifier }),
                    _ => None,
                }
            } else {
                None
            },
            _ => None,
        }
    }

    fn to_record(&self) -> (r: Record) {
        let mut fs: Vec<(String, Record)> = Vec::new();
        fs.push((String::from_str("stat_type"), self.stat_type.to_record()));
        fs.push((String::from_str("value"), self.value.to_record()));
        fs.push((String::from_str("modifier"), self.modifier.to_record()));
        let r = Record::Obj(fs);
        proof {
            assert(field_views(fs@) =~= seq![
                ("stat_type"@, <StatType as Codec>::spec_enc(self.stat_type)),
                ("value"@, <i32 as Codec>::spec_enc(self.value)),
                ("modifier"@, <i32 as Codec>::spec_enc(self.modifier)),
            ]);
        }
        r
    }

    fn from_record(r: &Record) -> (res: Result<Stat, DecodeError>) {
        match r {
            Record::Obj(fs) => {
                if fs.len() != 3 {
                    return Err(DecodeError::Malformed);
                }
                let e0 = &fs[0];
                if !str_eq(e0.0.as_str(), "stat_type") {
                    return Err(DecodeError::Malformed);
                }
                let f_stat_type = match <StatType>::from_record(&e0.1) {
                    Ok(x) => x,
                    Err(e) => return Err(e),
                };
                let e1 = &fs[1];
                if !str_eq(e1.0.as_str(), "value") {
                    return Err(DecodeError::Malformed);
                }
                let f_value = match <i32>::from_record(&e1.1) {
                    Ok(x) => x,
                    Err(e) => return Err(e),
                };
                let e2 = &fs[2];
                if !str_eq(e2.0.as_str(), "modifier") {
                    return Err(DecodeError::Malformed);
                }
                let f_modifier = match <i32>::from_record(&e2.1) {
                    Ok(x) => x,
                    Err(e) => return Err(e),
                };
                Ok(Stat { stat_type: f_stat_type, value: f_value, modifier: f_modifier })
            },
            _ => Err(DecodeError::Malformed),
        }
    }

    proof fn lemma_round_trip(v: Stat) {
        <StatType as Codec>::lemma_round_trip(v.stat_type);
        <i32 as Codec>::lemma_round_trip(v.value);
        <i32 as Codec>::lemma_round_trip(v.modifier);
    }
}

/// A creature's hit points, as the dice expression they derive from.
#[derive(Debug, Clone, Copy, PartialEq, Eq, Structural)]
pub struct Health {
    pub health: DieStat,
}

impl DeepView for Health {
    type V = Health;

    open spec fn deep_view(&self) -> Health {
        *self
    }
}

impl Health {
    /// Builds hit points from a dice expression's parts.
    pub fn from_dice(die_count: i32, die_type: Die, extra: i32) -> (r: Health)
        ensures
            r.health == (DieStat { die_count, die_type, extra }),
    {
        Health { health: DieStat { die_count, die_type, extra } }
    }

    /// The display text of hit points: `"{total} ({count}d{faces} + {bonus})"`.
    pub open spec fn spec_display(self) -> Seq<char> {
        dec_str(self.health.spec_value()) + " ("@ + self.health.spec_display() + ")"@
    }

    /// Renders the display text of these hit points.
    pub fn to_string(&self) -> (s: String)
        requires
            self.health.die_count >= 0,
            i32::MIN <= self.health.spec_value() <= i32::MAX,
        ensures
            s@ == self.spec_display(),
    {
        let mut s = dec_string(self.health.value() as i64);
        s.append(" (");
        let dice = self.health.to_string();
        s.append(dice.as_str());
        s.append(")");
        proof {
            assert(s@ =~= self.spec_display());
        }
        s
    }
}

impl Codec for Health {
    open spec fn spec_enc(v: Health) -> RecordV {
        RecordV::Obj(
            seq![
                ("health"@, <DieStat as Codec>::spec_enc(v.health)),
            ],
        )
    }

    open spec fn spec_dec(r: RecordV) -> Option<Health> {
        match r {
            RecordV::Obj(fields) => if fields.len() == 1
                && fields[0].0 == "health"@ {
                match <DieStat as Codec>::spec_dec(fields[0].1) {
                    Some(f_health) => Some(Health { health: f_health }),
                    _ => None,
                }
            } else {
                None
            },
            _ => None,
        }
    }

    fn to_record(&self) -> (r: Record) {
        let mut fs: Vec<(String, Record)> = Vec::new();
        fs.push((String::from_str("health"), self.health.to_record()));
        let r = Record::Obj(fs);
        proof {
            assert(field_views(fs@) =~= seq![
                ("health"@, <DieStat as Codec>::spec_enc(self.health)),
            ]);
        }
        r
    }

    fn from_record(r: &Record) -> (res: Result<Health, DecodeError>) {
        match r {
            Record::Obj(fs) => {
                if fs.len() != 1 {
                    return Err(DecodeError::Malformed);
                }
                let e0 = &fs[0];
                if !str_eq(e0.0.as_str(), "health") {
                    return Err(DecodeError::Malformed);
                }
                let f_health = match <DieStat>::from_record(&e0.1) {
                    Ok(x) => x,
                    Err(e) => return Err(e),
                };
                Ok(Health { health: f_health })
            },
            _ => Err(DecodeError::Malformed),
        }
    }

    proof fn lemma_round_trip(v: Health) {
        <DieStat as Codec>::lemma_round_trip(v.health);
    }
}

/// A skill a creature is proficient in, with its bonus.
#[derive(Debug, Clone, Copy, PartialEq, Eq, Structural)]
pub struct Skill {
    pub skill_type: SkillType,
    pub modifier: i32,
}

impl DeepView for Skill {
    type V = Skill;

    open spec fn deep_view(&self) -> Skill {
        *self
    }
}

impl Skill {
    /// The display text of a skill: `"{skill} {modifier}"`.
    pub open spec fn spec_display(self) -> Seq<char> {
        self.skill_type.spec_display() + " "@ + dec_str(self.modifier as int)
    }

    /// Renders the display text of this skill.
    pub fn to_string(&self) -> (s: String)
        ensures
            s@ == self.spec_display(),
    {
        let mut s = self.skill_type.to_string();
        s.append(" ");
        push_dec_i64(&mut s, self.modifier as i64);
        proof {
            assert(s@ =~= self.spec_display());
        }
        s
    }
}

/// A skill, shown with the ability it draws on.
#[derive(Debug, Clone, Copy, PartialEq, Eq, Structural)]
pub enum SkillType {
    Acrobatics,
    AnimalHandling,
    Arcana,
    Athletics,
    Deception,
    History,
    Insight,
    Intimidation,
    Investigation,
    Medicine,
    Nature,
    Perception,
    Performance,
    Persuasion,
    Religion,
    SleightOfHand,
    Stealth,
    Survival,
}

impl DeepView for SkillType {
    type V = SkillType;

    open spec fn deep_view(&self) -> SkillType {
        *self
    }
}

impl SkillType {
    /// The display text of this skill, with its ability abbreviated.
    pub open spec fn spec_display(self) -> Seq<char> {
        match self {
            SkillType::Acrobatics => "Acrobatics (Dex)"@,
            SkillType::AnimalHandling => "Animal Handling (Wis)"@,
            SkillType::Arcana => "Arcana (Int)"@,
            SkillType::Athletics => "Athletics (Str)"@,
            SkillType::Deception => "Deception (Cha)"@,
            SkillType::History => "History (Int)"@,
            SkillType::Insight => "Insight (Wis)"@,
            SkillType::Intimidation => "Intimidation (Cha)"@,
            SkillType::Investigation => "Investigation (Int)"@,
            SkillType::Medicine => "Medicine (Wis)"@,
            SkillType::Nature => "Nature (Int)"@,
            SkillType::Perception => "Perception (Wis)"@,
            SkillType::Performance => "Performance (Cha)"@,
            SkillType::Persuasion => "Persuasion (Cha)"@,
            SkillType::Religion => "Religion (Int)"@,
            SkillType::SleightOfHand => "Sleight of Hand (Dex)"@,
            SkillType::Stealth => "Stealth (Dex)"@,
            SkillType::Survival => "Survival (Wis)"@,
        }
    }

    /// Renders the display text of this value.
    pub fn to_string(&self) -> (s: String)
        ensures
            s@ == self.spec_display(),
    {
        match self {
            SkillType::Acrobatics => String::from_str("Acrobatics (Dex)"),
            SkillType::AnimalHandling => String::from_str("Animal Handling (Wis)"),
            SkillType::Arcana => String::from_str("Arcana (Int)"),
            SkillType::Athletics => String::from_str("Athletics (Str)"),
            SkillType::Deception => String::from_str("Deception (Cha)"),
            SkillType::History => String::from_str("History (Int)"),
            SkillType::Insight => String::from_str("Insight (Wis)"),
            SkillType::Intimidation => String::from_str("Intimidation (Cha)"),
            SkillType::Investigation => String::from_str("Investigation (Int)"),
            SkillType::Medicine => String::from_str("Medicine (Wis)"),
            SkillType::Nature => String::from_str("Nature (Int)"),
            SkillType::Perception => String::from_str("Perception (Wis)"),
            SkillType::Performance => String::from_str("Performance (Cha)"),
            SkillType::Persuasion => String::from_str("Persuasion (Cha)"),
            SkillType::Religion => String::from_str("Religion (Int)"),
            SkillType::SleightOfHand => String::from_str("Sleight of Hand (Dex)"),
            SkillType::Stealth => String::from_str("Stealth (Dex)"),
            SkillType::Survival => String::from_str("Survival (Wis)"),
        }
    }
}

impl Codec for SkillType {
    open spec fn spec_enc(v: SkillType) -> RecordV {
        match v {
            SkillType::Acrobatics => RecordV::Tag("Acrobatics"@, Seq::empty()),
            SkillType::AnimalHandling => RecordV::Tag("AnimalHandling"@, Seq::empty()),
            SkillType::Arcana => RecordV::Tag("Arcana"@, Seq::empty()),
            SkillType::Athletics => RecordV::Tag("Athletics"@, Seq::empty()),
            SkillType::Deception => RecordV::Tag("Deception"@, Seq::empty()),
            SkillType::History => RecordV::Tag("History"@, Seq::empty()),
            SkillType::Insight => RecordV::Tag("Insight"@, Seq::empty()),
            SkillType::Intimidation => RecordV::Tag("Intimidation"@, Seq::empty()),
            SkillType::Investigation => RecordV::Tag("Investigation"@, Seq::empty()),
            SkillType::Medicine => RecordV::Tag("Medicine"@, Seq::empty()),
            SkillType::Nature => RecordV::Tag("Nature"@, Seq::empty()),
            SkillType::Perception => RecordV::Tag("Perception"@, Seq::empty()),
            SkillType::Performance => RecordV::Tag("Performance"@, Seq::empty()),
            SkillType::Persuasion => RecordV::Tag("Persuasion"@, Seq::empty()),
            SkillType::Religion => RecordV::Tag("Religion"@, Seq::empty()),
            SkillType::SleightOfHand => RecordV::Tag("SleightOfHand"@, Seq::empty()),
            SkillType::Stealth => RecordV::Tag("Stealth"@, Seq::empty()),
            SkillType::Survival => RecordV::Tag("Survival"@, Seq::empty()),
        }
    }

    open spec fn spec_dec(r: RecordV) -> Option<SkillType> {
        match r {
            RecordV::Tag(t, args) => {
                if t == "Acrobatics"@ && args.len() == 0 {
                    Some(SkillType::Acrobatics)
                } else if t == "AnimalHandling"@ && args.len() == 0 {
                    Some(SkillType::AnimalHandling)
                } else if t == "Arcana"@ && args.len() == 0 {
                    Some(SkillType::Arcana)
                } else if t == "Athletics"@ && args.len() == 0 {
                    Some(SkillType::Athletics)
                } else if t == "Deception"@ && args.len() == 0 {
                    Some(SkillType::Deception)
                } else if t == "History"@ && args.len() == 0 {
                    Some(SkillType::History)
                } else if t == "Insight"@ && args.len() == 0 {
                    Some(SkillType::Insight)
                } else if t == "Intimidation"@ && args.len() == 0 {
                    Some(SkillType::Intimidation)
                } else if t == "Investigation"@ && args.len() == 0 {
                    Some(SkillType::Investigation)
                } else if t == "Medicine"@ && args.len() == 0 {
                    Some(SkillType::Medicine)
                } else if t == "Nature"@ && args.len() == 0 {
                    Some(SkillType::Nature)
                } else if t == "Perception"@ && args.len() == 0 {
                    Some(SkillType::Perception)
                } else if t == "Performance"@ && args.len() == 0 {
                    Some(SkillType::Performance)
                } else if t == "Persuasion"@ && args.len() == 0 {
                    Some(SkillType::Persuasion)
                } else if t == "Religion"@ && args.len() == 0 {
                    Some(SkillType::Religion)
                } else if t == "SleightOfHand"@ && args.len() == 0 {
                    Some(SkillType::SleightOfHand)
                } else if t == "Stealth"@ && args.len() == 0 {
                    Some(SkillType::Stealth)
                } else if t == "Survival"@ && args.len() == 0 {
                    Some(SkillType::Survival)
                } else {
                    None
                }
            },
            _ => None,
        }
    }

    fn to_record(&self) -> (r: Record) {
        match self {
            SkillType::Acrobatics => {
                let r = Record::Tag(String::from_str("Acrobatics"), Vec::new());
                proof {
                    assert(rec_views(Seq::<Record>::empty()) =~= Seq::<RecordV>::empty());
                }
                r
            },
            SkillType::AnimalHandling => {
                let r = Record::Tag(String::from_str("AnimalHandling"), Vec::new());
                proof {
                    assert(rec_views(Seq::<Record>::empty()) =~= Seq::<RecordV>::empty());
                }
                r
            },
            SkillType::Arcana => {
                let r = Record::Tag(String::from_str("Arcana"), Vec::new());
                proof {
                    assert(rec_views(Seq::<Record>::empty()) =~= Seq::<RecordV>::empty());
                }
                r
            },
            SkillType::Athletics => {
                let r = Record::Tag(String::from_str("Athletics"), Vec::new());
                proof {
                    assert(rec_views(Seq::<Record>::empty()) =~= Seq::<RecordV>::empty());
                }
                r
            },
            SkillType::Deception => {
                let r = Record::Tag(String::from_str("Deception"), Vec::new());
                proof {
                    assert(rec_views(Seq::<Record>::empty()) =~= Seq::<RecordV>::empty());
                }
                r
            },
            SkillType::History => {
                let r = Record::Tag(String::from_str("History"), Vec::new());
                proof {
                    assert(rec_views(Seq::<Record>::empty()) =~= Seq::<RecordV>::empty());
                }
                r
            },
            SkillType::Insight => {
                let r = Record::Tag(String::from_str("Insight"), Vec::new());
                proof {
                    assert(rec_views(Seq::<Record>::empty()) =~= Seq::<RecordV>::empty());
                }
                r
            },
            SkillType::Intimidation => {
                let r = Record::Tag(String::from_str("Intimidation"), Vec::new());
                proof {
                    assert(rec_views(Seq::<Record>::empty()) =~= Seq::<RecordV>::empty());
                }
                r
            },
            SkillType::Investigation => {
                let r = Record::Tag(String::from_str("Investigation"), Vec::new());
                proof {
                    assert(rec_views(Seq::<Record>::empty()) =~= Seq::<RecordV>::empty());
                }
                r
            },
            SkillType::Medicine => {
                let r = Record::Tag(String::from_str("Medicine"), Vec::new());
                proof {
                    assert(rec_views(Seq::<Record>::empty()) =~= Seq::<RecordV>::empty());
                }
                r
            },
            SkillType::Nature => {
                let r = Record::Tag(String::from_str("Nature"), Vec::new());
                proof {
                    assert(rec_views(Seq::<Record>::empty()) =~= Seq::<RecordV>::empty());
                }
                r
            },
            SkillType::Perception => {
                let r = Record::Tag(String::from_str("Perception"), Vec::new());
                proof {
                    assert(rec_views(Seq::<Record>::empty()) =~= Seq::<RecordV>::empty());
                }
                r
            },
            SkillType::Performance => {
                let r = Record::Tag(String::from_str("Performance"), Vec::new());
                proof {
                    assert(rec_views(Seq::<Record>::empty()) =~= Seq::<RecordV>::empty());
                }
                r
            },
            SkillType::Persuasion => {
                let r = Record::Tag(String::from_str("Persuasion"), Vec::new());
                proof {
                    assert(rec_views(Seq::<Record>::empty()) =~= Seq::<RecordV>::empty());
                }
                r
            },
            SkillType::Religion => {
                let r = Record::Tag(String::from_str("Religion"), Vec::new());
                proof {
                    assert(rec_views(Seq::<Record>::empty()) =~= Seq::<RecordV>::empty());
                }
                r
            },
            SkillType::SleightOfHand => {
                let r = Record::Tag(String::from_str("SleightOfHand"), Vec::new());
                proof {
                    assert(rec_views(Seq::<Record>::empty()) =~= Seq::<RecordV>::empty());
                }
                r
            },
            SkillType::Stealth => {
                let r = Record::Tag(String::from_str("Stealth"), Vec::new());
                proof {
                    assert(rec_views(Seq::<Record>::empty()) =~= Seq::<RecordV>::empty());
                }
                r
            },
            SkillType::Survival => {
                let r = Record::Tag(String::from_str("Survival"), Vec::new());
                proof {
                    assert(rec_views(Seq::<Record>::empty()) =~= Seq::<RecordV>::empty());
                }
                r
            },
        }
    }

    fn from_record(r: &Record) -> (res: Result<SkillType, DecodeError>) {
        match r {
            Record::Tag(t, args) => {
                if str_eq(t.as_str(), "Acrobatics") && args.len() == 0 {
                    Ok(SkillType::Acrobatics)
                } else if str_eq(t.as_str(), "AnimalHandling") && args.len() == 0 {
                    Ok(SkillType::AnimalHandling)
                } else if str_eq(t.as_str(), "Arcana") && args.len() == 0 {
                    Ok(SkillType::Arcana)
                } else if str_eq(t.as_str(), "Athletics") && args.len() == 0 {
                    Ok(SkillType::Athletics)
                } else if str_eq(t.as_str(), "Deception") && args.len() == 0 {
                    Ok(SkillType::Deception)
                } else if str_eq(t.as_str(), "History") && args.len() == 0 {
                    Ok(SkillType::History)
                } else if str_eq(t.as_str(), "Insight") && args.len() == 0 {
                    Ok(SkillType::Insight)
                } else if str_eq(t.as_str(), "Intimidation") && args.len() == 0 {
                    Ok(SkillType::Intimidation)
                } else if str_eq(t.as_str(), "Investigation") && args.len() == 0 {
                    Ok(SkillType::Investigation)
                } else if str_eq(t.as_str(), "Medicine") && args.len() == 0 {
                    Ok(SkillType::Medicine)
                } else if str_eq(t.as_str(), "Nature") && args.len() == 0 {
                    Ok(SkillType::Nature)
                } else if str_eq(t.as_str(), "Perception") && args.len() == 0 {
                    Ok(SkillType::Perception)
                } else if str_eq(t.as_str(), "Performance") && args.len() == 0 {
                    Ok(SkillType::Performance)
                } else if str_eq(t.as_str(), "Persuasion") && args.len() == 0 {
                    Ok(SkillType::Persuasion)
                } else if str_eq(t.as_str(), "Religion") && args.len() == 0 {
                    Ok(SkillType::Religion)
                } else if str_eq(t.as_str(), "SleightOfHand") && args.len() == 0 {
                    Ok(SkillType::SleightOfHand)
                } else if str_eq(t.as_str(), "Stealth") && args.len() == 0 {
                    Ok(SkillType::Stealth)
                } else if str_eq(t.as_str(), "Survival") && args.len() == 0 {
                    Ok(SkillType::Survival)
                } else {
                    Err(DecodeError::Malformed)
                }
            },
            _ => Err(DecodeError::Malformed),
        }
    }

    proof fn lemma_round_trip(v: SkillType) {
        reveal_strlit("Acrobatics");
        reveal_strlit("AnimalHandling");
        reveal_strlit("Arcana");
        reveal_strlit("Athletics");
        reveal_strlit("Deception");
        reveal_strlit("History");
        reveal_strlit("Insight");
        reveal_strlit("Intimidation");
        reveal_strlit("Investigation");
        reveal_strlit("Medicine");
        reveal_strlit("Nature");
        reveal_strlit("Perception");
        reveal_strlit("Performance");
        reveal_strlit("Persuasion");
        reveal_strlit("Religion");
        reveal_strlit("SleightOfHand");
        reveal_strlit("Stealth");
        reveal_strlit("Survival");
        assert(("AnimalHandling"@) != ("Acrobatics"@)) by {
            assert(("AnimalHandling"@)[1] == 'n');
            assert(("Acrobatics"@)[1] == 'c');
        }
        assert(("Arcana"@) != ("Acrobatics"@)) by {
            assert(("Arcana"@)[1] == 'r');
            assert(("Acrobatics"@)[1] == 'c');
        }
        assert(("Arcana"@) != ("AnimalHandling"@)) by {
            assert(("Arcana"@)[1] == 'r');
            assert(("AnimalHandling"@)[1] == 'n');
        }
        assert(("Athletics"@) != ("Acrobatics"@)) by {
            assert(("Athletics"@)[1] == 't');
            assert(("Acrobatics"@)[1] == 'c');
        }
        assert(("Athletics"@) != ("AnimalHandling"@)) by {
            assert(("Athletics"@)[1] == 't');
            assert(("AnimalHandling"@)[1] == 'n');
        }
        assert(("Athletics"@) != ("Arcana"@)) by {
            assert(("Athletics"@)[1] == 't');
            assert(("Arcana"@)[1] == 'r');
        }
        assert(("Deception"@) != ("Acrobatics"@)) by {
            assert(("Deception"@)[0] == 'D');
            assert(("Acrobatics"@)[0] == 'A');
        }
        assert(("Deception"@) != ("AnimalHandling"@)) by {
            assert(("Deception"@)[0] == 'D');
            assert(("AnimalHandling"@)[0] == 'A');
        }
        assert(("Deception"@) != ("Arcana"@)) by {
            assert(("Deception"@)[0] == 'D');
            assert(("Arcana"@)[0] == 'A');
        }
        assert(("Deception"@) != ("Athletics"@)) by {
            assert(("Deception"@)[0] == 'D');
            assert(("Athletics"@)[0] == 'A');
        }
        assert(("History"@) != ("Acrobatics"@)) by {
            assert(("History"@)[0] == 'H');
            assert(("Acrobatics"@)[0] == 'A');
        }
        assert(("History"@) != ("AnimalHandling"@)) by {
            assert(("History"@)[0] == 'H');
            assert(("AnimalHandling"@)[0] == 'A');
        }
        assert(("History"@) != ("Arcana"@)) by {
            assert(("History"@)[0] == 'H');
            assert(("Arcana"@)[0] == 'A');
        }
        assert(("History"@) != ("Athletics"@)) by {
            assert(("History"@)[0] == 'H');
            assert(("Athletics"@)[0] == 'A');
        }
        assert(("History"@) != ("Deception"@)) by {
            assert(("History"@)[0] == 'H');
            assert(("Deception"@)[0] == 'D');
        }
        assert(("Insight"@) != ("Acrobatics"@)) by {
            assert(("Insight"@)[0] == 'I');
            assert(("Acrobatics"@)[0] == 'A');
        }
        assert(("Insight"@) != ("AnimalHandling"@)) by {
            assert(("Insight"@)[0] == 'I');
            assert(("AnimalHandling"@)[0] == 'A');
        }
        assert(("Insight"@) != ("Arcana"@)) by {
            assert(("Insight"@)[0] == 'I');
            assert(("Arcana"@)[0] == 'A');
        }
        assert(("Insight"@) != ("Athletics"@)) by {
            assert(("Insight"@)[0] == 'I');
            assert(("Athletics"@)[0] == 'A');
        }
        assert(("Insight"@) != ("Deception"@)) by {
            assert(("Insight"@)[0] == 'I');
            assert(("Deception"@)[0] == 'D');
        }
        assert(("Insight"@) != ("History"@)) by {
            assert(("Insight"@)[0] == 'I');
            assert(("History"@)[0] == 'H');
        }
        assert(("Intimidation"@) != ("Acrobatics"@)) by {
            assert(("Intimidation"@)[0] == 'I');
            assert(("Acrobatics"@)[0] == 'A');
        }
        assert(("Intimidation"@) != ("AnimalHandling"@)) by {
            assert(("Intimidation"@)[0] == 'I');
            assert(("AnimalHandling"@)[0] == 'A');
        }
        assert(("Intimidation"@) != ("Arcana"@)) by {
            assert(("Intimidation"@)[0] == 'I');
            assert(("Arcana"@)[0] == 'A');
        }
        assert(("Intimidation"@) != ("Athletics"@)) by {
            assert(("Intimidation"@)[0] == 'I');
            assert(("Athletics"@)[0] == 'A');
        }
        assert(("Intimidation"@) != ("Deception"@)) by {
            assert(("Intimidation"@)[0] == 'I');
            assert(("Deception"@)[0] == 'D');
        }
        assert(("Intimidation"@) != ("History"@)) by {
            assert(("Intimidation"@)[0] == 'I');
            assert(("History"@)[0] == 'H');
        }
        assert(("Intimidation"@) != ("Insight"@)) by {
            assert(("Intimidation"@)[2] == 't');
            assert(("Insight"@)[2] == 's');
        }
        assert(("Investigation"@) != ("Acrobatics"@)) by {
            assert(("Investigation"@)[0] == 'I');
            assert(("Acrobatics"@)[0] == 'A');
        }
        assert(("Investigation"@) != ("AnimalHandling"@)) by {
            assert(("Investigation"@)[0] == 'I');
            assert(("AnimalHandling"@)[0] == 'A');
        }
        assert(("Investigation"@) != ("Arcana"@)) by {
            assert(("Investigation"@)[0] == 'I');
            assert(("Arcana"@)[0] == 'A');
        }
        assert(("Investigation"@) != ("Athletics"@)) by {
            assert(("Investigation"@)[0] == 'I');
            assert(("Athletics"@)[0] == 'A');
        }
        assert(("Investigation"@) != ("Deception"@)) by {
            assert(("Investigation"@)[0] == 'I');
            assert(("Deception"@)[0] == 'D');
        }
        assert(("Investigation"@) != ("History"@)) by {
            assert(("Investigation"@)[0] == 'I');
            assert(("History"@)[0] == 'H');
        }
        assert(("Investigation"@) != ("Insight"@)) by {
            assert(("Investigation"@)[2] == 'v');
            assert(("Insight"@)[2] == 's');
        }
        assert(("Investigation"@) != ("Intimidation"@)) by {
            assert(("Investigation"@)[2] == 'v');
            assert(("Intimidation"@)[2] == 't');
        }
        assert(("Medicine"@) != ("Acrobatics"@)) by {
            assert(("Medicine"@)[0] == 'M');
            assert(("Acrobatics"@)[0] == 'A');
        }
        assert(("Medicine"@) != ("AnimalHandling"@)) by {
            assert(("Medicine"@)[0] == 'M');
            assert(("AnimalHandling"@)[0] == 'A');
        }
        assert(("Medicine"@) != ("Arcana"@)) by {
            assert(("Medicine"@)[0] == 'M');
            assert(("Arcana"@)[0] == 'A');
        }
        assert(("Medicine"@) != ("Athletics"@)) by {
            assert(("Medicine"@)[0] == 'M');
            assert(("Athletics"@)[0] == 'A');
        }
        assert(("Medicine"@) != ("Deception"@)) by {
            assert(("Medicine"@)[0] == 'M');
            assert(("Deception"@)[0] == 'D');
        }
        assert(("Medicine"@) != ("History"@)) by {
            assert(("Medicine"@)[0] == 'M');
            assert(("History"@)[0] == 'H');
        }
        assert(("Medicine"@) != ("Insight"@)) by {
            assert(("Medicine"@)[0] == 'M');
            assert(("Insight"@)[0] == 'I');
        }
        assert(("Medicine"@) != ("Intimidation"@)) by {
            assert(("Medicine"@)[0] == 'M');
            assert(("Intimidation"@)[0] == 'I');
        }
        assert(("Medicine"@) != ("Investigation"@)) by {
            assert(("Medicine"@)[0] == 'M');
            assert(("Investigation"@)[0] == 'I');
        }
        assert(("Nature"@) != ("Acrobatics"@)) by {
            assert(("Nature"@)[0] == 'N');
            assert(("Acrobatics"@)[0] == 'A');
        }
        assert(("Nature"@) != ("AnimalHandling"@)) by {
            assert(("Nature"@)[0] == 'N');
            assert(("AnimalHandling"@)[0] == 'A');
        }
        assert(("Nature"@) != ("Arcana"@)) by {
            assert(("Nature"@)[0] == 'N');
            assert(("Arcana"@)[0] == 'A');
        }
        assert(("Nature"@) != ("Athletics"@)) by {
            assert(("Nature"@)[0] == 'N');
            assert(("Athletics"@)[0] == 'A');
        }
        assert(("Nature"@) != ("Deception"@)) by {
            assert(("Nature"@)[0] == 'N');
            assert(("Deception"@)[0] == 'D');
        }
        assert(("Nature"@) != ("History"@)) by {
            assert(("Nature"@)[0] == 'N');
            assert(("History"@)[0] == 'H');
        }
        assert(("Nature"@) != ("Insight"@)) by {
            assert(("Nature"@)[0] == 'N');
            assert(("Insight"@)[0] == 'I');
        }
        assert(("Nature"@) != ("Intimidation"@)) by {
            assert(("Nature"@)[0] == 'N');
            assert(("Intimidation"@)[0] == 'I');
        }
        assert(("Nature"@) != ("Investigation"@)) by {
            assert(("Nature"@)[0] == 'N');
            assert(("Investigation"@)[0] == 'I');
        }
        assert(("Nature"@) != ("Medicine"@)) by {
            assert(("Nature"@)[0] == 'N');
            assert(("Medicine"@)[0] == 'M');
        }
        assert(("Perception"@) != ("Acrobatics"@)) by {
            assert(("Perception"@)[0] == 'P');
            assert(("Acrobatics"@)[0] == 'A');
        }
        assert(("Perception"@) != ("AnimalHandling"@)) by {
            assert(("Perception"@)[0] == 'P');
            assert(("AnimalHandling"@)[0] == 'A');
        }
        assert(("Perception"@) != ("Arcana"@)) by {
            assert(("Perception"@)[0] == 'P');
            assert(("Arcana"@)[0] == 'A');
        }
        assert(("Perception"@) != ("Athletics"@)) by {
            assert(("Perception"@)[0] == 'P');
            assert(("Athletics"@)[0] == 'A');
        }
        assert(("Perception"@) != ("Deception"@)) by {
            assert(("Perception"@)[0] == 'P');
            assert(("Deception"@)[0] == 'D');
        }
        assert(("Perception"@) != ("History"@)) by {
            assert(("Perception"@)[0] == 'P');
            assert(("History"@)[0] == 'H');
        }
        assert(("Perception"@) != ("Insight"@)) by {
            assert(("Perception"@)[0] == 'P');
            assert(("Insight"@)[0] == 'I');
        }
        assert(("Perception"@) != ("Intimidation"@)) by {
            assert(("Perception"@)[0] == 'P');
            assert(("Intimidation"@)[0] == 'I');
        }
        assert(("Perception"@) != ("Investigation"@)) by {
            assert(("Perception"@)[0] == 'P');
            assert(("Investigation"@)[0] == 'I');
        }
        assert(("Perception"@) != ("Medicine"@)) by {
            assert(("Perception"@)[0] == 'P');
            assert(("Medicine"@)[0] == 'M');
        }
        assert(("Perception"@) != ("Nature"@)) by {
            assert(("Perception"@)[0] == 'P');
            assert(("Nature"@)[0] == 'N');
        }
        assert(("Performance"@) != ("Acrobatics"@)) by {
            assert(("Performance"@)[0] == 'P');
            assert(("Acrobatics"@)[0] == 'A');
        }
        assert(("Performance"@) != ("AnimalHandling"@)) by {
            assert(("Performance"@)[0] == 'P');
            assert(("AnimalHandling"@)[0] == 'A');
        }
        assert(("Performance"@) != ("Arcana"@)) by {
            assert(("Performance"@)[0] == 'P');
            assert(("Arcana"@)[0] == 'A');
        }
        assert(("Performance"@) != ("Athletics"@)) by {
            assert(("Performance"@)[0] == 'P');
            assert(("Athletics"@)[0] == 'A');
        }
        assert(("Performance"@) != ("Deception"@)) by {
            assert(("Performance"@)[0] == 'P');
            assert(("Deception"@)[0] == 'D');
        }
        assert(("Performance"@) != ("History"@)) by {
            assert(("Performance"@)[0] == 'P');
            assert(("History"@)[0] == 'H');
        }
        assert(("Performance"@) != ("Insight"@)) by {
            assert(("Performance"@)[0] == 'P');
            assert(("Insight"@)[0] == 'I');
        }
        assert(("Performance"@) != ("Intimidation"@)) by {
            assert(("Performance"@)[0] == 'P');
            assert(("Intimidation"@)[0] == 'I');
        }
        assert(("Performance"@) != ("Investigation"@)) by {
            assert(("Performance"@)[0] == 'P');
            assert(("Investigation"@)[0] == 'I');
        }
        assert(("Performance"@) != ("Medicine"@)) by {
            assert(("Performance"@)[0] == 'P');
            assert(("Medicine"@)[0] == 'M');
        }
        assert(("Performance"@) != ("Nature"@)) by {
            assert(("Performance"@)[0] == 'P');
            assert(("Nature"@)[0] == 'N');
        }
        assert(("Performance"@) != ("Perception"@)) by {
            assert(("Performance"@)[3] == 'f');
            assert(("Perception"@)[3] == 'c');
        }
        assert(("Persuasion"@) != ("Acrobatics"@)) by {
            assert(("Persuasion"@)[0] == 'P');
            assert(("Acrobatics"@)[0] == 'A');
        }
        assert(("Persuasion"@) != ("AnimalHandling"@)) by {
            assert(("Persuasion"@)[0] == 'P');
            assert(("AnimalHandling"@)[0] == 'A');
        }
        assert(("Persuasion"@) != ("Arcana"@)) by {
            assert(("Persuasion"@)[0] == 'P');
            assert(("Arcana"@)[0] == 'A');
        }
        assert(("Persuasion"@) != ("Athletics"@)) by {
            assert(("Persuasion"@)[0] == 'P');
            assert(("Athletics"@)[0] == 'A');
        }
        assert(("Persuasion"@) != ("Deception"@)) by {
            assert(("Persuasion"@)[0] == 'P');
            assert(("Deception"@)[0] == 'D');
        }
        assert(("Persuasion"@) != ("History"@)) by {
            assert(("Persuasion"@)[0] == 'P');
            assert(("History"@)[0] == 'H');
        }
        assert(("Persuasion"@) != ("Insight"@)) by {
            assert(("Persuasion"@)[0] == 'P');
            assert(("Insight"@)[0] == 'I');
        }
        assert(("Persuasion"@) != ("Intimidation"@)) by {
            assert(("Persuasion"@)[0] == 'P');
            assert(("Intimidation"@)[0] == 'I');
        }
        assert(("Persuasion"@) != ("Investigation"@)) by {
            assert(("Persuasion"@)[0] == 'P');
            assert(("Investigation"@)[0] == 'I');
        }
        assert(("Persuasion"@) != ("Medicine"@)) by {
            assert(("Persuasion"@)[0] == 'P');
            assert(("Medicine"@)[0] == 'M');
        }
        assert(("Persuasion"@) != ("Nature"@)) by {
            assert(("Persuasion"@)[0] == 'P');
            assert(("Nature"@)[0] == 'N');
        }
        assert(("Persuasion"@) != ("Perception"@)) by {
            assert(("Persuasion"@)[3] == 's');
            assert(("Perception"@)[3] == 'c');
        }
        assert(("Persuasion"@) != ("Performance"@)) by {
            assert(("Persuasion"@)[3] == 's');
            assert(("Performance"@)[3] == 'f');
        }
        assert(("Religion"@) != ("Acrobatics"@)) by {
            assert(("Religion"@)[0] == 'R');
            assert(("Acrobatics"@)[0] == 'A');
        }
        assert(("Religion"@) != ("AnimalHandling"@)) by {
            assert(("Religion"@)[0] == 'R');
            assert(("AnimalHandling"@)[0] == 'A');
        }
        assert(("Religion"@) != ("Arcana"@)) by {
            assert(("Religion"@)[0] == 'R');
            assert(("Arcana"@)[0] == 'A');
        }
        assert(("Religion"@) != ("Athletics"@)) by {
            assert(("Religion"@)[0] == 'R');
            assert(("Athletics"@)[0] == 'A');
        }
        assert(("Religion"@) != ("Deception"@)) by {
            assert(("Religion"@)[0] == 'R');
            assert(("Deception"@)[0] == 'D');
        }
        assert(("Religion"@) != ("History"@)) by {
            assert(("Religion"@)[0] == 'R');
            assert(("History"@)[0] == 'H');
        }
        assert(("Religion"@) != ("Insight"@)) by {
            assert(("Religion"@)[0] == 'R');
            assert(("Insight"@)[0] == 'I');
        }
        assert(("Religion"@) != ("Intimidation"@)) by {
            assert(("Religion"@)[0] == 'R');
            assert(("Intimidation"@)[0] == 'I');
        }
        assert(("Religion"@) != ("Investigation"@)) by {
            assert(("Religion"@)[0] == 'R');
            assert(("Investigation"@)[0] == 'I');
        }
        assert(("Religion"@) != ("Medicine"@)) by {
            assert(("Religion"@)[0] == 'R');
            assert(("Medicine"@)[0] == 'M');
        }
        assert(("Religion"@) != ("Nature"@)) by {
            assert(("Religion"@)[0] == 'R');
            assert(("Nature"@)[0] == 'N');
        }
        assert(("Religion"@) != ("Perception"@)) by {
            assert(("Religion"@)[0] == 'R');
            assert(("Perception"@)[0] == 'P');
        }
        assert(("Religion"@) != ("Performance"@)) by {
            assert(("Religion"@)[0] == 'R');
            assert(("Performance"@)[0] == 'P');
        }
        assert(("Religion"@) != ("Persuasion"@)) by {
            assert(("Religion"@)[0] == 'R');
            assert(("Persuasion"@)[0] == 'P');
        }
        assert(("SleightOfHand"@) != ("Acrobatics"@)) by {
            assert(("SleightOfHand"@)[0] == 'S');
            assert(("Acrobatics"@)[0] == 'A');
        }
        assert(("SleightOfHand"@) != ("AnimalHandling"@)) by {
            assert(("SleightOfHand"@)[0] == 'S');
            assert(("AnimalHandling"@)[0] == 'A');
        }
        assert(("SleightOfHand"@) != ("Arcana"@)) by {
            assert(("SleightOfHand"@)[0] == 'S');
            assert(("Arcana"@)[0] == 'A');
        }
        assert(("SleightOfHand"@) != ("Athletics"@)) by {
            assert(("SleightOfHand"@)[0] == 'S');
            assert(("Athletics"@)[0] == 'A');
        }
        assert(("SleightOfHand"@) != ("Deception"@)) by {
            assert(("SleightOfHand"@)[0] == 'S');
            assert(("Deception"@)[0] == 'D');
        }
        assert(("SleightOfHand"@) != ("History"@)) by {
            assert(("SleightOfHand"@)[0] == 'S');
            assert(("History"@)[0] == 'H');
        }
        assert(("SleightOfHand"@) != ("Insight"@)) by {
            assert(("SleightOfHand"@)[0] == 'S');
            assert(("Insight"@)[0] == 'I');
        }
        assert(("SleightOfHand"@) != ("Intimidation"@)) by {
            assert(("SleightOfHand"@)[0] == 'S');
            assert(("Intimidation"@)[0] == 'I');
        }
        assert(("SleightOfHand"@) != ("Investigation"@)) by {
            assert(("SleightOfHand"@)[0] == 'S');
            assert(("Investigation"@)[0] == 'I');
        }
        assert(("SleightOfHand"@) != ("Medicine"@)) by {
            assert(("SleightOfHand"@)[0] == 'S');
            assert(("Medicine"@)[0] == 'M');
        }
        assert(("SleightOfHand"@) != ("Nature"@)) by {
            assert(("SleightOfHand"@)[0] == 'S');
            assert(("Nature"@)[0] == 'N');
        }
        assert(("SleightOfHand"@) != ("Perception"@)) by {
            assert(("SleightOfHand"@)[0] == 'S');
            assert(("Perception"@)[0] == 'P');
        }
        assert(("SleightOfHand"@) != ("Performance"@)) by {
            assert(("SleightOfHand"@)[0] == 'S');
            assert(("Performance"@)[0] == 'P');
        }
        assert(("SleightOfHand"@) != ("Persuasion"@)) by {
            assert(("SleightOfHand"@)[0] == 'S');
            assert(("Persuasion"@)[0] == 'P');
        }
        assert(("SleightOfHand"@) != ("Religion"@)) by {
            assert(("SleightOfHand"@)[0] == 'S');
            assert(("Religion"@)[0] == 'R');
        }
        assert(("Stealth"@) != ("Acrobatics"@)) by {
            assert(("Stealth"@)[0] == 'S');
            assert(("Acrobatics"@)[0] == 'A');
        }
        assert(("Stealth"@) != ("AnimalHandling"@)) by {
            assert(("Stealth"@)[0] == 'S');
            assert(("AnimalHandling"@)[0] == 'A');
        }
        assert(("Stealth"@) != ("Arcana"@)) by {
            assert(("Stealth"@)[0] == 'S');
            assert(("Arcana"@)[0] == 'A');
        }
        assert(("Stealth"@) != ("Athletics"@)) by {
            assert(("Stealth"@)[0] == 'S');
            assert(("Athletics"@)[0] == 'A');
        }
        assert(("Stealth"@) != ("Deception"@)) by {
            assert(("Stealth"@)[0] == 'S');
            assert(("Deception"@)[0] == 'D');
        }
        assert(("Stealth"@) != ("History"@)) by {
            assert(("Stealth"@)[0] == 'S');
            assert(("History"@)[0] == 'H');
        }
        assert(("Stealth"@) != ("Insight"@)) by {
            assert(("Stealth"@)[0] == 'S');
            assert(("Insight"@)[0] == 'I');
        }
        assert(("Stealth"@) != ("Intimidation"@)) by {
            assert(("Stealth"@)[0] == 'S');
            assert(("Intimidation"@)[0] == 'I');
        }
        assert(("Stealth"@) != ("Investigation"@)) by {
            assert(("Stealth"@)[0] == 'S');
            assert(("Investigation"@)[0] == 'I');
        }
        assert(("Stealth"@) != ("Medicine"@)) by {
            assert(("Stealth"@)[0] == 'S');
            assert(("Medicine"@)[0] == 'M');
        }
        assert(("Stealth"@) != ("Nature"@)) by {
            assert(("Stealth"@)[0] == 'S');
            assert(("Nature"@)[0] == 'N');
        }
        assert(("Stealth"@) != ("Perception"@)) by {
            assert(("Stealth"@)[0] == 'S');
            assert(("Perception"@)[0] == 'P');
        }
        assert(("Stealth"@) != ("Performance"@)) by {
            assert(("Stealth"@)[0] == 'S');
            assert(("Performance"@)[0] == 'P');
        }
        assert(("Stealth"@) != ("Persuasion"@)) by {
            assert(("Stealth"@)[0] == 'S');
            assert(("Persuasion"@)[0] == 'P');
        }
        assert(("Stealth"@) != ("Religion"@)) by {
            assert(("Stealth"@)[0] == 'S');
            assert(("Religion"@)[0] == 'R');
        }
        assert(("Stealth"@) != ("SleightOfHand"@)) by {
            assert(("Stealth"@)[1] == 't');
            assert(("SleightOfHand"@)[1] == 'l');
        }
        assert(("Survival"@) != ("Acrobatics"@)) by {
            assert(("Survival"@)[0] == 'S');
            assert(("Acrobatics"@)[0] == 'A');
        }
        assert(("Survival"@) != ("AnimalHandling"@)) by {
            assert(("Survival"@)[0] == 'S');
            assert(("AnimalHandling"@)[0] == 'A');
        }
        assert(("Survival"@) != ("Arcana"@)) by {
            assert(("Survival"@)[0] == 'S');
            assert(("Arcana"@)[0] == 'A');
        }
        assert(("Survival"@) != ("Athletics"@)) by {
            assert(("Survival"@)[0] == 'S');
            assert(("Athletics"@)[0] == 'A');
        }
        assert(("Survival"@) != ("Deception"@)) by {
            assert(("Survival"@)[0] == 'S');
            assert(("Deception"@)[0] == 'D');
        }
        assert(("Survival"@) != ("History"@)) by {
            assert(("Survival"@)[0] == 'S');
            assert(("History"@)[0] == 'H');
        }
        assert(("Survival"@) != ("Insight"@)) by {
            assert(("Survival"@)[0] == 'S');
            assert(("Insight"@)[0] == 'I');
        }
        assert(("Survival"@) != ("Intimidation"@)) by {
            assert(("Survival"@)[0] == 'S');
            assert(("Intimidation"@)[0] == 'I');
        }
        assert(("Survival"@) != ("Investigation"@)) by {
            assert(("Survival"@)[0] == 'S');
            assert(("Investigation"@)[0] == 'I');
        }
        assert(("Survival"@) != ("Medicine"@)) by {
            assert(("Survival"@)[0] == 'S');
            assert(("Medicine"@)[0] == 'M');
        }
        assert(("Survival"@) != ("Nature"@)) by {
            assert(("Survival"@)[0] == 'S');
            assert(("Nature"@)[0] == 'N');
        }
        assert(("Survival"@) != ("Perception"@)) by {
            assert(("Survival"@)[0] == 'S');
            assert(("Perception"@)[0] == 'P');
        }
        assert(("Survival"@) != ("Performance"@)) by {
            assert(("Survival"@)[0] == 'S');
            assert(("Performance"@)[0] == 'P');
        }
        assert(("Survival"@) != ("Persuasion"@)) by {
            assert(("Survival"@)[0] == 'S');
            assert(("Persuasion"@)[0] == 'P');
        }
        assert(("Survival"@) != ("Religion"@)) by {
            assert(("Survival"@)[0] == 'S');
            assert(("Religion"@)[0] == 'R');
        }
        assert(("Survival"@) != ("SleightOfHand"@)) by {
            assert(("Survival"@)[1] == 'u');
            assert(("SleightOfHand"@)[1] == 'l');
        }
        assert(("Survival"@) != ("Stealth"@)) by {
            assert(("Survival"@)[1] == 'u');
            assert(("Stealth"@)[1] == 't');
        }
        match v {
            SkillType::Acrobatics => {
                assert(Self::spec_dec(Self::spec_enc(SkillType::Acrobatics)) == Some(SkillType::Acrobatics));
            },
            SkillType::AnimalHandling => {
                assert(Self::spec_dec(Self::spec_enc(SkillType::AnimalHandling)) == Some(SkillType::AnimalHandling));
            },
            SkillType::Arcana => {
                assert(Self::spec_dec(Self::spec_enc(SkillType::Arcana)) == Some(SkillType::Arcana));
            },
            SkillType::Athletics => {
                assert(Self::spec_dec(Self::spec_enc(SkillType::Athletics)) == Some(SkillType::Athletics));
            },
            SkillType::Deception => {
                assert(Self::spec_dec(Self::spec_enc(SkillType::Deception)) == Some(SkillType::Deception));
            },
            SkillType::History => {
                assert(Self::spec_dec(Self::spec_enc(SkillType::History)) == Some(SkillType::History));
            },
            SkillType::Insight => {
                assert(Self::spec_dec(Self::spec_enc(SkillType::Insight)) == Some(SkillType::Insight));
            },
            SkillType::Intimidation => {
                assert(Self::spec_dec(Self::spec_enc(SkillType::Intimidation)) == Some(SkillType::Intimidation));
            },
            SkillType::Investigation => {
                assert(Self::spec_dec(Self::spec_enc(SkillType::Investigation)) == Some(SkillType::Investigation));
            },
            SkillType::Medicine => {
                assert(Self::spec_dec(Self::spec_enc(SkillType::Medicine)) == Some(SkillType::Medicine));
            },
            SkillType::Nature => {
                assert(Self::spec_dec(Self::spec_enc(SkillType::Nature)) == Some(SkillType::Nature));
            },
            SkillType::Perception => {
                assert(Self::spec_dec(Self::spec_enc(SkillType::Perception)) == Some(SkillType::Perception));
            },
            SkillType::Performance => {
                assert(Self::spec_dec(Self::spec_enc(SkillType::Performance)) == Some(SkillType::Performance));
            },
            SkillType::Persuasion => {
                assert(Self::spec_dec(Self::spec_enc(SkillType::Persuasion)) == Some(SkillType::Persuasion));
            },
            SkillType::Religion => {
                assert(Self::spec_dec(Self::spec_enc(SkillType::Religion)) == Some(SkillType::Religion));
            },
            SkillType::SleightOfHand => {
                assert(Self::spec_dec(Self::spec_enc(SkillType::SleightOfHand)) == Some(SkillType::SleightOfHand));
            },
            SkillType::Stealth => {
                assert(Self::spec_dec(Self::spec_enc(SkillType::Stealth)) == Some(SkillType::Stealth));
            },
            SkillType::Survival => {
                assert(Self::spec_dec(Self::spec_enc(SkillType::Survival)) == Some(SkillType::Survival));
            },
        }
    }
}

impl Codec for Skill {
    open spec fn spec_enc(v: Skill) -> RecordV {
        RecordV::Obj(
            seq![
                ("skill_type"@, <SkillType as Codec>::spec_enc(v.skill_type)),
                ("modifier"@, <i32 as Codec>::spec_enc(v.modifier)),
            ],
        )
    }

    open spec fn spec_dec(r: RecordV) -> Option<Skill> {
        match r {
            RecordV::Obj(fields) => if fields.len() == 2
                && fields[0].0 == "skill_type"@
                && fields[1].0 == "modifier"@ {
                match (<SkillType as Codec>::spec_dec(fields[0].1), <i32 as Codec>::spec_dec(fields[1].1)) {
                    (Some(f_skill_type), Some(f_modifier)) => Some(Skill { skill_type: f_skill_type, modifier: f_modifier }),
                    _ => None,
                }
            } else {
                None
            },
            _ => None,
        }
    }

    fn to_record(&self) -> (r: Record) {
        let mut fs: Vec<(String, Record)> = Vec::new();
        fs.push((String::from_str("skill_type"), self.skill_type.to_record()));
        fs.push((String::from_str("modifier"), self.modifier.to_record()));
        let r = Record::Obj(fs);
        proof {
            assert(field_views(fs@) =~= seq![
                ("skill_type"@, <SkillType as Codec>::spec_enc(self.skill_type)),
                ("modifier"@, <i32 as Codec>::spec_enc(self.modifier)),
            ]);
        }
        r
    }

    fn from_record(r: &Record) -> (res: Result<Skill, DecodeError>) {
        match r {
            Record::Obj(fs) => {
                if fs.len() != 2 {
                    return Err(DecodeError::Malformed);
                }
                let e0 = &fs[0];
                if !str_eq(e0.0.as_str(), "skill_type") {
                    return Err(DecodeError::Malformed);
                }
                let f_skill_type = match <SkillType>::from_record(&e0.1) {
                    Ok(x) => x,
                    Err(e) => return Err(e),
                };
                let e1 = &fs[1];
                if !str_eq(e1.0.as_str(), "modifier") {
                    return Err(DecodeError::Malformed);
                }
                let f_modifier = match <i32>::from_record(&e1.1) {
                    Ok(x) => x,
                    Err(e) => return Err(e),
                };
                Ok(Skill { skill_type: f_skill_type, modifier: f_modifier })
            },
            _ => Err(DecodeError::Malformed),
        }
    }

    proof fn lemma_round_trip(v: Skill) {
        <SkillType as Codec>::lemma_round_trip(v.skill_type);
        <i32 as Codec>::lemma_round_trip(v.modifier);
    }
}

/// A special sense a creature has, with its reach in feet.
#[derive(Debug, Clone, Copy, PartialEq, Eq, Structural)]
pub enum Sense {
    Blindsight(u32),
    Darkvision(u32),
    Tremorsense(u32),
    Truesight(u32),
}

impl DeepView for Sense {
    type V = Sense;

    open spec fn deep_view(&self) -> Sense {
        *self
    }
}

impl Sense {
    /// The display text of this sense: `"{Sense} {feet} ft."`.
    pub open spec fn spec_display(self) -> Seq<char> {
        match self {
            Sense::Blindsight(x) => "Blindsight "@ + dec_str(x as int) + " ft."@,
            Sense::Darkvision(x) => "Darkvision "@ + dec_str(x as int) + " ft."@,
            Sense::Tremorsense(x) => "Tremorsense "@ + dec_str(x as int) + " ft."@,
            Sense::Truesight(x) => "Truesight "@ + dec_str(x as int) + " ft."@,
        }
    }

    /// Renders the display text of this sense.
    pub fn to_string(&self) -> (s: String)
        ensures
            s@ == self.spec_display(),
    {
        let (label, x) = match self {
            Sense::Blindsight(x) => ("Blindsight ", *x),
            Sense::Darkvision(x) => ("Darkvision ", *x),
            Sense::Tremorsense(x) => ("Tremorsense ", *x),
            Sense::Truesight(x) => ("Truesight ", *x),
        };
        let mut s = String::from_str(label);
        push_dec_i64(&mut s, x as i64);
        s.append(" ft.");
        proof {
            assert(s@ =~= self.spec_display());
        }
        s
    }
}

impl Codec for Sense {
    open spec fn spec_enc(v: Sense) -> RecordV {
        match v {
            Sense::Blindsight(a0) => RecordV::Tag("Blindsight"@, seq![<u32 as Codec>::spec_enc(a0)]),
            Sense::Darkvision(a0) => RecordV::Tag("Darkvision"@, seq![<u32 as Codec>::spec_enc(a0)]),
            Sense::Tremorsense(a0) => RecordV::Tag("Tremorsense"@, seq![<u32 as Codec>::spec_enc(a0)]),
            Sense::Truesight(a0) => RecordV::Tag("Truesight"@, seq![<u32 as Codec>::spec_enc(a0)]),
        }
    }

    open spec fn spec_dec(r: RecordV) -> Option<Sense> {
        match r {
            RecordV::Tag(t, args) => {
                if t == "Blindsight"@ && args.len() == 1 {
                    match <u32 as Codec>::spec_dec(args[0]) {
                        Some(a0) => Some(Sense::Blindsight(a0)),
                        None => None,
                    }
                } else if t == "Darkvision"@ && args.len() == 1 {
                    match <u32 as Codec>::spec_dec(args[0]) {
                        Some(a0) => Some(Sense::Darkvision(a0)),
                        None => None,
                    }
                } else if t == "Tremorsense"@ && args.len() == 1 {
                    match <u32 as Codec>::spec_dec(args[0]) {
                        Some(a0) => Some(Sense::Tremorsense(a0)),
                        None => None,
                    }
                } else if t == "Truesight"@ && args.len() == 1 {
                    match <u32 as Codec>::spec_dec(args[0]) {
                        Some(a0) => Some(Sense::Truesight(a0)),
                        None => None,
                    }
                } else {
                    None
                }
            },
            _ => None,
        }
    }

    fn to_record(&self) -> (r: Record) {
        match self {
            Sense::Blindsight(a0) => {
                let mut args: Vec<Record> = Vec::new();
                args.push(a0.to_record());
                let r = Record::Tag(String::from_str("Blindsight"), args);
                proof {
                    assert(rec_views(args@) =~= seq![<u32 as Codec>::spec_enc(*a0)]);
                }
                r
            },
            Sense::Darkvision(a0) => {
                let mut args: Vec<Record> = Vec::new();
                args.push(a0.to_record());
                let r = Record::Tag(String::from_str("Darkvision"), args);
                proof {
                    assert(rec_views(args@) =~= seq![<u32 as Codec>::spec_enc(*a0)]);
                }
                r
            },
            Sense::Tremorsense(a0) => {
                let mut args: Vec<Record> = Vec::new();
                args.push(a0.to_record());
                let r = Record::Tag(String::from_str("Tremorsense"), args);
                proof {
                    assert(rec_views(args@) =~= seq![<u32 as Codec>::spec_enc(*a0)]);
                }
                r
            },
            Sense::Truesight(a0) => {
                let mut args: Vec<Record> = Vec::new();
                args.push(a0.to_record());
                let r = Record::Tag(String::from_str("Truesight"), args);
                proof {
                    assert(rec_views(args@) =~= seq![<u32 as Codec>::spec_enc(*a0)]);
                }
                r
            },
        }
    }

    fn from_record(r: &Record) -> (res: Result<Sense, DecodeError>) {
        match r {
            Record::Tag(t, args) => {
                if str_eq(t.as_str(), "Blindsight") && args.len() == 1 {
                    let a0 = match <u32>::from_record(&args[0]) {
                        Ok(x) => x,
                        Err(e) => return Err(e),
                    };
                    Ok(Sense::Blindsight(a0))
                } else if str_eq(t.as_str(), "Darkvision") && args.len() == 1 {
                    let a0 = match <u32>::from_record(&args[0]) {
                        Ok(x) => x,
                        Err(e) => return Err(e),
                    };
                    Ok(Sense::Darkvision(a0))
                } else if str_eq(t.as_str(), "Tremorsense") && args.len() == 1 {
                    let a0 = match <u32>::from_record(&args[0]) {
                        Ok(x) => x,
                        Err(e) => return Err(e),
                    };
                    Ok(Sense::Tremorsense(a0))
                } else if str_eq(t.as_str(), "Truesight") && args.len() == 1 {
                    let a0 = match <u32>::from_record(&args[0]) {
                        Ok(x) => x,
                        Err(e) => return Err(e),
                    };
                    Ok(Sense::Truesight(a0))
                } else {
                    Err(DecodeError::Malformed)
                }
            },
            _ => Err(DecodeError::Malformed),
        }
    }

    proof fn lemma_round_trip(v: Sense) {
        reveal_strlit("Blindsight");
        reveal_strlit("Darkvision");
        reveal_strlit("Tremorsense");
        reveal_strlit("Truesight");
        assert(("Darkvision"@) != ("Blindsight"@)) by {
            assert(("Darkvision"@)[0] == 'D');
            assert(("Blindsight"@)[0] == 'B');
        }
        assert(("Tremorsense"@) != ("Blindsight"@)) by {
            assert(("Tremorsense"@)[0] == 'T');
            assert(("Blindsight"@)[0] == 'B');
        }
        assert(("Tremorsense"@) != ("Darkvision"@)) by {
            assert(("Tremorsense"@)[0] == 'T');
            assert(("Darkvision"@)[0] == 'D');
        }
        assert(("Truesight"@) != ("Blindsight"@)) by {
            assert(("Truesight"@)[0] == 'T');
            assert(("Blindsight"@)[0] == 'B');
        }
        assert(("Truesight"@) != ("Darkvision"@)) by {
            assert(("Truesight"@)[0] == 'T');
            assert(("Darkvision"@)[0] == 'D');
        }
        assert(("Truesight"@) != ("Tremorsense"@)) by {
            assert(("Truesight"@)[2] == 'u');
            assert(("Tremorsense"@)[2] == 'e');
        }
        match v {
            Sense::Blindsight(a0) => {
                <u32 as Codec>::lemma_round_trip(a0);
                assert(Self::spec_dec(Self::spec_enc(v)) == Some(v));
            },
            Sense::Darkvision(a0) => {
                <u32 as Codec>::lemma_round_trip(a0);
                assert(Self::spec_dec(Self::spec_enc(v)) == Some(v));
            },
            Sense::Tremorsense(a0) => {
                <u32 as Codec>::lemma_round_trip(a0);
                assert(Self::spec_dec(Self::spec_enc(v)) == Some(v));
            },
            Sense::Truesight(a0) => {
                <u32 as Codec>::lemma_round_trip(a0);
                assert(Self::spec_dec(Self::spec_enc(v)) == Some(v));
            },
        }
    }
}

/// A language a creature can speak or understand.
#[derive(Debug, Clone, Copy, PartialEq, Eq, Structural)]
pub enum Language {
    Abanasinia,
    Abyssal,
    Aquan,
    Auran,
    Celestial,
    Common,
    DeepSpeech,
    Draconic,
    Dwarvish,
    Elvish,
    Ergot,
    Giant,
    Gnomish,
    Goblin,
    Hadozee,
    Halfling,
    Ignan,
    Infernal,
    Istarian,
    Kenderspeak,
    Kharolian,
    Khur,
    Kothian,
    Kraul,
    Leonin,
    Loxodon,
    Marquesian,
    Merfolk,
    Minotaur,
    Naush,
    Narakese,
    Nordmaarian,
    Orc,
    Primordial,
    Quori,
    Riedran,
    Solamnic,
    Sphinx,
    Sylvan,
    Terran,
    ThriKreen,
    Undercommon,
    Vedalken,
    Zemnian,
}

impl DeepView for Language {
    type V = Language;

    open spec fn deep_view(&self) -> Language {
        *self
    }
}

impl Language {
    /// The display text of this language, with its canonical spacing and hyphenation.
    pub open spec fn spec_display(self) -> Seq<char> {
        match self {
            Language::Abanasinia => "Abanasinia"@,
            Language::Abyssal => "Abyssal"@,
            Language::Aquan => "Aquan"@,
            Language::Auran => "Auran"@,
            Language::Celestial => "Celestial"@,
            Language::Common => "Common"@,
            Language::DeepSpeech => "Deep Speech"@,
            Language::Draconic => "Draconic"@,
            Language::Dwarvish => "Dwarvish"@,
            Language::Elvish => "Elvish"@,
            Language::Ergot => "Ergot"@,
            Language::Giant => "Giant"@,
            Language::Gnomish => "Gnomish"@,
            Language::Goblin => "Goblin"@,
            Language::Hadozee => "Hadozee"@,
            Language::Halfling => "Halfling"@,
            Language::Ignan => "Ignan"@,
            Language::Infernal => "Infernal"@,
            Language::Istarian => "Istarian"@,
            Language::Kenderspeak => "Kenderspeak"@,
            Language::Kharolian => "Kharolian"@,
            Language::Khur => "Khur"@,
            Language::Kothian => "Kothian"@,
            Language::Kraul => "Kraul"@,
            Language::Leonin => "Leonin"@,
            Language::Loxodon => "Loxodon"@,
            Language::Marquesian => "Marquesian"@,
            Language::Merfolk => "Merfolk"@,
            Language::Minotaur => "Minotaur"@,
            Language::Naush => "Naush"@,
            Language::Narakese => "Narakese"@,
            Language::Nordmaarian => "Nordmaarian"@,
            Language::Orc => "Orc"@,
            Language::Primordial => "Primordial"@,
            Language::Quori => "Quori"@,
            Language::Riedran => "Riedran"@,
            Language::Solamnic => "Solamnic"@,
            Language::Sphinx => "Sphinx"@,
            Language::Sylvan => "Sylvan"@,
            Language::Terran => "Terran"@,
            Language::ThriKreen => "Thri-Kreen"@,
            Language::Undercommon => "Undercommon"@,
            Language::Vedalken => "Vedalken"@,
            Language::Zemnian => "Zemnian"@,
        }
    }

    /// Renders the display text of this value.
    pub fn to_string(&self) -> (s: String)
        ensures
            s@ == self.spec_display(),
    {
        match self {
            Language::Abanasinia => String::from_str("Abanasinia"),
            Language::Abyssal => String::from_str("Abyssal"),
            Language::Aquan => String::from_str("Aquan"),
            Language::Auran => String::from_str("Auran"),
            Language::Celestial => String::from_str("Celestial"),
            Language::Common => String::from_str("Common"),
            Language::DeepSpeech => String::from_str("Deep Speech"),
            Language::Draconic => String::from_str("Draconic"),
            Language::Dwarvish => String::from_str("Dwarvish"),
            Language::Elvish => String::from_str("Elvish"),
            Language::Ergot => String::from_str("Ergot"),
            Language::Giant => String::from_str("Giant"),
            Language::Gnomish => String::from_str("Gnomish"),
            Language::Goblin => String::from_str("Goblin"),
            Language::Hadozee => String::from_str("Hadozee"),
            Language::Halfling => String::from_str("Halfling"),
            Language::Ignan => String::from_str("Ignan"),
            Language::Infernal => String::from_str("Infernal"),
            Language::Istarian => String::from_str("Istarian"),
            Language::Kenderspeak => String::from_str("Kenderspeak"),
            Language::Kharolian => String::from_str("Kharolian"),
            Language::Khur => String::from_str("Khur"),
            Language::Kothian => String::from_str("Kothian"),
            Language::Kraul => String::from_str("Kraul"),
            Language::Leonin => String::from_str("Leonin"),
            Language::Loxodon => String::from_str("Loxodon"),
            Language::Marquesian => String::from_str("Marquesian"),
            Language::Merfolk => String::from_str("Merfolk"),
            Language::Minotaur => String::from_str("Minotaur"),
            Language::Naush => String::from_str("Naush"),
            Language::Narakese => String::from_str("Narakese"),
            Language::Nordmaarian => String::from_str("Nordmaarian"),
            Language::Orc => String::from_str("Orc"),
            Language::Primordial => String::from_str("Primordial"),
            Language::Quori => String::from_str("Quori"),
            Language::Riedran => String::from_str("Riedran"),
            Language::Solamnic => String::from_str("Solamnic"),
            Language::Sphinx => String::from_str("Sphinx"),
            Language::Sylvan => String::from_str("Sylvan"),
            Language::Terran => String::from_str("Terran"),
            Language::ThriKreen => String::from_str("Thri-Kreen"),
            Language::Undercommon => String::from_str("Undercommon"),
            Language::Vedalken => String::from_str("Vedalken"),
            Language::Zemnian => String::from_str("Zemnian"),
        }
    }
}

impl Codec for Language {
    open spec fn spec_enc(v: Language) -> RecordV {
        match v {
            Language::Abanasinia => RecordV::Tag("Abanasinia"@, Seq::empty()),
            Language::Abyssal => RecordV::Tag("Abyssal"@, Seq::empty()),
            Language::Aquan => RecordV::Tag("Aquan"@, Seq::empty()),
            Language::Auran => RecordV::Tag("Auran"@, Seq::empty()),
            Language::Celestial => RecordV::Tag("Celestial"@, Seq::empty()),
            Language::Common => RecordV::Tag("Common"@, Seq::empty()),
            Language::DeepSpeech => RecordV::Tag("DeepSpeech"@, Seq::empty()),
            Language::Draconic => RecordV::Tag("Draconic"@, Seq::empty()),
            Language::Dwarvish => RecordV::Tag("Dwarvish"@, Seq::empty()),
            Language::Elvish => RecordV::Tag("Elvish"@, Seq::empty()),
            Language::Ergot => RecordV::Tag("Ergot"@, Seq::empty()),
            Language::Giant => RecordV::Tag("Giant"@, Seq::empty()),
            Language::Gnomish => RecordV::Tag("Gnomish"@, Seq::empty()),
            Language::Goblin => RecordV::Tag("Goblin"@, Seq::empty()),
            Language::Hadozee => RecordV::Tag("Hadozee"@, Seq::empty()),
            Language::Halfling => RecordV::Tag("Halfling"@, Seq::empty()),
            Language::Ignan => RecordV::Tag("Ignan"@, Seq::empty()),
            Language::Infernal => RecordV::Tag("Infernal"@, Seq::empty()),
            Language::Istarian => RecordV::Tag("Istarian"@, Seq::empty()),
            Language::Kenderspeak => RecordV::Tag("Kenderspeak"@, Seq::empty()),
            Language::Kharolian => RecordV::Tag("Kharolian"@, Seq::empty()),
            Language::Khur => RecordV::Tag("Khur"@, Seq::empty()),
            Language::Kothian => RecordV::Tag("Kothian"@, Seq::empty()),
            Language::Kraul => RecordV::Tag("Kraul"@, Seq::empty()),
            Language::Leonin => RecordV::Tag("Leonin"@, Seq::empty()),
            Language::Loxodon => RecordV::Tag("Loxodon"@, Seq::empty()),
            Language::Marquesian => RecordV::Tag("Marquesian"@, Seq::empty()),
            Language::Merfolk => RecordV::Tag("Merfolk"@, Seq::empty()),
            Language::Minotaur => RecordV::Tag("Minotaur"@, Seq::empty()),
            Language::Naush => RecordV::Tag("Naush"@, Seq::empty()),
            Language::Narakese => RecordV::Tag("Narakese"@, Seq::empty()),
            Language::Nordmaarian => RecordV::Tag("Nordmaarian"@, Seq::empty()),
            Language::Orc => RecordV::Tag("Orc"@, Seq::empty()),
            Language::Primordial => RecordV::Tag("Primordial"@, Seq::empty()),
            Language::Quori => RecordV::Tag("Quori"@, Seq::empty()),
            Language::Riedran => RecordV::Tag("Riedran"@, Seq::empty()),
            Language::Solamnic => RecordV::Tag("Solamnic"@, Seq::empty()),
            Language::Sphinx => RecordV::Tag("Sphinx"@, Seq::empty()),
            Language::Sylvan => RecordV::Tag("Sylvan"@, Seq::empty()),
            Language::Terran => RecordV::Tag("Terran"@, Seq::empty()),
            Language::ThriKreen => RecordV::Tag("ThriKreen"@, Seq::empty()),
            Language::Undercommon => RecordV::Tag("Undercommon"@, Seq::empty()),
            Language::Vedalken => RecordV::Tag("Vedalken"@, Seq::empty()),
            Language::Zemnian => RecordV::Tag("Zemnian"@, Seq::empty()),
        }
    }

    open spec fn spec_dec(r: RecordV) -> Option<Language> {
        match r {
            RecordV::Tag(t, args) => {
                if t == "Abanasinia"@ && args.len() == 0 {
                    Some(Language::Abanasinia)
                } else if t == "Abyssal"@ && args.len() == 0 {
                    Some(Language::Abyssal)
                } else if t == "Aquan"@ && args.len() == 0 {
                    Some(Language::Aquan)
                } else if t == "Auran"@ && args.len() == 0 {
                    Some(Language::Auran)
                } else if t == "Celestial"@ && args.len() == 0 {
                    Some(Language::Celestial)
                } else if t == "Common"@ && args.len() == 0 {
                    Some(Language::Common)
                } else if t == "DeepSpeech"@ && args.len() == 0 {
                    Some(Language::DeepSpeech)
                } else if t == "Draconic"@ && args.len() == 0 {
                    Some(Language::Draconic)
                } else if t == "Dwarvish"@ && args.len() == 0 {
                    Some(Language::Dwarvish)
                } else if t == "Elvish"@ && args.len() == 0 {
                    Some(Language::Elvish)
                } else if t == "Ergot"@ && args.len() == 0 {
                    Some(Language::Ergot)
                } else if t == "Giant"@ && args.len() == 0 {
                    Some(Language::Giant)
                } else if t == "Gnomish"@ && args.len() == 0 {
                    Some(Language::Gnomish)
                } else if t == "Goblin"@ && args.len() == 0 {
                    Some(Language::Goblin)
                } else if t == "Hadozee"@ && args.len() == 0 {
                    Some(Language::Hadozee)
                } else if t == "Halfling"@ && args.len() == 0 {
                    Some(Language::Halfling)
                } else if t == "Ignan"@ && args.len() == 0 {
                    Some(Language::Ignan)
                } else if t == "Infernal"@ && args.len() == 0 {
                    Some(Language::Infernal)
                } else if t == "Istarian"@ && args.len() == 0 {
                    Some(Language::Istarian)
                } else if t == "Kenderspeak"@ && args.len() == 0 {
                    Some(Language::Kenderspeak)
                } else if t == "Kharolian"@ && args.len() == 0 {
                    Some(Language::Kharolian)
                } else if t == "Khur"@ && args.len() == 0 {
                    Some(Language::Khur)
                } else if t == "Kothian"@ && args.len() == 0 {
                    Some(Language::Kothian)
                } else if t == "Kraul"@ && args.len() == 0 {
                    Some(Language::Kraul)
                } else if t == "Leonin"@ && args.len() == 0 {
                    Some(Language::Leonin)
                } else if t == "Loxodon"@ && args.len() == 0 {
                    Some(Language::Loxodon)
                } else if t == "Marquesian"@ && args.len() == 0 {
                    Some(Language::Marquesian)
                } else if t == "Merfolk"@ && args.len() == 0 {
                    Some(Language::Merfolk)
                } else if t == "Minotaur"@ && args.len() == 0 {
                    Some(Language::Minotaur)
                } else if t == "Naush"@ && args.len() == 0 {
                    Some(Language::Naush)
                } else if t == "Narakese"@ && args.len() == 0 {
                    Some(Language::Narakese)
                } else if t == "Nordmaarian"@ && args.len() == 0 {
                    Some(Language::Nordmaarian)
                } else if t == "Orc"@ && args.len() == 0 {
                    Some(Language::Orc)
                } else if t == "Primordial"@ && args.len() == 0 {
                    Some(Language::Primordial)
                } else if t == "Quori"@ && args.len() == 0 {
                    Some(Language::Quori)
                } else if t == "Riedran"@ && args.len() == 0 {
                    Some(Language::Riedran)
                } else if t == "Solamnic"@ && args.len() == 0 {
                    Some(Language::Solamnic)
                } else if t == "Sphinx"@ && args.len() == 0 {
                    Some(Language::Sphinx)
                } else if t == "Sylvan"@ && args.len() == 0 {
                    Some(Language::Sylvan)
                } else if t == "Terran"@ && args.len() == 0 {
                    Some(Language::Terran)
                } else if t == "ThriKreen"@ && args.len() == 0 {
                    Some(Language::ThriKreen)
                } else if t == "Undercommon"@ && args.len() == 0 {
                    Some(Language::Undercommon)
                } else if t == "Vedalken"@ && args.len() == 0 {
                    Some(Language::Vedalken)
                } else if t == "Zemnian"@ && args.len() == 0 {
                    Some(Language::Zemnian)
                } else {
                    None
                }
            },
            _ => None,
        }
    }

    fn to_record(&self) -> (r: Record) {
        match self {
            Language::Abanasinia => {
                let r = Record::Tag(String::from_str("Abanasinia"), Vec::new());
                proof {
                    assert(rec_views(Seq::<Record>::empty()) =~= Seq::<RecordV>::empty());
                }
                r
            },
            Language::Abyssal => {
                let r = Record::Tag(String::from_str("Abyssal"), Vec::new());
                proof {
                    assert(rec_views(Seq::<Record>::empty()) =~= Seq::<RecordV>::empty());
                }
                r
            },
            Language::Aquan => {
                let r = Record::Tag(String::from_str("Aquan"), Vec::new());
                proof {
                    assert(rec_views(Seq::<Record>::empty()) =~= Seq::<RecordV>::empty());
                }
                r
            },
            Language::Auran => {
                let r = Record::Tag(String::from_str("Auran"), Vec::new());
                proof {
                    assert(rec_views(Seq::<Record>::empty()) =~= Seq::<RecordV>::empty());
                }
                r
            },
            Language::Celestial => {
                let r = Record::Tag(String::from_str("Celestial"), Vec::new());
                proof {
                    assert(rec_views(Seq::<Record>::empty()) =~= Seq::<RecordV>::empty());
                }
                r
            },
            Language::Common => {
                let r = Record::Tag(String::from_str("Common"), Vec::new());
                proof {
                    assert(rec_views(Seq::<Record>::empty()) =~= Seq::<RecordV>::empty());
                }
                r
            },
            Language::DeepSpeech => {
                let r = Record::Tag(String::from_str("DeepSpeech"), Vec::new());
                proof {
                    assert(rec_views(Seq::<Record>::empty()) =~= Seq::<RecordV>::empty());
                }
                r
            },
            Language::Draconic => {
                let r = Record::Tag(String::from_str("Draconic"), Vec::new());
                proof {
                    assert(rec_views(Seq::<Record>::empty()) =~= Seq::<RecordV>::empty());
                }
                r
            },
            Language::Dwarvish => {
                let r = Record::Tag(String::from_str("Dwarvish"), Vec::new());
                proof {
                    assert(rec_views(Seq::<Record>::empty()) =~= Seq::<RecordV>::empty());
                }
                r
            },
            Language::Elvish => {
                let r = Record::Tag(String::from_str("Elvish"), Vec::new());
                proof {
                    assert(rec_views(Seq::<Record>::empty()) =~= Seq::<RecordV>::empty());
                }
                r
            },
            Language::Ergot => {
                let r = Record::Tag(String::from_str("Ergot"), Vec::new());
                proof {
                    assert(rec_views(Seq::<Record>::empty()) =~= Seq::<RecordV>::empty());
                }
                r
            },
            Language::Giant => {
                let r = Record::Tag(String::from_str("Giant"), Vec::new());
                proof {
                    assert(rec_views(Seq::<Record>::empty()) =~= Seq::<RecordV>::empty());
                }
                r
            },
            Language::Gnomish => {
                let r = Record::Tag(String::from_str("Gnomish"), Vec::new());
                proof {
                    assert(rec_views(Seq::<Record>::empty()) =~= Seq::<RecordV>::empty());
                }
                r
            },
            Language::Goblin => {
                let r = Record::Tag(String::from_str("Goblin"), Vec::new());
                proof {
                    assert(rec_views(Seq::<Record>::empty()) =~= Seq::<RecordV>::empty());
                }
                r
            },
            Language::Hadozee => {
                let r = Record::Tag(String::from_str("Hadozee"), Vec::new());
                proof {
                    assert(rec_views(Seq::<Record>::empty()) =~= Seq::<RecordV>::empty());
                }
                r
            },
            Language::Halfling => {
                let r = Record::Tag(String::from_str("Halfling"), Vec::new());
                proof {
                    assert(rec_views(Seq::<Record>::empty()) =~= Seq::<RecordV>::empty());
                }
                r
            },
            Language::Ignan => {
                let r = Record::Tag(String::from_str("Ignan"), Vec::new());
                proof {
                    assert(rec_views(Seq::<Record>::empty()) =~= Seq::<RecordV>::empty());
                }
                r
            },
            Language::Infernal => {
                let r = Record::Tag(String::from_str("Infernal"), Vec::new());
                proof {
                    assert(rec_views(Seq::<Record>::empty()) =~= Seq::<RecordV>::empty());
                }
                r
            },
            Language::Istarian => {
                let r = Record::Tag(String::from_str("Istarian"), Vec::new());
                proof {
                    assert(rec_views(Seq::<Record>::empty()) =~= Seq::<RecordV>::empty());
                }
                r
            },
            Language::Kenderspeak => {
                let r = Record::Tag(String::from_str("Kenderspeak"), Vec::new());
                proof {
                    assert(rec_views(Seq::<Record>::empty()) =~= Seq::<RecordV>::empty());
                }
                r
            },
            Language::Kharolian => {
                let r = Record::Tag(String::from_str("Kharolian"), Vec::new());
                proof {
                    assert(rec_views(Seq::<Record>::empty()) =~= Seq::<RecordV>::empty());
                }
                r
            },
            Language::Khur => {
                let r = Record::Tag(String::from_str("Khur"), Vec::new());
                proof {
                    assert(rec_views(Seq::<Record>::empty()) =~= Seq::<RecordV>::empty());
                }
                r
            },
            Language::Kothian => {
                let r = Record::Tag(String::from_str("Kothian"), Vec::new());
                proof {
                    assert(rec_views(Seq::<Record>::empty()) =~= Seq::<RecordV>::empty());
                }
                r
            },
            Language::Kraul => {
                let r = Record::Tag(String::from_str("Kraul"), Vec::new());
                proof {
                    assert(rec_views(Seq::<Record>::empty()) =~= Seq::<RecordV>::empty());
                }
                r
            },
            Language::Leonin => {
                let r = Record::Tag(String::from_str("Leonin"), Vec::new());
                proof {
                    assert(rec_views(Seq::<Record>::empty()) =~= Seq::<RecordV>::empty());
                }
                r
            },
            Language::Loxodon => {
                let r = Record::Tag(String::from_str("Loxodon"), Vec::new());
                proof {
                    assert(rec_views(Seq::<Record>::empty()) =~= Seq::<RecordV>::empty());
                }
                r
            },
            Language::Marquesian => {
                let r = Record::Tag(String::from_str("Marquesian"), Vec::new());
                proof {
                    assert(rec_views(Seq::<Record>::empty()) =~= Seq::<RecordV>::empty());
                }
                r
            },
            Language::Merfolk => {
                let r = Record::Tag(String::from_str("Merfolk"), Vec::new());
                proof {
                    assert(rec_views(Seq::<Record>::empty()) =~= Seq::<RecordV>::empty());
                }
                r
            },
            Language::Minotaur => {
                let r = Record::Tag(String::from_str("Minotaur"), Vec::new());
                proof {
                    assert(rec_views(Seq::<Record>::empty()) =~= Seq::<RecordV>::empty());
                }
                r
            },
            Language::Naush => {
                let r = Record::Tag(String::from_str("Naush"), Vec::new());
                proof {
                    assert(rec_views(Seq::<Record>::empty()) =~= Seq::<RecordV>::empty());
                }
                r
            },
            Language::Narakese => {
                let r = Record::Tag(String::from_str("Narakese"), Vec::new());
                proof {
                    assert(rec_views(Seq::<Record>::empty()) =~= Seq::<RecordV>::empty());
                }
                r
            },
            Language::Nordmaarian => {
                let r = Record::Tag(String::from_str("Nordmaarian"), Vec::new());
                proof {
                    assert(rec_views(Seq::<Record>::empty()) =~= Seq::<RecordV>::empty());
                }
                r
            },
            Language::Orc => {
                let r = Record::Tag(String::from_str("Orc"), Vec::new());
                proof {
                    assert(rec_views(Seq::<Record>::empty()) =~= Seq::<RecordV>::empty());
                }
                r
            },
            Language::Primordial => {
                let r = Record::Tag(String::from_str("Primordial"), Vec::new());
                proof {
                    assert(rec_views(Seq::<Record>::empty()) =~= Seq::<RecordV>::empty());
                }
                r
            },
            Language::Quori => {
                let r = Record::Tag(String::from_str("Quori"), Vec::new());
                proof {
                    assert(rec_views(Seq::<Record>::empty()) =~= Seq::<RecordV>::empty());
                }
                r
            },
            Language::Riedran => {
                let r = Record::Tag(String::from_str("Riedran"), Vec::new());
                proof {
                    assert(rec_views(Seq::<Record>::empty()) =~= Seq::<RecordV>::empty());
                }
                r
            },
            Language::Solamnic => {
                let r = Record::Tag(String::from_str("Solamnic"), Vec::new());
                proof {
                    assert(rec_views(Seq::<Record>::empty()) =~= Seq::<RecordV>::empty());
                }
                r
            },
            Language::Sphinx => {
                let r = Record::Tag(String::from_str("Sphinx"), Vec::new());
                proof {
                    assert(rec_views(Seq::<Record>::empty()) =~= Seq::<RecordV>::empty());
                }
                r
            },
            Language::Sylvan => {
                let r = Record::Tag(String::from_str("Sylvan"), Vec::new());
                proof {
                    assert(rec_views(Seq::<Record>::empty()) =~= Seq::<RecordV>::empty());
                }
                r
            },
            Language::Terran => {
                let r = Record::Tag(String::from_str("Terran"), Vec::new());
                proof {
                    assert(rec_views(Seq::<Record>::empty()) =~= Seq::<RecordV>::empty());
                }
                r
            },
            Language::ThriKreen => {
                let r = Record::Tag(String::from_str("ThriKreen"), Vec::new());
                proof {
                    assert(rec_views(Seq::<Record>::empty()) =~= Seq::<RecordV>::empty());
                }
                r
            },
            Language::Undercommon => {
                let r = Record::Tag(String::from_str("Undercommon"), Vec::new());
                proof {
                    assert(rec_views(Seq::<Record>::empty()) =~= Seq::<RecordV>::empty());
                }
                r
            },
            Language::Vedalken => {
                let r = Record::Tag(String::from_str("Vedalken"), Vec::new());
                proof {
                    assert(rec_views(Seq::<Record>::empty()) =~= Seq::<RecordV>::empty());
                }
                r
            },
            Language::Zemnian => {
                let r = Record::Tag(String::from_str("Zemnian"), Vec::new());
                proof {
                    assert(rec_views(Seq::<Record>::empty()) =~= Seq::<RecordV>::empty());
                }
                r
            },
        }
    }

    fn from_record(r: &Record) -> (res: Result<Language, DecodeError>) {
        match r {
            Record::Tag(t, args) => {
                if str_eq(t.as_str(), "Abanasinia") && args.len() == 0 {
                    Ok(Language::Abanasinia)
                } else if str_eq(t.as_str(), "Abyssal") && args.len() == 0 {
                    Ok(Language::Abyssal)
                } else if str_eq(t.as_str(), "Aquan") && args.len() == 0 {
                    Ok(Language::Aquan)
                } else if str_eq(t.as_str(), "Auran") && args.len() == 0 {
                    Ok(Language::Auran)
                } else if str_eq(t.as_str(), "Celestial") && args.len() == 0 {
                    Ok(Language::Celestial)
                } else if str_eq(t.as_str(), "Common") && args.len() == 0 {
                    Ok(Language::Common)
                } else if str_eq(t.as_str(), "DeepSpeech") && args.len() == 0 {
                    Ok(Language::DeepSpeech)
                } else if str_eq(t.as_str(), "Draconic") && args.len() == 0 {
                    Ok(Language::Draconic)
                } else if str_eq(t.as_str(), "Dwarvish") && args.len() == 0 {
                    Ok(Language::Dwarvish)
                } else if str_eq(t.as_str(), "Elvish") && args.len() == 0 {
                    Ok(Language::Elvish)
                } else if str_eq(t.as_str(), "Ergot") && args.len() == 0 {
                    Ok(Language::Ergot)
                } else if str_eq(t.as_str(), "Giant") && args.len() == 0 {
                    Ok(Language::Giant)
                } else if str_eq(t.as_str(), "Gnomish") && args.len() == 0 {
                    Ok(Language::Gnomish)
                } else if str_eq(t.as_str(), "Goblin") && args.len() == 0 {
                    Ok(Language::Goblin)
                } else if str_eq(t.as_str(), "Hadozee") && args.len() == 0 {
                    Ok(Language::Hadozee)
                } else if str_eq(t.as_str(), "Halfling") && args.len() == 0 {
                    Ok(Language::Halfling)
                } else if str_eq(t.as_str(), "Ignan") && args.len() == 0 {
                    Ok(Language::Ignan)
                } else if str_eq(t.as_str(), "Infernal") && args.len() == 0 {
                    Ok(Language::Infernal)
                } else if str_eq(t.as_str(), "Istarian") && args.len() == 0 {
                    Ok(Language::Istarian)
                } else if str_eq(t.as_str(), "Kenderspeak") && args.len() == 0 {
                    Ok(Language::Kenderspeak)
                } else if str_eq(t.as_str(), "Kharolian") && args.len() == 0 {
                    Ok(Language::Kharolian)
                } else if str_eq(t.as_str(), "Khur") && args.len() == 0 {
                    Ok(Language::Khur)
                } else if str_eq(t.as_str(), "Kothian") && args.len() == 0 {
                    Ok(Language::Kothian)
                } else if str_eq(t.as_str(), "Kraul") && args.len() == 0 {
                    Ok(Language::Kraul)
                } else if str_eq(t.as_str(), "Leonin") && args.len() == 0 {
                    Ok(Language::Leonin)
                } else if str_eq(t.as_str(), "Loxodon") && args.len() == 0 {
                    Ok(Language::Loxodon)
                } else if str_eq(t.as_str(), "Marquesian") && args.len() == 0 {
                    Ok(Language::Marquesian)
                } else if str_eq(t.as_str(), "Merfolk") && args.len() == 0 {
                    Ok(Language::Merfolk)
                } else if str_eq(t.as_str(), "Minotaur") && args.len() == 0 {
                    Ok(Language::Minotaur)
                } else if str_eq(t.as_str(), "Naush") && args.len() == 0 {
                    Ok(Language::Naush)
                } else if str_eq(t.as_str(), "Narakese") && args.len() == 0 {
                    Ok(Language::Narakese)
                } else if str_eq(t.as_str(), "Nordmaarian") && args.len() == 0 {
                    Ok(Language::Nordmaarian)
                } else if str_eq(t.as_str(), "Orc") && args.len() == 0 {
                    Ok(Language::Orc)
                } else if str_eq(t.as_str(), "Primordial") && args.len() == 0 {
                    Ok(Language::Primordial)
                } else if str_eq(t.as_str(), "Quori") && args.len() == 0 {
                    Ok(Language::Quori)
                } else if str_eq(t.as_str(), "Riedran") && args.len() == 0 {
                    Ok(Language::Riedran)
                } else if str_eq(t.as_str(), "Solamnic") && args.len() == 0 {
                    Ok(Language::Solamnic)
                } else if str_eq(t.as_str(), "Sphinx") && args.len() == 0 {
                    Ok(Language::Sphinx)
                } else if str_eq(t.as_str(), "Sylvan") && args.len() == 0 {
                    Ok(Language::Sylvan)
                } else if str_eq(t.as_str(), "Terran") && args.len() == 0 {
                    Ok(Language::Terran)
                } else if str_eq(t.as_str(), "ThriKreen") && args.len() == 0 {
                    Ok(Language::ThriKreen)
                } else if str_eq(t.as_str(), "Undercommon") && args.len() == 0 {
                    Ok(Language::Undercommon)
                } else if str_eq(t.as_str(), "Vedalken") && args.len() == 0 {
                    Ok(Language::Vedalken)
                } else if str_eq(t.as_str(), "Zemnian") && args.len() == 0 {
                    Ok(Language::Zemnian)
                } else {
                    Err(DecodeError::Malformed)
                }
            },
            _ => Err(DecodeError::Malformed),
        }
    }

    proof fn lemma_round_trip(v: Language) {
        reveal_strlit("Abanasinia");
        reveal_strlit("Abyssal");
        reveal_strlit("Aquan");
        reveal_strlit("Auran");
        reveal_strlit("Celestial");
        reveal_strlit("Common");
        reveal_strlit("DeepSpeech");
        reveal_strlit("Draconic");
        reveal_strlit("Dwarvish");
        reveal_strlit("Elvish");
        reveal_strlit("Ergot");
        reveal_strlit("Giant");
        reveal_strlit("Gnomish");
        reveal_strlit("Goblin");
        reveal_strlit("Hadozee");
        reveal_strlit("Halfling");
        reveal_strlit("Ignan");
        reveal_strlit("Infernal");
        reveal_strlit("Istarian");
        reveal_strlit("Kenderspeak");
        reveal_strlit("Kharolian");
        reveal_strlit("Khur");
        reveal_strlit("Kothian");
        reveal_strlit("Kraul");
        reveal_strlit("Leonin");
        reveal_strlit("Loxodon");
        reveal_strlit("Marquesian");
        reveal_strlit("Merfolk");
        reveal_strlit("Minotaur");
        reveal_strlit("Naush");
        reveal_strlit("Narakese");
        reveal_strlit("Nordmaarian");
        reveal_strlit("Orc");
        reveal_strlit("Primordial");
        reveal_strlit("Quori");
        reveal_strlit("Riedran");
        reveal_strlit("Solamnic");
        reveal_strlit("Sphinx");
        reveal_strlit("Sylvan");
        reveal_strlit("Terran");
        reveal_strlit("ThriKreen");
        reveal_strlit("Undercommon");
        reveal_strlit("Vedalken");
        reveal_strlit("Zemnian");
        assert(("Abyssal"@) != ("Abanasinia"@)) by {
            assert(("Abyssal"@)[2] == 'y');
            assert(("Abanasinia"@)[2] == 'a');
        }
        assert(("Aquan"@) != ("Abanasinia"@)) by {
            assert(("Aquan"@)[1] == 'q');
            assert(("Abanasinia"@)[1] == 'b');
        }
        assert(("Aquan"@) != ("Abyssal"@)) by {
            assert(("Aquan"@)[1] == 'q');
            assert(("Abyssal"@)[1] == 'b');
        }
        assert(("Auran"@) != ("Abanasinia"@)) by {
            assert(("Auran"@)[1] == 'u');
            assert(("Abanasinia"@)[1] == 'b');
        }
        assert(("Auran"@) != ("Abyssal"@)) by {
            assert(("Auran"@)[1] == 'u');
            assert(("Abyssal"@)[1] == 'b');
        }
        assert(("Auran"@) != ("Aquan"@)) by {
            assert(("Auran"@)[1] == 'u');
            assert(("Aquan"@)[1] == 'q');
        }
        assert(("Celestial"@) != ("Abanasinia"@)) by {
            assert(("Celestial"@)[0] == 'C');
            assert(("Abanasinia"@)[0] == 'A');
        }
        assert(("Celestial"@) != ("Abyssal"@)) by {
            assert(("Celestial"@)[0] == 'C');
            assert(("Abyssal"@)[0] == 'A');
        }
        assert(("Celestial"@) != ("Aquan"@)) by {
            assert(("Celestial"@)[0] == 'C');
            assert(("Aquan"@)[0] == 'A');
        }
        assert(("Celestial"@) != ("Auran"@)) by {
            assert(("Celestial"@)[0] == 'C');
            assert(("Auran"@)[0] == 'A');
        }
        assert(("Common"@) != ("Abanasinia"@)) by {
            assert(("Common"@)[0] == 'C');
            assert(("Abanasinia"@)[0] == 'A');
        }
        assert(("Common"@) != ("Abyssal"@)) by {
            assert(("Common"@)[0] == 'C');
            assert(("Abyssal"@)[0] == 'A');
        }
        assert(("Common"@) != ("Aquan"@)) by {
            assert(("Common"@)[0] == 'C');
            assert(("Aquan"@)[0] == 'A');
        }
        assert(("Common"@) != ("Auran"@)) by {
            assert(("Common"@)[0] == 'C');
            assert(("Auran"@)[0] == 'A');
        }
        assert(("Common"@) != ("Celestial"@)) by {
            assert(("Common"@)[1] == 'o');
            assert(("Celestial"@)[1] == 'e');
        }
        assert(("DeepSpeech"@) != ("Abanasinia"@)) by {
            assert(("DeepSpeech"@)[0] == 'D');
            assert(("Abanasinia"@)[0] == 'A');
        }
        assert(("DeepSpeech"@) != ("Abyssal"@)) by {
            assert(("DeepSpeech"@)[0] == 'D');
            assert(("Abyssal"@)[0] == 'A');
        }
        assert(("DeepSpeech"@) != ("Aquan"@)) by {
            assert(("DeepSpeech"@)[0] == 'D');
            assert(("Aquan"@)[0] == 'A');
        }
        assert(("DeepSpeech"@) != ("Auran"@)) by {
            assert(("DeepSpeech"@)[0] == 'D');
            assert(("Auran"@)[0] == 'A');
        }
        assert(("DeepSpeech"@) != ("Celestial"@)) by {
            assert(("DeepSpeech"@)[0] == 'D');
            assert(("Celestial"@)[0] == 'C');
        }
        assert(("DeepSpeech"@) != ("Common"@)) by {
            assert(("DeepSpeech"@)[0] == 'D');
            assert(("Common"@)[0] == 'C');
        }
        assert(("Draconic"@) != ("Abanasinia"@)) by {
            assert(("Draconic"@)[0] == 'D');
            assert(("Abanasinia"@)[0] == 'A');
        }
        assert(("Draconic"@) != ("Abyssal"@)) by {
            assert(("Draconic"@)[0] == 'D');
            assert(("Abyssal"@)[0] == 'A');
        }
        assert(("Draconic"@) != ("Aquan"@)) by {
            assert(("Draconic"@)[0] == 'D');
            assert(("Aquan"@)[0] == 'A');
        }
        assert(("Draconic"@) != ("Auran"@)) by {
            assert(("Draconic"@)[0] == 'D');
            assert(("Auran"@)[0] == 'A');
        }
        assert(("Draconic"@) != ("Celestial"@)) by {
            assert(("Draconic"@)[0] == 'D');
            assert(("Celestial"@)[0] == 'C');
        }
        assert(("Draconic"@) != ("Common"@)) by {
            assert(("Draconic"@)[0] == 'D');
            assert(("Common"@)[0] == 'C');
        }
        assert(("Draconic"@) != ("DeepSpeech"@)) by {
            assert(("Draconic"@)[1] == 'r');
            assert(("DeepSpeech"@)[1] == 'e');
        }
        assert(("Dwarvish"@) != ("Abanasinia"@)) by {
            assert(("Dwarvish"@)[0] == 'D');
            assert(("Abanasinia"@)[0] == 'A');
        }
        assert(("Dwarvish"@) != ("Abyssal"@)) by {
            assert(("Dwarvish"@)[0] == 'D');
            assert(("Abyssal"@)[0] == 'A');
        }
        assert(("Dwarvish"@) != ("Aquan"@)) by {
            assert(("Dwarvish"@)[0] == 'D');
            assert(("Aquan"@)[0] == 'A');
        }
        assert(("Dwarvish"@) != ("Auran"@)) by {
            assert(("Dwarvish"@)[0] == 'D');
            assert(("Auran"@)[0] == 'A');
        }
        assert(("Dwarvish"@) != ("Celestial"@)) by {
            assert(("Dwarvish"@)[0] == 'D');
            assert(("Celestial"@)[0] == 'C');
        }
        assert(("Dwarvish"@) != ("Common"@)) by {
            assert(("Dwarvish"@)[0] == 'D');
            assert(("Common"@)[0] == 'C');
        }
        assert(("Dwarvish"@) != ("DeepSpeech"@)) by {
            assert(("Dwarvish"@)[1] == 'w');
            assert(("DeepSpeech"@)[1] == 'e');
        }
        assert(("Dwarvish"@) != ("Draconic"@)) by {
            assert(("Dwarvish"@)[1] == 'w');
            assert(("Draconic"@)[1] == 'r');
        }
        assert(("Elvish"@) != ("Abanasinia"@)) by {
            assert(("Elvish"@)[0] == 'E');
            assert(("Abanasinia"@)[0] == 'A');
        }
        assert(("Elvish"@) != ("Abyssal"@)) by {
            assert(("Elvish"@)[0] == 'E');
            assert(("Abyssal"@)[0] == 'A');
        }
        assert(("Elvish"@) != ("Aquan"@)) by {
            assert(("Elvish"@)[0] == 'E');
            assert(("Aquan"@)[0] == 'A');
        }
        assert(("Elvish"@) != ("Auran"@)) by {
            assert(("Elvish"@)[0] == 'E');
            assert(("Auran"@)[0] == 'A');
        }
        assert(("Elvish"@) != ("Celestial"@)) by {
            assert(("Elvish"@)[0] == 'E');
            assert(("Celestial"@)[0] == 'C');
        }
        assert(("Elvish"@) != ("Common"@)) by {
            assert(("Elvish"@)[0] == 'E');
            assert(("Common"@)[0] == 'C');
        }
        assert(("Elvish"@) != ("DeepSpeech"@)) by {
            assert(("Elvish"@)[0] == 'E');
            assert(("DeepSpeech"@)[0] == 'D');
        }
        assert(("Elvish"@) != ("Draconic"@)) by {
            assert(("Elvish"@)[0] == 'E');
            assert(("Draconic"@)[0] == 'D');
        }
        assert(("Elvish"@) != ("Dwarvish"@)) by {
            assert(("Elvish"@)[0] == 'E');
            assert(("Dwarvish"@)[0] == 'D');
        }
        assert(("Ergot"@) != ("Abanasinia"@)) by {
            assert(("Ergot"@)[0] == 'E');
            assert(("Abanasinia"@)[0] == 'A');
        }
        assert(("Ergot"@) != ("Abyssal"@)) by {
            assert(("Ergot"@)[0] == 'E');
            assert(("Abyssal"@)[0] == 'A');
        }
        assert(("Ergot"@) != ("Aquan"@)) by {
            assert(("Ergot"@)[0] == 'E');
            assert(("Aquan"@)[0] == 'A');
        }
        assert(("Ergot"@) != ("Auran"@)) by {
            assert(("Ergot"@)[0] == 'E');
            assert(("Auran"@)[0] == 'A');
        }
        assert(("Ergot"@) != ("Celestial"@)) by {
            assert(("Ergot"@)[0] == 'E');
            assert(("Celestial"@)[0] == 'C');
        }
        assert(("Ergot"@) != ("Common"@)) by {
            assert(("Ergot"@)[0] == 'E');
            assert(("Common"@)[0] == 'C');
        }
        assert(("Ergot"@) != ("DeepSpeech"@)) by {
            assert(("Ergot"@)[0] == 'E');
            assert(("DeepSpeech"@)[0] == 'D');
        }
        assert(("Ergot"@) != ("Draconic"@)) by {
            assert(("Ergot"@)[0] == 'E');
            assert(("Draconic"@)[0] == 'D');
        }
        assert(("Ergot"@) != ("Dwarvish"@)) by {
            assert(("Ergot"@)[0] == 'E');
            assert(("Dwarvish"@)[0] == 'D');
        }
        assert(("Ergot"@) != ("Elvish"@)) by {
            assert(("Ergot"@)[1] == 'r');
            assert(("Elvish"@)[1] == 'l');
        }
        assert(("Giant"@) != ("Abanasinia"@)) by {
            assert(("Giant"@)[0] == 'G');
            assert(("Abanasinia"@)[0] == 'A');
        }
        assert(("Giant"@) != ("Abyssal"@)) by {
            assert(("Giant"@)[0] == 'G');
            assert(("Abyssal"@)[0] == 'A');
        }
        assert(("Giant"@) != ("Aquan"@)) by {
            assert(("Giant"@)[0] == 'G');
            assert(("Aquan"@)[0] == 'A');
        }
        assert(("Giant"@) != ("Auran"@)) by {
            assert(("Giant"@)[0] == 'G');
            assert(("Auran"@)[0] == 'A');
        }
        assert(("Giant"@) != ("Celestial"@)) by {
            assert(("Giant"@)[0] == 'G');
            assert(("Celestial"@)[0] == 'C');
        }
        assert(("Giant"@) != ("Common"@)) by {
            assert(("Giant"@)[0] == 'G');
            assert(("Common"@)[0] == 'C');
        }
        assert(("Giant"@) != ("DeepSpeech"@)) by {
            assert(("Giant"@)[0] == 'G');
            assert(("DeepSpeech"@)[0] == 'D');
        }
        assert(("Giant"@) != ("Draconic"@)) by {
            assert(("Giant"@)[0] == 'G');
            assert(("Draconic"@)[0] == 'D');
        }
        assert(("Giant"@) != ("Dwarvish"@)) by {
            assert(("Giant"@)[0] == 'G');
            assert(("Dwarvish"@)[0] == 'D');
        }
        assert(("Giant"@) != ("Elvish"@)) by {
            assert(("Giant"@)[0] == 'G');
            assert(("Elvish"@)[0] == 'E');
        }
        assert(("Giant"@) != ("Ergot"@)) by {
            assert(("Giant"@)[0] == 'G');
            assert(("Ergot"@)[0] == 'E');
        }
        assert(("Gnomish"@) != ("Abanasinia"@)) by {
            assert(("Gnomish"@)[0] == 'G');
            assert(("Abanasinia"@)[0] == 'A');
        }
        assert(("Gnomish"@) != ("Abyssal"@)) by {
            assert(("Gnomish"@)[0] == 'G');
            assert(("Abyssal"@)[0] == 'A');
        }
        assert(("Gnomish"@) != ("Aquan"@)) by {
            assert(("Gnomish"@)[0] == 'G');
            assert(("Aquan"@)[0] == 'A');
        }
        assert(("Gnomish"@) != ("Auran"@)) by {
            assert(("Gnomish"@)[0] == 'G');
            assert(("Auran"@)[0] == 'A');
        }
        assert(("Gnomish"@) != ("Celestial"@)) by {
            assert(("Gnomish"@)[0] == 'G');
            assert(("Celestial"@)[0] == 'C');
        }
        assert(("Gnomish"@) != ("Common"@)) by {
            assert(("Gnomish"@)[0] == 'G');
            assert(("Common"@)[0] == 'C');
        }
        assert(("Gnomish"@) != ("DeepSpeech"@)) by {
            assert(("Gnomish"@)[0] == 'G');
            assert(("DeepSpeech"@)[0] == 'D');
        }
        assert(("Gnomish"@) != ("Draconic"@)) by {
            assert(("Gnomish"@)[0] == 'G');
            assert(("Draconic"@)[0] == 'D');
        }
        assert(("Gnomish"@) != ("Dwarvish"@)) by {
            assert(("Gnomish"@)[0] == 'G');
            assert(("Dwarvish"@)[0] == 'D');
        }
        assert(("Gnomish"@) != ("Elvish"@)) by {
            assert(("Gnomish"@)[0] == 'G');
            assert(("Elvish"@)[0] == 'E');
        }
        assert(("Gnomish"@) != ("Ergot"@)) by {
            assert(("Gnomish"@)[0] == 'G');
            assert(("Ergot"@)[0] == 'E');
        }
        assert(("Gnomish"@) != ("Giant"@)) by {
            assert(("Gnomish"@)[1] == 'n');
            assert(("Giant"@)[1] == 'i');
        }
        assert(("Goblin"@) != ("Abanasinia"@)) by {
            assert(("Goblin"@)[0] == 'G');
            assert(("Abanasinia"@)[0] == 'A');
        }
        assert(("Goblin"@) != ("Abyssal"@)) by {
            assert(("Goblin"@)[0] == 'G');
            assert(("Abyssal"@)[0] == 'A');
        }
        assert(("Goblin"@) != ("Aquan"@)) by {
            assert(("Goblin"@)[0] == 'G');
            assert(("Aquan"@)[0] == 'A');
        }
        assert(("Goblin"@) != ("Auran"@)) by {
            assert(("Goblin"@)[0] == 'G');
            assert(("Auran"@)[0] == 'A');
        }
        assert(("Goblin"@) != ("Celestial"@)) by {
            assert(("Goblin"@)[0] == 'G');
            assert(("Celestial"@)[0] == 'C');
        }
        assert(("Goblin"@) != ("Common"@)) by {
            assert(("Goblin"@)[0] == 'G');
            assert(("Common"@)[0] == 'C');
        }
        assert(("Goblin"@) != ("DeepSpeech"@)) by {
            assert(("Goblin"@)[0] == 'G');
            assert(("DeepSpeech"@)[0] == 'D');
        }
        assert(("Goblin"@) != ("Draconic"@)) by {
            assert(("Goblin"@)[0] == 'G');
            assert(("Draconic"@)[0] == 'D');
        }
        assert(("Goblin"@) != ("Dwarvish"@)) by {
            assert(("Goblin"@)[0] == 'G');
            assert(("Dwarvish"@)[0] == 'D');
        }
        assert(("Goblin"@) != ("Elvish"@)) by {
            assert(("Goblin"@)[0] == 'G');
            assert(("Elvish"@)[0] == 'E');
        }
        assert(("Goblin"@) != ("Ergot"@)) by {
            assert(("Goblin"@)[0] == 'G');
            assert(("Ergot"@)[0] == 'E');
        }
        assert(("Goblin"@) != ("Giant"@)) by {
            assert(("Goblin"@)[1] == 'o');
            assert(("Giant"@)[1] == 'i');
        }
        assert(("Goblin"@) != ("Gnomish"@)) by {
            assert(("Goblin"@)[1] == 'o');
            assert(("Gnomish"@)[1] == 'n');
        }
        assert(("Hadozee"@) != ("Abanasinia"@)) by {
            assert(("Hadozee"@)[0] == 'H');
            assert(("Abanasinia"@)[0] == 'A');
        }
        assert(("Hadozee"@) != ("Abyssal"@)) by {
            assert(("Hadozee"@)[0] == 'H');
            assert(("Abyssal"@)[0] == 'A');
        }
        assert(("Hadozee"@) != ("Aquan"@)) by {
            assert(("Hadozee"@)[0] == 'H');
            assert(("Aquan"@)[0] == 'A');
        }
        assert(("Hadozee"@) != ("Auran"@)) by {
            assert(("Hadozee"@)[0] == 'H');
            assert(("Auran"@)[0] == 'A');
        }
        assert(("Hadozee"@) != ("Celestial"@)) by {
            assert(("Hadozee"@)[0] == 'H');
            assert(("Celestial"@)[0] == 'C');
        }
        assert(("Hadozee"@) != ("Common"@)) by {
            assert(("Hadozee"@)[0] == 'H');
            assert(("Common"@)[0] == 'C');
        }
        assert(("Hadozee"@) != ("DeepSpeech"@)) by {
            assert(("Hadozee"@)[0] == 'H');
            assert(("DeepSpeech"@)[0] == 'D');
        }
        assert(("Hadozee"@) != ("Draconic"@)) by {
            assert(("Hadozee"@)[0] == 'H');
            assert(("Draconic"@)[0] == 'D');
        }
        assert(("Hadozee"@) != ("Dwarvish"@)) by {
            assert(("Hadozee"@)[0] == 'H');
            assert(("Dwarvish"@)[0] == 'D');
        }
        assert(("Hadozee"@) != ("Elvish"@)) by {
            assert(("Hadozee"@)[0] == 'H');
            assert(("Elvish"@)[0] == 'E');
        }
        assert(("Hadozee"@) != ("Ergot"@)) by {
            assert(("Hadozee"@)[0] == 'H');
            assert(("Ergot"@)[0] == 'E');
        }
        assert(("Hadozee"@) != ("Giant"@)) by {
            assert(("Hadozee"@)[0] == 'H');
            assert(("Giant"@)[0] == 'G');
        }
        assert(("Hadozee"@) != ("Gnomish"@)) by {
            assert(("Hadozee"@)[0] == 'H');
            assert(("Gnomish"@)[0] == 'G');
        }
        assert(("Hadozee"@) != ("Goblin"@)) by {
            assert(("Hadozee"@)[0] == 'H');
            assert(("Goblin"@)[0] == 'G');
        }
        assert(("Halfling"@) != ("Abanasinia"@)) by {
            assert(("Halfling"@)[0] == 'H');
            assert(("Abanasinia"@)[0] == 'A');
        }
        assert(("Halfling"@) != ("Abyssal"@)) by {
            assert(("Halfling"@)[0] == 'H');
            assert(("Abyssal"@)[0] == 'A');
        }
        assert(("Halfling"@) != ("Aquan"@)) by {
            assert(("Halfling"@)[0] == 'H');
            assert(("Aquan"@)[0] == 'A');
        }
        assert(("Halfling"@) != ("Auran"@)) by {
            assert(("Halfling"@)[0] == 'H');
            assert(("Auran"@)[0] == 'A');
        }
        assert(("Halfling"@) != ("Celestial"@)) by {
            assert(("Halfling"@)[0] == 'H');
            assert(("Celestial"@)[0] == 'C');
        }
        assert(("Halfling"@) != ("Common"@)) by {
            assert(("Halfling"@)[0] == 'H');
            assert(("Common"@)[0] == 'C');
        }
        assert(("Halfling"@) != ("DeepSpeech"@)) by {
            assert(("Halfling"@)[0] == 'H');
            assert(("DeepSpeech"@)[0] == 'D');
        }
        assert(("Halfling"@) != ("Draconic"@)) by {
            assert(("Halfling"@)[0] == 'H');
            assert(("Draconic"@)[0] == 'D');
        }
        assert(("Halfling"@) != ("Dwarvish"@)) by {
            assert(("Halfling"@)[0] == 'H');
            assert(("Dwarvish"@)[0] == 'D');
        }
        assert(("Halfling"@) != ("Elvish"@)) by {
            assert(("Halfling"@)[0] == 'H');
            assert(("Elvish"@)[0] == 'E');
        }
        assert(("Halfling"@) != ("Ergot"@)) by {
            assert(("Halfling"@)[0] == 'H');
            assert(("Ergot"@)[0] == 'E');
        }
        assert(("Halfling"@) != ("Giant"@)) by {
            assert(("Halfling"@)[0] == 'H');
            assert(("Giant"@)[0] == 'G');
        }
        assert(("Halfling"@) != ("Gnomish"@)) by {
            assert(("Halfling"@)[0] == 'H');
            assert(("Gnomish"@)[0] == 'G');
        }
        assert(("Halfling"@) != ("Goblin"@)) by {
            assert(("Halfling"@)[0] == 'H');
            assert(("Goblin"@)[0] == 'G');
        }
        assert(("Halfling"@) != ("Hadozee"@)) by {
            assert(("Halfling"@)[2] == 'l');
            assert(("Hadozee"@)[2] == 'd');
        }
        assert(("Ignan"@) != ("Abanasinia"@)) by {
            assert(("Ignan"@)[0] == 'I');
            assert(("Abanasinia"@)[0] == 'A');
        }
        assert(("Ignan"@) != ("Abyssal"@)) by {
            assert(("Ignan"@)[0] == 'I');
            assert(("Abyssal"@)[0] == 'A');
        }
        assert(("Ignan"@) != ("Aquan"@)) by {
            assert(("Ignan"@)[0] == 'I');
            assert(("Aquan"@)[0] == 'A');
        }
        assert(("Ignan"@) != ("Auran"@)) by {
            assert(("Ignan"@)[0] == 'I');
            assert(("Auran"@)[0] == 'A');
        }
        assert(("Ignan"@) != ("Celestial"@)) by {
            assert(("Ignan"@)[0] == 'I');
            assert(("Celestial"@)[0] == 'C');
        }
        assert(("Ignan"@) != ("Common"@)) by {
            assert(("Ignan"@)[0] == 'I');
            assert(("Common"@)[0] == 'C');
        }
        assert(("Ignan"@) != ("DeepSpeech"@)) by {
            assert(("Ignan"@)[0] == 'I');
            assert(("DeepSpeech"@)[0] == 'D');
        }
        assert(("Ignan"@) != ("Draconic"@)) by {
            assert(("Ignan"@)[0] == 'I');
            assert(("Draconic"@)[0] == 'D');
        }
        assert(("Ignan"@) != ("Dwarvish"@)) by {
            assert(("Ignan"@)[0] == 'I');
            assert(("Dwarvish"@)[0] == 'D');
        }
        assert(("Ignan"@) != ("Elvish"@)) by {
            assert(("Ignan"@)[0] == 'I');
            assert(("Elvish"@)[0] == 'E');
        }
        assert(("Ignan"@) != ("Ergot"@)) by {
            assert(("Ignan"@)[0] == 'I');
            assert(("Ergot"@)[0] == 'E');
        }
        assert(("Ignan"@) != ("Giant"@)) by {
            assert(("Ignan"@)[0] == 'I');
            assert(("Giant"@)[0] == 'G');
        }
        assert(("Ignan"@) != ("Gnomish"@)) by {
            assert(("Ignan"@)[0] == 'I');
            assert(("Gnomish"@)[0] == 'G');
        }
        assert(("Ignan"@) != ("Goblin"@)) by {
            assert(("Ignan"@)[0] == 'I');
            assert(("Goblin"@)[0] == 'G');
        }
        assert(("Ignan"@) != ("Hadozee"@)) by {
            assert(("Ignan"@)[0] == 'I');
            assert(("Hadozee"@)[0] == 'H');
        }
        assert(("Ignan"@) != ("Halfling"@)) by {
            assert(("Ignan"@)[0] == 'I');
            assert(("Halfling"@)[0] == 'H');
        }
        assert(("Infernal"@) != ("Abanasinia"@)) by {
            assert(("Infernal"@)[0] == 'I');
            assert(("Abanasinia"@)[0] == 'A');
        }
        assert(("Infernal"@) != ("Abyssal"@)) by {
            assert(("Infernal"@)[0] == 'I');
            assert(("Abyssal"@)[0] == 'A');
        }
        assert(("Infernal"@) != ("Aquan"@)) by {
            assert(("Infernal"@)[0] == 'I');
            assert(("Aquan"@)[0] == 'A');
        }
        assert(("Infernal"@) != ("Auran"@)) by {
            assert(("Infernal"@)[0] == 'I');
            assert(("Auran"@)[0] == 'A');
        }
        assert(("Infernal"@) != ("Celestial"@)) by {
            assert(("Infernal"@)[0] == 'I');
            assert(("Celestial"@)[0] == 'C');
        }
        assert(("Infernal"@) != ("Common"@)) by {
            assert(("Infernal"@)[0] == 'I');
            assert(("Common"@)[0] == 'C');
        }
        assert(("Infernal"@) != ("DeepSpeech"@)) by {
            assert(("Infernal"@)[0] == 'I');
            assert(("DeepSpeech"@)[0] == 'D');
        }
        assert(("Infernal"@) != ("Draconic"@)) by {
            assert(("Infernal"@)[0] == 'I');
            assert(("Draconic"@)[0] == 'D');
        }
        assert(("Infernal"@) != ("Dwarvish"@)) by {
            assert(("Infernal"@)[0] == 'I');
            assert(("Dwarvish"@)[0] == 'D');
        }
        assert(("Infernal"@) != ("Elvish"@)) by {
            assert(("Infernal"@)[0] == 'I');
            assert(("Elvish"@)[0] == 'E');
        }
        assert(("Infernal"@) != ("Ergot"@)) by {
            assert(("Infernal"@)[0] == 'I');
            assert(("Ergot"@)[0] == 'E');
        }
        assert(("Infernal"@) != ("Giant"@)) by {
            assert(("Infernal"@)[0] == 'I');
            assert(("Giant"@)[0] == 'G');
        }
        assert(("Infernal"@) != ("Gnomish"@)) by {
            assert(("Infernal"@)[0] == 'I');
            assert(("Gnomish"@)[0] == 'G');
        }
        assert(("Infernal"@) != ("Goblin"@)) by {
            assert(("Infernal"@)[0] == 'I');
            assert(("Goblin"@)[0] == 'G');
        }
        assert(("Infernal"@) != ("Hadozee"@)) by {
            assert(("Infernal"@)[0] == 'I');
            assert(("Hadozee"@)[0] == 'H');
        }
        assert(("Infernal"@) != ("Halfling"@)) by {
            assert(("Infernal"@)[0] == 'I');
            assert(("Halfling"@)[0] == 'H');
        }
        assert(("Infernal"@) != ("Ignan"@)) by {
            assert(("Infernal"@)[1] == 'n');
            assert(("Ignan"@)[1] == 'g');
        }
        assert(("Istarian"@) != ("Abanasinia"@)) by {
            assert(("Istarian"@)[0] == 'I');
            assert(("Abanasinia"@)[0] == 'A');
        }
        assert(("Istarian"@) != ("Abyssal"@)) by {
            assert(("Istarian"@)[0] == 'I');
            assert(("Abyssal"@)[0] == 'A');
        }
        assert(("Istarian"@) != ("Aquan"@)) by {
            assert(("Istarian"@)[0] == 'I');
            assert(("Aquan"@)[0] == 'A');
        }
        assert(("Istarian"@) != ("Auran"@)) by {
            assert(("Istarian"@)[0] == 'I');
            assert(("Auran"@)[0] == 'A');
        }
        assert(("Istarian"@) != ("Celestial"@)) by {
            assert(("Istarian"@)[0] == 'I');
            assert(("Celestial"@)[0] == 'C');
        }
        assert(("Istarian"@) != ("Common"@)) by {
            assert(("Istarian"@)[0] == 'I');
            assert(("Common"@)[0] == 'C');
        }
        assert(("Istarian"@) != ("DeepSpeech"@)) by {
            assert(("Istarian"@)[0] == 'I');
            assert(("DeepSpeech"@)[0] == 'D');
        }
        assert(("Istarian"@) != ("Draconic"@)) by {
            assert(("Istarian"@)[0] == 'I');
            assert(("Draconic"@)[0] == 'D');
        }
        assert(("Istarian"@) != ("Dwarvish"@)) by {
            assert(("Istarian"@)[0] == 'I');
            assert(("Dwarvish"@)[0] == 'D');
        }
        assert(("Istarian"@) != ("Elvish"@)) by {
            assert(("Istarian"@)[0] == 'I');
            assert(("Elvish"@)[0] == 'E');
        }
        assert(("Istarian"@) != ("Ergot"@)) by {
            assert(("Istarian"@)[0] == 'I');
            assert(("Ergot"@)[0] == 'E');
        }
        assert(("Istarian"@) != ("Giant"@)) by {
            assert(("Istarian"@)[0] == 'I');
            assert(("Giant"@)[0] == 'G');
        }
        assert(("Istarian"@) != ("Gnomish"@)) by {
            assert(("Istarian"@)[0] == 'I');
            assert(("Gnomish"@)[0] == 'G');
        }
        assert(("Istarian"@) != ("Goblin"@)) by {
            assert(("Istarian"@)[0] == 'I');
            assert(("Goblin"@)[0] == 'G');
        }
        assert(("Istarian"@) != ("Hadozee"@)) by {
            assert(("Istarian"@)[0] == 'I');
            assert(("Hadozee"@)[0] == 'H');
        }
        assert(("Istarian"@) != ("Halfling"@)) by {
            assert(("Istarian"@)[0] == 'I');
            assert(("Halfling"@)[0] == 'H');
        }
        assert(("Istarian"@) != ("Ignan"@)) by {
            assert(("Istarian"@)[1] == 's');
            assert(("Ignan"@)[1] == 'g');
        }
        assert(("Istarian"@) != ("Infernal"@)) by {
            assert(("Istarian"@)[1] == 's');
            assert(("Infernal"@)[1] == 'n');
        }
        assert(("Kenderspeak"@) != ("Abanasinia"@)) by {
            assert(("Kenderspeak"@)[0] == 'K');
            assert(("Abanasinia"@)[0] == 'A');
        }
        assert(("Kenderspeak"@) != ("Abyssal"@)) by {
            assert(("Kenderspeak"@)[0] == 'K');
            assert(("Abyssal"@)[0] == 'A');
        }
        assert(("Kenderspeak"@) != ("Aquan"@)) by {
            assert(("Kenderspeak"@)[0] == 'K');
            assert(("Aquan"@)[0] == 'A');
        }
        assert(("Kenderspeak"@) != ("Auran"@)) by {
            assert(("Kenderspeak"@)[0] == 'K');
            assert(("Auran"@)[0] == 'A');
        }
        assert(("Kenderspeak"@) != ("Celestial"@)) by {
            assert(("Kenderspeak"@)[0] == 'K');
            assert(("Celestial"@)[0] == 'C');
        }
        assert(("Kenderspeak"@) != ("Common"@)) by {
            assert(("Kenderspeak"@)[0] == 'K');
            assert(("Common"@)[0] == 'C');
        }
        assert(("Kenderspeak"@) != ("DeepSpeech"@)) by {
            assert(("Kenderspeak"@)[0] == 'K');
            assert(("DeepSpeech"@)[0] == 'D');
        }
        assert(("Kenderspeak"@) != ("Draconic"@)) by {
            assert(("Kenderspeak"@)[0] == 'K');
            assert(("Draconic"@)[0] == 'D');
        }
        assert(("Kenderspeak"@) != ("Dwarvish"@)) by {
            assert(("Kenderspeak"@)[0] == 'K');
            assert(("Dwarvish"@)[0] == 'D');
        }
        assert(("Kenderspeak"@) != ("Elvish"@)) by {
            assert(("Kenderspeak"@)[0] == 'K');
            assert(("Elvish"@)[0] == 'E');
        }
        assert(("Kenderspeak"@) != ("Ergot"@)) by {
            assert(("Kenderspeak"@)[0] == 'K');
            assert(("Ergot"@)[0] == 'E');
        }
        assert(("Kenderspeak"@) != ("Giant"@)) by {
            assert(("Kenderspeak"@)[0] == 'K');
            assert(("Giant"@)[0] == 'G');
        }
        assert(("Kenderspeak"@) != ("Gnomish"@)) by {
            assert(("Kenderspeak"@)[0] == 'K');
            assert(("Gnomish"@)[0] == 'G');
        }
        assert(("Kenderspeak"@) != ("Goblin"@)) by {
            assert(("Kenderspeak"@)[0] == 'K');
            assert(("Goblin"@)[0] == 'G');
        }
        assert(("Kenderspeak"@) != ("Hadozee"@)) by {
            assert(("Kenderspeak"@)[0] == 'K');
            assert(("Hadozee"@)[0] == 'H');
        }
        assert(("Kenderspeak"@) != ("Halfling"@)) by {
            assert(("Kenderspeak"@)[0] == 'K');
            assert(("Halfling"@)[0] == 'H');
        }
        assert(("Kenderspeak"@) != ("Ignan"@)) by {
            assert(("Kenderspeak"@)[0] == 'K');
            assert(("Ignan"@)[0] == 'I');
        }
        assert(("Kenderspeak"@) != ("Infernal"@)) by {
            assert(("Kenderspeak"@)[0] == 'K');
            assert(("Infernal"@)[0] == 'I');
        }
        assert(("Kenderspeak"@) != ("Istarian"@)) by {
            assert(("Kenderspeak"@)[0] == 'K');
            assert(("Istarian"@)[0] == 'I');
        }
        assert(("Kharolian"@) != ("Abanasinia"@)) by {
            assert(("Kharolian"@)[0] == 'K');
            assert(("Abanasinia"@)[0] == 'A');
        }
        assert(("Kharolian"@) != ("Abyssal"@)) by {
            assert(("Kharolian"@)[0] == 'K');
            assert(("Abyssal"@)[0] == 'A');
        }
        assert(("Kharolian"@) != ("Aquan"@)) by {
            assert(("Kharolian"@)[0] == 'K');
            assert(("Aquan"@)[0] == 'A');
        }
        assert(("Kharolian"@) != ("Auran"@)) by {
            assert(("Kharolian"@)[0] == 'K');
            assert(("Auran"@)[0] == 'A');
        }
        assert(("Kharolian"@) != ("Celestial"@)) by {
            assert(("Kharolian"@)[0] == 'K');
            assert(("Celestial"@)[0] == 'C');
        }
        assert(("Kharolian"@) != ("Common"@)) by {
            assert(("Kharolian"@)[0] == 'K');
            assert(("Common"@)[0] == 'C');
        }
        assert(("Kharolian"@) != ("DeepSpeech"@)) by {
            assert(("Kharolian"@)[0] == 'K');
            assert(("DeepSpeech"@)[0] == 'D');
        }
        assert(("Kharolian"@) != ("Draconic"@)) by {
            assert(("Kharolian"@)[0] == 'K');
            assert(("Draconic"@)[0] == 'D');
        }
        assert(("Kharolian"@) != ("Dwarvish"@)) by {
            assert(("Kharolian"@)[0] == 'K');
            assert(("Dwarvish"@)[0] == 'D');
        }
        assert(("Kharolian"@) != ("Elvish"@)) by {
            assert(("Kharolian"@)[0] == 'K');
            assert(("Elvish"@)[0] == 'E');
        }
        assert(("Kharolian"@) != ("Ergot"@)) by {
            assert(("Kharolian"@)[0] == 'K');
            assert(("Ergot"@)[0] == 'E');
        }
        assert(("Kharolian"@) != ("Giant"@)) by {
            assert(("Kharolian"@)[0] == 'K');
            assert(("Giant"@)[0] == 'G');
        }
        assert(("Kharolian"@) != ("Gnomish"@)) by {
            assert(("Kharolian"@)[0] == 'K');
            assert(("Gnomish"@)[0] == 'G');
        }
        assert(("Kharolian"@) != ("Goblin"@)) by {
            assert(("Kharolian"@)[0] == 'K');
            assert(("Goblin"@)[0] == 'G');
        }
        assert(("Kharolian"@) != ("Hadozee"@)) by {
            assert(("Kharolian"@)[0] == 'K');
            assert(("Hadozee"@)[0] == 'H');
        }
        assert(("Kharolian"@) != ("Halfling"@)) by {
            assert(("Kharolian"@)[0] == 'K');
            assert(("Halfling"@)[0] == 'H');
        }
        assert(("Kharolian"@) != ("Ignan"@)) by {
            assert(("Kharolian"@)[0] == 'K');
            assert(("Ignan"@)[0] == 'I');
        }
        assert(("Kharolian"@) != ("Infernal"@)) by {
            assert(("Kharolian"@)[0] == 'K');
            assert(("Infernal"@)[0] == 'I');
        }
        assert(("Kharolian"@) != ("Istarian"@)) by {
            assert(("Kharolian"@)[0] == 'K');
            assert(("Istarian"@)[0] == 'I');
        }
        assert(("Kharolian"@) != ("Kenderspeak"@)) by {
            assert(("Kharolian"@)[1] == 'h');
            assert(("Kenderspeak"@)[1] == 'e');
        }
        assert(("Khur"@) != ("Abanasinia"@)) by {
            assert(("Khur"@)[0] == 'K');
            assert(("Abanasinia"@)[0] == 'A');
        }
        assert(("Khur"@) != ("Abyssal"@)) by {
            assert(("Khur"@)[0] == 'K');
            assert(("Abyssal"@)[0] == 'A');
        }
        assert(("Khur"@) != ("Aquan"@)) by {
            assert(("Khur"@)[0] == 'K');
            assert(("Aquan"@)[0] == 'A');
        }
        assert(("Khur"@) != ("Auran"@)) by {
            assert(("Khur"@)[0] == 'K');
            assert(("Auran"@)[0] == 'A');
        }
        assert(("Khur"@) != ("Celestial"@)) by {
            assert(("Khur"@)[0] == 'K');
            assert(("Celestial"@)[0] == 'C');
        }
        assert(("Khur"@) != ("Common"@)) by {
            assert(("Khur"@)[0] == 'K');
            assert(("Common"@)[0] == 'C');
        }
        assert(("Khur"@) != ("DeepSpeech"@)) by {
            assert(("Khur"@)[0] == 'K');
            assert(("DeepSpeech"@)[0] == 'D');
        }
        assert(("Khur"@) != ("Draconic"@)) by {
            assert(("Khur"@)[0] == 'K');
            assert(("Draconic"@)[0] == 'D');
        }
        assert(("Khur"@) != ("Dwarvish"@)) by {
            assert(("Khur"@)[0] == 'K');
            assert(("Dwarvish"@)[0] == 'D');
        }
        assert(("Khur"@) != ("Elvish"@)) by {
            assert(("Khur"@)[0] == 'K');
            assert(("Elvish"@)[0] == 'E');
        }
        assert(("Khur"@) != ("Ergot"@)) by {
            assert(("Khur"@)[0] == 'K');
            assert(("Ergot"@)[0] == 'E');
        }
        assert(("Khur"@) != ("Giant"@)) by {
            assert(("Khur"@)[0] == 'K');
            assert(("Giant"@)[0] == 'G');
        }
        assert(("Khur"@) != ("Gnomish"@)) by {
            assert(("Khur"@)[0] == 'K');
            assert(("Gnomish"@)[0] == 'G');
        }
        assert(("Khur"@) != ("Goblin"@)) by {
            assert(("Khur"@)[0] == 'K');
            assert(("Goblin"@)[0] == 'G');
        }
        assert(("Khur"@) != ("Hadozee"@)) by {
            assert(("Khur"@)[0] == 'K');
            assert(("Hadozee"@)[0] == 'H');
        }
        assert(("Khur"@) != ("Halfling"@)) by {
            assert(("Khur"@)[0] == 'K');
            assert(("Halfling"@)[0] == 'H');
        }
        assert(("Khur"@) != ("Ignan"@)) by {
            assert(("Khur"@)[0] == 'K');
            assert(("Ignan"@)[0] == 'I');
        }
        assert(("Khur"@) != ("Infernal"@)) by {
            assert(("Khur"@)[0] == 'K');
            assert(("Infernal"@)[0] == 'I');
        }
        assert(("Khur"@) != ("Istarian"@)) by {
            assert(("Khur"@)[0] == 'K');
            assert(("Istarian"@)[0] == 'I');
        }
        assert(("Khur"@) != ("Kenderspeak"@)) by {
            assert(("Khur"@)[1] == 'h');
            assert(("Kenderspeak"@)[1] == 'e');
        }
        assert(("Khur"@) != ("Kharolian"@)) by {
            assert(("Khur"@)[2] == 'u');
            assert(("Kharolian"@)[2] == 'a');
        }
        assert(("Kothian"@) != ("Abanasinia"@)) by {
            assert(("Kothian"@)[0] == 'K');
            assert(("Abanasinia"@)[0] == 'A');
        }
        assert(("Kothian"@) != ("Abyssal"@)) by {
            assert(("Kothian"@)[0] == 'K');
            assert(("Abyssal"@)[0] == 'A');
        }
        assert(("Kothian"@) != ("Aquan"@)) by {
            assert(("Kothian"@)[0] == 'K');
            assert(("Aquan"@)[0] == 'A');
        }
        assert(("Kothian"@) != ("Auran"@)) by {
            assert(("Kothian"@)[0] == 'K');
            assert(("Auran"@)[0] == 'A');
        }
        assert(("Kothian"@) != ("Celestial"@)) by {
            assert(("Kothian"@)[0] == 'K');
            assert(("Celestial"@)[0] == 'C');
        }
        assert(("Kothian"@) != ("Common"@)) by {
            assert(("Kothian"@)[0] == 'K');
            assert(("Common"@)[0] == 'C');
        }
        assert(("Kothian"@) != ("DeepSpeech"@)) by {
            assert(("Kothian"@)[0] == 'K');
            assert(("DeepSpeech"@)[0] == 'D');
        }
        assert(("Kothian"@) != ("Draconic"@)) by {
            assert(("Kothian"@)[0] == 'K');
            assert(("Draconic"@)[0] == 'D');
        }
        assert(("Kothian"@) != ("Dwarvish"@)) by {
            assert(("Kothian"@)[0] == 'K');
            assert(("Dwarvish"@)[0] == 'D');
        }
        assert(("Kothian"@) != ("Elvish"@)) by {
            assert(("Kothian"@)[0] == 'K');
            assert(("Elvish"@)[0] == 'E');
        }
        assert(("Kothian"@) != ("Ergot"@)) by {
            assert(("Kothian"@)[0] == 'K');
            assert(("Ergot"@)[0] == 'E');
        }
        assert(("Kothian"@) != ("Giant"@)) by {
            assert(("Kothian"@)[0] == 'K');
            assert(("Giant"@)[0] == 'G');
        }
        assert(("Kothian"@) != ("Gnomish"@)) by {
            assert(("Kothian"@)[0] == 'K');
            assert(("Gnomish"@)[0] == 'G');
        }
        assert(("Kothian"@) != ("Goblin"@)) by {
            assert(("Kothian"@)[0] == 'K');
            assert(("Goblin"@)[0] == 'G');
        }
        assert(("Kothian"@) != ("Hadozee"@)) by {
            assert(("Kothian"@)[0] == 'K');
            assert(("Hadozee"@)[0] == 'H');
        }
        assert(("Kothian"@) != ("Halfling"@)) by {
            assert(("Kothian"@)[0] == 'K');
            assert(("Halfling"@)[0] == 'H');
        }
        assert(("Kothian"@) != ("Ignan"@)) by {
            assert(("Kothian"@)[0] == 'K');
            assert(("Ignan"@)[0] == 'I');
        }
        assert(("Kothian"@) != ("Infernal"@)) by {
            assert(("Kothian"@)[0] == 'K');
            assert(("Infernal"@)[0] == 'I');
        }
        assert(("Kothian"@) != ("Istarian"@)) by {
            assert(("Kothian"@)[0] == 'K');
            assert(("Istarian"@)[0] == 'I');
        }
        assert(("Kothian"@) != ("Kenderspeak"@)) by {
            assert(("Kothian"@)[1] == 'o');
            assert(("Kenderspeak"@)[1] == 'e');
        }
        assert(("Kothian"@) != ("Kharolian"@)) by {
            assert(("Kothian"@)[1] == 'o');
            assert(("Kharolian"@)[1] == 'h');
        }
        assert(("Kothian"@) != ("Khur"@)) by {
            assert(("Kothian"@)[1] == 'o');
            assert(("Khur"@)[1] == 'h');
        }
        assert(("Kraul"@) != ("Abanasinia"@)) by {
            assert(("Kraul"@)[0] == 'K');
            assert(("Abanasinia"@)[0] == 'A');
        }
        assert(("Kraul"@) != ("Abyssal"@)) by {
            assert(("Kraul"@)[0] == 'K');
            assert(("Abyssal"@)[0] == 'A');
        }
        assert(("Kraul"@) != ("Aquan"@)) by {
            assert(("Kraul"@)[0] == 'K');
            assert(("Aquan"@)[0] == 'A');
        }
        assert(("Kraul"@) != ("Auran"@)) by {
            assert(("Kraul"@)[0] == 'K');
            assert(("Auran"@)[0] == 'A');
        }
        assert(("Kraul"@) != ("Celestial"@)) by {
            assert(("Kraul"@)[0] == 'K');
            assert(("Celestial"@)[0] == 'C');
        }
        assert(("Kraul"@) != ("Common"@)) by {
            assert(("Kraul"@)[0] == 'K');
            assert(("Common"@)[0] == 'C');
        }
        assert(("Kraul"@) != ("DeepSpeech"@)) by {
            assert(("Kraul"@)[0] == 'K');
            assert(("DeepSpeech"@)[0] == 'D');
        }
        assert(("Kraul"@) != ("Draconic"@)) by {
            assert(("Kraul"@)[0] == 'K');
            assert(("Draconic"@)[0] == 'D');
        }
        assert(("Kraul"@) != ("Dwarvish"@)) by {
            assert(("Kraul"@)[0] == 'K');
            assert(("Dwarvish"@)[0] == 'D');
        }
        assert(("Kraul"@) != ("Elvish"@)) by {
            assert(("Kraul"@)[0] == 'K');
            assert(("Elvish"@)[0] == 'E');
        }
        assert(("Kraul"@) != ("Ergot"@)) by {
            assert(("Kraul"@)[0] == 'K');
            assert(("Ergot"@)[0] == 'E');
        }
        assert(("Kraul"@) != ("Giant"@)) by {
            assert(("Kraul"@)[0] == 'K');
            assert(("Giant"@)[0] == 'G');
        }
        assert(("Kraul"@) != ("Gnomish"@)) by {
            assert(("Kraul"@)[0] == 'K');
            assert(("Gnomish"@)[0] == 'G');
        }
        assert(("Kraul"@) != ("Goblin"@)) by {
            assert(("Kraul"@)[0] == 'K');
            assert(("Goblin"@)[0] == 'G');
        }
        assert(("Kraul"@) != ("Hadozee"@)) by {
            assert(("Kraul"@)[0] == 'K');
            assert(("Hadozee"@)[0] == 'H');
        }
        assert(("Kraul"@) != ("Halfling"@)) by {
            assert(("Kraul"@)[0] == 'K');
            assert(("Halfling"@)[0] == 'H');
        }
        assert(("Kraul"@) != ("Ignan"@)) by {
            assert(("Kraul"@)[0] == 'K');
            assert(("Ignan"@)[0] == 'I');
        }
        assert(("Kraul"@) != ("Infernal"@)) by {
            assert(("Kraul"@)[0] == 'K');
            assert(("Infernal"@)[0] == 'I');
        }
        assert(("Kraul"@) != ("Istarian"@)) by {
            assert(("Kraul"@)[0] == 'K');
            assert(("Istarian"@)[0] == 'I');
        }
        assert(("Kraul"@) != ("Kenderspeak"@)) by {
            assert(("Kraul"@)[1] == 'r');
            assert(("Kenderspeak"@)[1] == 'e');
        }
        assert(("Kraul"@) != ("Kharolian"@)) by {
            assert(("Kraul"@)[1] == 'r');
            assert(("Kharolian"@)[1] == 'h');
        }
        assert(("Kraul"@) != ("Khur"@)) by {
            assert(("Kraul"@)[1] == 'r');
            assert(("Khur"@)[1] == 'h');
        }
        assert(("Kraul"@) != ("Kothian"@)) by {
            assert(("Kraul"@)[1] == 'r');
            assert(("Kothian"@)[1] == 'o');
        }
        assert(("Leonin"@) != ("Abanasinia"@)) by {
            assert(("Leonin"@)[0] == 'L');
            assert(("Abanasinia"@)[0] == 'A');
        }
        assert(("Leonin"@) != ("Abyssal"@)) by {
            assert(("Leonin"@)[0] == 'L');
            assert(("Abyssal"@)[0] == 'A');
        }
        assert(("Leonin"@) != ("Aquan"@)) by {
            assert(("Leonin"@)[0] == 'L');
            assert(("Aquan"@)[0] == 'A');
        }
        assert(("Leonin"@) != ("Auran"@)) by {
            assert(("Leonin"@)[0] == 'L');
            assert(("Auran"@)[0] == 'A');
        }
        assert(("Leonin"@) != ("Celestial"@)) by {
            assert(("Leonin"@)[0] == 'L');
            assert(("Celestial"@)[0] == 'C');
        }
        assert(("Leonin"@) != ("Common"@)) by {
            assert(("Leonin"@)[0] == 'L');
            assert(("Common"@)[0] == 'C');
        }
        assert(("Leonin"@) != ("DeepSpeech"@)) by {
            assert(("Leonin"@)[0] == 'L');
            assert(("DeepSpeech"@)[0] == 'D');
        }
        assert(("Leonin"@) != ("Draconic"@)) by {
            assert(("Leonin"@)[0] == 'L');
            assert(("Draconic"@)[0] == 'D');
        }
        assert(("Leonin"@) != ("Dwarvish"@)) by {
            assert(("Leonin"@)[0] == 'L');
            assert(("Dwarvish"@)[0] == 'D');
        }
        assert(("Leonin"@) != ("Elvish"@)) by {
            assert(("Leonin"@)[0] == 'L');
            assert(("Elvish"@)[0] == 'E');
        }
        assert(("Leonin"@) != ("Ergot"@)) by {
            assert(("Leonin"@)[0] == 'L');
            assert(("Ergot"@)[0] == 'E');
        }
        assert(("Leonin"@) != ("Giant"@)) by {
            assert(("Leonin"@)[0] == 'L');
            assert(("Giant"@)[0] == 'G');
        }
        assert(("Leonin"@) != ("Gnomish"@)) by {
            assert(("Leonin"@)[0] == 'L');
            assert(("Gnomish"@)[0] == 'G');
        }
        assert(("Leonin"@) != ("Goblin"@)) by {
            assert(("Leonin"@)[0] == 'L');
            assert(("Goblin"@)[0] == 'G');
        }
        assert(("Leonin"@) != ("Hadozee"@)) by {
            assert(("Leonin"@)[0] == 'L');
            assert(("Hadozee"@)[0] == 'H');
        }
        assert(("Leonin"@) != ("Halfling"@)) by {
            assert(("Leonin"@)[0] == 'L');
            assert(("Halfling"@)[0] == 'H');
        }
        assert(("Leonin"@) != ("Ignan"@)) by {
            assert(("Leonin"@)[0] == 'L');
            assert(("Ignan"@)[0] == 'I');
        }
        assert(("Leonin"@) != ("Infernal"@)) by {
            assert(("Leonin"@)[0] == 'L');
            assert(("Infernal"@)[0] == 'I');
        }
        assert(("Leonin"@) != ("Istarian"@)) by {
            assert(("Leonin"@)[0] == 'L');
            assert(("Istarian"@)[0] == 'I');
        }
        assert(("Leonin"@) != ("Kenderspeak"@)) by {
            assert(("Leonin"@)[0] == 'L');
            assert(("Kenderspeak"@)[0] == 'K');
        }
        assert(("Leonin"@) != ("Kharolian"@)) by {
            assert(("Leonin"@)[0] == 'L');
            assert(("Kharolian"@)[0] == 'K');
        }
        assert(("Leonin"@) != ("Khur"@)) by {
            assert(("Leonin"@)[0] == 'L');
            assert(("Khur"@)[0] == 'K');
        }
        assert(("Leonin"@) != ("Kothian"@)) by {
            assert(("Leonin"@)[0] == 'L');
            assert(("Kothian"@)[0] == 'K');
        }
        assert(("Leonin"@) != ("Kraul"@)) by {
            assert(("Leonin"@)[0] == 'L');
            assert(("Kraul"@)[0] == 'K');
        }
        assert(("Loxodon"@) != ("Abanasinia"@)) by {
            assert(("Loxodon"@)[0] == 'L');
            assert(("Abanasinia"@)[0] == 'A');
        }
        assert(("Loxodon"@) != ("Abyssal"@)) by {
            assert(("Loxodon"@)[0] == 'L');
            assert(("Abyssal"@)[0] == 'A');
        }
        assert(("Loxodon"@) != ("Aquan"@)) by {
            assert(("Loxodon"@)[0] == 'L');
            assert(("Aquan"@)[0] == 'A');
        }
        assert(("Loxodon"@) != ("Auran"@)) by {
            assert(("Loxodon"@)[0] == 'L');
            assert(("Auran"@)[0] == 'A');
        }
        assert(("Loxodon"@) != ("Celestial"@)) by {
            assert(("Loxodon"@)[0] == 'L');
            assert(("Celestial"@)[0] == 'C');
        }
        assert(("Loxodon"@) != ("Common"@)) by {
            assert(("Loxodon"@)[0] == 'L');
            assert(("Common"@)[0] == 'C');
        }
        assert(("Loxodon"@) != ("DeepSpeech"@)) by {
            assert(("Loxodon"@)[0] == 'L');
            assert(("DeepSpeech"@)[0] == 'D');
        }
        assert(("Loxodon"@) != ("Draconic"@)) by {
            assert(("Loxodon"@)[0] == 'L');
            assert(("Draconic"@)[0] == 'D');
        }
        assert(("Loxodon"@) != ("Dwarvish"@)) by {
            assert(("Loxodon"@)[0] == 'L');
            assert(("Dwarvish"@)[0] == 'D');
        }
        assert(("Loxodon"@) != ("Elvish"@)) by {
            assert(("Loxodon"@)[0] == 'L');
            assert(("Elvish"@)[0] == 'E');
        }
        assert(("Loxodon"@) != ("Ergot"@)) by {
            assert(("Loxodon"@)[0] == 'L');
            assert(("Ergot"@)[0] == 'E');
        }
        assert(("Loxodon"@) != ("Giant"@)) by {
            assert(("Loxodon"@)[0] == 'L');
            assert(("Giant"@)[0] == 'G');
        }
        assert(("Loxodon"@) != ("Gnomish"@)) by {
            assert(("Loxodon"@)[0] == 'L');
            assert(("Gnomish"@)[0] == 'G');
        }
        assert(("Loxodon"@) != ("Goblin"@)) by {
            assert(("Loxodon"@)[0] == 'L');
            assert(("Goblin"@)[0] == 'G');
        }
        assert(("Loxodon"@) != ("Hadozee"@)) by {
            assert(("Loxodon"@)[0] == 'L');
            assert(("Hadozee"@)[0] == 'H');
        }
        assert(("Loxodon"@) != ("Halfling"@)) by {
            assert(("Loxodon"@)[0] == 'L');
            assert(("Halfling"@)[0] == 'H');
        }
        assert(("Loxodon"@) != ("Ignan"@)) by {
            assert(("Loxodon"@)[0] == 'L');
            assert(("Ignan"@)[0] == 'I');
        }
        assert(("Loxodon"@) != ("Infernal"@)) by {
            assert(("Loxodon"@)[0] == 'L');
            assert(("Infernal"@)[0] == 'I');
        }
        assert(("Loxodon"@) != ("Istarian"@)) by {
            assert(("Loxodon"@)[0] == 'L');
            assert(("Istarian"@)[0] == 'I');
        }
        assert(("Loxodon"@) != ("Kenderspeak"@)) by {
            assert(("Loxodon"@)[0] == 'L');
            assert(("Kenderspeak"@)[0] == 'K');
        }
        assert(("Loxodon"@) != ("Kharolian"@)) by {
            assert(("Loxodon"@)[0] == 'L');
            assert(("Kharolian"@)[0] == 'K');
        }
        assert(("Loxodon"@) != ("Khur"@)) by {
            assert(("Loxodon"@)[0] == 'L');
            assert(("Khur"@)[0] == 'K');
        }
        assert(("Loxodon"@) != ("Kothian"@)) by {
            assert(("Loxodon"@)[0] == 'L');
            assert(("Kothian"@)[0] == 'K');
        }
        assert(("Loxodon"@) != ("Kraul"@)) by {
            assert(("Loxodon"@)[0] == 'L');
            assert(("Kraul"@)[0] == 'K');
        }
        assert(("Loxodon"@) != ("Leonin"@)) by {
            assert(("Loxodon"@)[1] == 'o');
            assert(("Leonin"@)[1] == 'e');
        }
        assert(("Marquesian"@) != ("Abanasinia"@)) by {
            assert(("Marquesian"@)[0] == 'M');
            assert(("Abanasinia"@)[0] == 'A');
        }
        assert(("Marquesian"@) != ("Abyssal"@)) by {
            assert(("Marquesian"@)[0] == 'M');
            assert(("Abyssal"@)[0] == 'A');
        }
        assert(("Marquesian"@) != ("Aquan"@)) by {
            assert(("Marquesian"@)[0] == 'M');
            assert(("Aquan"@)[0] == 'A');
        }
        assert(("Marquesian"@) != ("Auran"@)) by {
            assert(("Marquesian"@)[0] == 'M');
            assert(("Auran"@)[0] == 'A');
        }
        assert(("Marquesian"@) != ("Celestial"@)) by {
            assert(("Marquesian"@)[0] == 'M');
            assert(("Celestial"@)[0] == 'C');
        }
        assert(("Marquesian"@) != ("Common"@)) by {
            assert(("Marquesian"@)[0] == 'M');
            assert(("Common"@)[0] == 'C');
        }
        assert(("Marquesian"@) != ("DeepSpeech"@)) by {
            assert(("Marquesian"@)[0] == 'M');
            assert(("DeepSpeech"@)[0] == 'D');
        }
        assert(("Marquesian"@) != ("Draconic"@)) by {
            assert(("Marquesian"@)[0] == 'M');
            assert(("Draconic"@)[0] == 'D');
        }
        assert(("Marquesian"@) != ("Dwarvish"@)) by {
            assert(("Marquesian"@)[0] == 'M');
            assert(("Dwarvish"@)[0] == 'D');
        }
        assert(("Marquesian"@) != ("Elvish"@)) by {
            assert(("Marquesian"@)[0] == 'M');
            assert(("Elvish"@)[0] == 'E');
        }
        assert(("Marquesian"@) != ("Ergot"@)) by {
            assert(("Marquesian"@)[0] == 'M');
            assert(("Ergot"@)[0] == 'E');
        }
        assert(("Marquesian"@) != ("Giant"@)) by {
            assert(("Marquesian"@)[0] == 'M');
            assert(("Giant"@)[0] == 'G');
        }
        assert(("Marquesian"@) != ("Gnomish"@)) by {
            assert(("Marquesian"@)[0] == 'M');
            assert(("Gnomish"@)[0] == 'G');
        }
        assert(("Marquesian"@) != ("Goblin"@)) by {
            assert(("Marquesian"@)[0] == 'M');
            assert(("Goblin"@)[0] == 'G');
        }
        assert(("Marquesian"@) != ("Hadozee"@)) by {
            assert(("Marquesian"@)[0] == 'M');
            assert(("Hadozee"@)[0] == 'H');
        }
        assert(("Marquesian"@) != ("Halfling"@)) by {
            assert(("Marquesian"@)[0] == 'M');
            assert(("Halfling"@)[0] == 'H');
        }
        assert(("Marquesian"@) != ("Ignan"@)) by {
            assert(("Marquesian"@)[0] == 'M');
            assert(("Ignan"@)[0] == 'I');
        }
        assert(("Marquesian"@) != ("Infernal"@)) by {
            assert(("Marquesian"@)[0] == 'M');
            assert(("Infernal"@)[0] == 'I');
        }
        assert(("Marquesian"@) != ("Istarian"@)) by {
            assert(("Marquesian"@)[0] == 'M');
            assert(("Istarian"@)[0] == 'I');
        }
        assert(("Marquesian"@) != ("Kenderspeak"@)) by {
            assert(("Marquesian"@)[0] == 'M');
            assert(("Kenderspeak"@)[0] == 'K');
        }
        assert(("Marquesian"@) != ("Kharolian"@)) by {
            assert(("Marquesian"@)[0] == 'M');
            assert(("Kharolian"@)[0] == 'K');
        }
        assert(("Marquesian"@) != ("Khur"@)) by {
            assert(("Marquesian"@)[0] == 'M');
            assert(("Khur"@)[0] == 'K');
        }
        assert(("Marquesian"@) != ("Kothian"@)) by {
            assert(("Marquesian"@)[0] == 'M');
            assert(("Kothian"@)[0] == 'K');
        }
        assert(("Marquesian"@) != ("Kraul"@)) by {
            assert(("Marquesian"@)[0] == 'M');
            assert(("Kraul"@)[0] == 'K');
        }
        assert(("Marquesian"@) != ("Leonin"@)) by {
            assert(("Marquesian"@)[0] == 'M');
            assert(("Leonin"@)[0] == 'L');
        }
        assert(("Marquesian"@) != ("Loxodon"@)) by {
            assert(("Marquesian"@)[0] == 'M');
            assert(("Loxodon"@)[0] == 'L');
        }
        assert(("Merfolk"@) != ("Abanasinia"@)) by {
            assert(("Merfolk"@)[0] == 'M');
            assert(("Abanasinia"@)[0] == 'A');
        }
        assert(("Merfolk"@) != ("Abyssal"@)) by {
            assert(("Merfolk"@)[0] == 'M');
            assert(("Abyssal"@)[0] == 'A');
        }
        assert(("Merfolk"@) != ("Aquan"@)) by {
            assert(("Merfolk"@)[0] == 'M');
            assert(("Aquan"@)[0] == 'A');
        }
        assert(("Merfolk"@) != ("Auran"@)) by {
            assert(("Merfolk"@)[0] == 'M');
            assert(("Auran"@)[0] == 'A');
        }
        assert(("Merfolk"@) != ("Celestial"@)) by {
            assert(("Merfolk"@)[0] == 'M');
            assert(("Celestial"@)[0] == 'C');
        }
        assert(("Merfolk"@) != ("Common"@)) by {
            assert(("Merfolk"@)[0] == 'M');
            assert(("Common"@)[0] == 'C');
        }
        assert(("Merfolk"@) != ("DeepSpeech"@)) by {
            assert(("Merfolk"@)[0] == 'M');
            assert(("DeepSpeech"@)[0] == 'D');
        }
        assert(("Merfolk"@) != ("Draconic"@)) by {
            assert(("Merfolk"@)[0] == 'M');
            assert(("Draconic"@)[0] == 'D');
        }
        assert(("Merfolk"@) != ("Dwarvish"@)) by {
            assert(("Merfolk"@)[0] == 'M');
            assert(("Dwarvish"@)[0] == 'D');
        }
        assert(("Merfolk"@) != ("Elvish"@)) by {
            assert(("Merfolk"@)[0] == 'M');
            assert(("Elvish"@)[0] == 'E');
        }
        assert(("Merfolk"@) != ("Ergot"@)) by {
            assert(("Merfolk"@)[0] == 'M');
            assert(("Ergot"@)[0] == 'E');
        }
        assert(("Merfolk"@) != ("Giant"@)) by {
            assert(("Merfolk"@)[0] == 'M');
            assert(("Giant"@)[0] == 'G');
        }
        assert(("Merfolk"@) != ("Gnomish"@)) by {
            assert(("Merfolk"@)[0] == 'M');
            assert(("Gnomish"@)[0] == 'G');
        }
        assert(("Merfolk"@) != ("Goblin"@)) by {
            assert(("Merfolk"@)[0] == 'M');
            assert(("Goblin"@)[0] == 'G');
        }
        assert(("Merfolk"@) != ("Hadozee"@)) by {
            assert(("Merfolk"@)[0] == 'M');
            assert(("Hadozee"@)[0] == 'H');
        }
        assert(("Merfolk"@) != ("Halfling"@)) by {
            assert(("Merfolk"@)[0] == 'M');
            assert(("Halfling"@)[0] == 'H');
        }
        assert(("Merfolk"@) != ("Ignan"@)) by {
            assert(("Merfolk"@)[0] == 'M');
            assert(("Ignan"@)[0] == 'I');
        }
        assert(("Merfolk"@) != ("Infernal"@)) by {
            assert(("Merfolk"@)[0] == 'M');
            assert(("Infernal"@)[0] == 'I');
        }
        assert(("Merfolk"@) != ("Istarian"@)) by {
            assert(("Merfolk"@)[0] == 'M');
            assert(("Istarian"@)[0] == 'I');
        }
        assert(("Merfolk"@) != ("Kenderspeak"@)) by {
            assert(("Merfolk"@)[0] == 'M');
            assert(("Kenderspeak"@)[0] == 'K');
        }
        assert(("Merfolk"@) != ("Kharolian"@)) by {
            assert(("Merfolk"@)[0] == 'M');
            assert(("Kharolian"@)[0] == 'K');
        }
        assert(("Merfolk"@) != ("Khur"@)) by {
            assert(("Merfolk"@)[0] == 'M');
            assert(("Khur"@)[0] == 'K');
        }
        assert(("Merfolk"@) != ("Kothian"@)) by {
            assert(("Merfolk"@)[0] == 'M');
            assert(("Kothian"@)[0] == 'K');
        }
        assert(("Merfolk"@) != ("Kraul"@)) by {
            assert(("Merfolk"@)[0] == 'M');
            assert(("Kraul"@)[0] == 'K');
        }
        assert(("Merfolk"@) != ("Leonin"@)) by {
            assert(("Merfolk"@)[0] == 'M');
            assert(("Leonin"@)[0] == 'L');
        }
        assert(("Merfolk"@) != ("Loxodon"@)) by {
            assert(("Merfolk"@)[0] == 'M');
            assert(("Loxodon"@)[0] == 'L');
        }
        assert(("Merfolk"@) != ("Marquesian"@)) by {
            assert(("Merfolk"@)[1] == 'e');
            assert(("Marquesian"@)[1] == 'a');
        }
        assert(("Minotaur"@) != ("Abanasinia"@)) by {
            assert(("Minotaur"@)[0] == 'M');
            assert(("Abanasinia"@)[0] == 'A');
        }
        assert(("Minotaur"@) != ("Abyssal"@)) by {
            assert(("Minotaur"@)[0] == 'M');
            assert(("Abyssal"@)[0] == 'A');
        }
        assert(("Minotaur"@) != ("Aquan"@)) by {
            assert(("Minotaur"@)[0] == 'M');
            assert(("Aquan"@)[0] == 'A');
        }
        assert(("Minotaur"@) != ("Auran"@)) by {
            assert(("Minotaur"@)[0] == 'M');
            assert(("Auran"@)[0] == 'A');
        }
        assert(("Minotaur"@) != ("Celestial"@)) by {
            assert(("Minotaur"@)[0] == 'M');
            assert(("Celestial"@)[0] == 'C');
        }
        assert(("Minotaur"@) != ("Common"@)) by {
            assert(("Minotaur"@)[0] == 'M');
            assert(("Common"@)[0] == 'C');
        }
        assert(("Minotaur"@) != ("DeepSpeech"@)) by {
            assert(("Minotaur"@)[0] == 'M');
            assert(("DeepSpeech"@)[0] == 'D');
        }
        assert(("Minotaur"@) != ("Draconic"@)) by {
            assert(("Minotaur"@)[0] == 'M');
            assert(("Draconic"@)[0] == 'D');
        }
        assert(("Minotaur"@) != ("Dwarvish"@)) by {
            assert(("Minotaur"@)[0] == 'M');
            assert(("Dwarvish"@)[0] == 'D');
        }
        assert(("Minotaur"@) != ("Elvish"@)) by {
            assert(("Minotaur"@)[0] == 'M');
            assert(("Elvish"@)[0] == 'E');
        }
        assert(("Minotaur"@) != ("Ergot"@)) by {
            assert(("Minotaur"@)[0] == 'M');
            assert(("Ergot"@)[0] == 'E');
        }
        assert(("Minotaur"@) != ("Giant"@)) by {
            assert(("Minotaur"@)[0] == 'M');
            assert(("Giant"@)[0] == 'G');
        }
        assert(("Minotaur"@) != ("Gnomish"@)) by {
            assert(("Minotaur"@)[0] == 'M');
            assert(("Gnomish"@)[0] == 'G');
        }
        assert(("Minotaur"@) != ("Goblin"@)) by {
            assert(("Minotaur"@)[0] == 'M');
            assert(("Goblin"@)[0] == 'G');
        }
        assert(("Minotaur"@) != ("Hadozee"@)) by {
            assert(("Minotaur"@)[0] == 'M');
            assert(("Hadozee"@)[0] == 'H');
        }
        assert(("Minotaur"@) != ("Halfling"@)) by {
            assert(("Minotaur"@)[0] == 'M');
            assert(("Halfling"@)[0] == 'H');
        }
        assert(("Minotaur"@) != ("Ignan"@)) by {
            assert(("Minotaur"@)[0] == 'M');
            assert(("Ignan"@)[0] == 'I');
        }
        assert(("Minotaur"@) != ("Infernal"@)) by {
            assert(("Minotaur"@)[0] == 'M');
            assert(("Infernal"@)[0] == 'I');
        }
        assert(("Minotaur"@) != ("Istarian"@)) by {
            assert(("Minotaur"@)[0] == 'M');
            assert(("Istarian"@)[0] == 'I');
        }
        assert(("Minotaur"@) != ("Kenderspeak"@)) by {
            assert(("Minotaur"@)[0] == 'M');
            assert(("Kenderspeak"@)[0] == 'K');
        }
        assert(("Minotaur"@) != ("Kharolian"@)) by {
            assert(("Minotaur"@)[0] == 'M');
            assert(("Kharolian"@)[0] == 'K');
        }
        assert(("Minotaur"@) != ("Khur"@)) by {
            assert(("Minotaur"@)[0] == 'M');
            assert(("Khur"@)[0] == 'K');
        }
        assert(("Minotaur"@) != ("Kothian"@)) by {
            assert(("Minotaur"@)[0] == 'M');
            assert(("Kothian"@)[0] == 'K');
        }
        assert(("Minotaur"@) != ("Kraul"@)) by {
            assert(("Minotaur"@)[0] == 'M');
            assert(("Kraul"@)[0] == 'K');
        }
        assert(("Minotaur"@) != ("Leonin"@)) by {
            assert(("Minotaur"@)[0] == 'M');
            assert(("Leonin"@)[0] == 'L');
        }
        assert(("Minotaur"@) != ("Loxodon"@)) by {
            assert(("Minotaur"@)[0] == 'M');
            assert(("Loxodon"@)[0] == 'L');
        }
        assert(("Minotaur"@) != ("Marquesian"@)) by {
            assert(("Minotaur"@)[1] == 'i');
            assert(("Marquesian"@)[1] == 'a');
        }
        assert(("Minotaur"@) != ("Merfolk"@)) by {
            assert(("Minotaur"@)[1] == 'i');
            assert(("Merfolk"@)[1] == 'e');
        }
        assert(("Naush"@) != ("Abanasinia"@)) by {
            assert(("Naush"@)[0] == 'N');
            assert(("Abanasinia"@)[0] == 'A');
        }
        assert(("Naush"@) != ("Abyssal"@)) by {
            assert(("Naush"@)[0] == 'N');
            assert(("Abyssal"@)[0] == 'A');
        }
        assert(("Naush"@) != ("Aquan"@)) by {
            assert(("Naush"@)[0] == 'N');
            assert(("Aquan"@)[0] == 'A');
        }
        assert(("Naush"@) != ("Auran"@)) by {
            assert(("Naush"@)[0] == 'N');
            assert(("Auran"@)[0] == 'A');
        }
        assert(("Naush"@) != ("Celestial"@)) by {
            assert(("Naush"@)[0] == 'N');
            assert(("Celestial"@)[0] == 'C');
        }
        assert(("Naush"@) != ("Common"@)) by {
            assert(("Naush"@)[0] == 'N');
            assert(("Common"@)[0] == 'C');
        }
        assert(("Naush"@) != ("DeepSpeech"@)) by {
            assert(("Naush"@)[0] == 'N');
            assert(("DeepSpeech"@)[0] == 'D');
        }
        assert(("Naush"@) != ("Draconic"@)) by {
            assert(("Naush"@)[0] == 'N');
            assert(("Draconic"@)[0] == 'D');
        }
        assert(("Naush"@) != ("Dwarvish"@)) by {
            assert(("Naush"@)[0] == 'N');
            assert(("Dwarvish"@)[0] == 'D');
        }
        assert(("Naush"@) != ("Elvish"@)) by {
            assert(("Naush"@)[0] == 'N');
            assert(("Elvish"@)[0] == 'E');
        }
        assert(("Naush"@) != ("Ergot"@)) by {
            assert(("Naush"@)[0] == 'N');
            assert(("Ergot"@)[0] == 'E');
        }
        assert(("Naush"@) != ("Giant"@)) by {
            assert(("Naush"@)[0] == 'N');
            assert(("Giant"@)[0] == 'G');
        }
        assert(("Naush"@) != ("Gnomish"@)) by {
            assert(("Naush"@)[0] == 'N');
            assert(("Gnomish"@)[0] == 'G');
        }
        assert(("Naush"@) != ("Goblin"@)) by {
            assert(("Naush"@)[0] == 'N');
            assert(("Goblin"@)[0] == 'G');
        }
        assert(("Naush"@) != ("Hadozee"@)) by {
            assert(("Naush"@)[0] == 'N');
            assert(("Hadozee"@)[0] == 'H');
        }
        assert(("Naush"@) != ("Halfling"@)) by {
            assert(("Naush"@)[0] == 'N');
            assert(("Halfling"@)[0] == 'H');
        }
        assert(("Naush"@) != ("Ignan"@)) by {
            assert(("Naush"@)[0] == 'N');
            assert(("Ignan"@)[0] == 'I');
        }
        assert(("Naush"@) != ("Infernal"@)) by {
            assert(("Naush"@)[0] == 'N');
            assert(("Infernal"@)[0] == 'I');
        }
        assert(("Naush"@) != ("Istarian"@)) by {
            assert(("Naush"@)[0] == 'N');
            assert(("Istarian"@)[0] == 'I');
        }
        assert(("Naush"@) != ("Kenderspeak"@)) by {
            assert(("Naush"@)[0] == 'N');
            assert(("Kenderspeak"@)[0] == 'K');
        }
        assert(("Naush"@) != ("Kharolian"@)) by {
            assert(("Naush"@)[0] == 'N');
            assert(("Kharolian"@)[0] == 'K');
        }
        assert(("Naush"@) != ("Khur"@)) by {
            assert(("Naush"@)[0] == 'N');
            assert(("Khur"@)[0] == 'K');
        }
        assert(("Naush"@) != ("Kothian"@)) by {
            assert(("Naush"@)[0] == 'N');
            assert(("Kothian"@)[0] == 'K');
        }
        assert(("Naush"@) != ("Kraul"@)) by {
            assert(("Naush"@)[0] == 'N');
            assert(("Kraul"@)[0] == 'K');
        }
        assert(("Naush"@) != ("Leonin"@)) by {
            assert(("Naush"@)[0] == 'N');
            assert(("Leonin"@)[0] == 'L');
        }
        assert(("Naush"@) != ("Loxodon"@)) by {
            assert(("Naush"@)[0] == 'N');
            assert(("Loxodon"@)[0] == 'L');
        }
        assert(("Naush"@) != ("Marquesian"@)) by {
            assert(("Naush"@)[0] == 'N');
            assert(("Marquesian"@)[0] == 'M');
        }
        assert(("Naush"@) != ("Merfolk"@)) by {
            assert(("Naush"@)[0] == 'N');
            assert(("Merfolk"@)[0] == 'M');
        }
        assert(("Naush"@) != ("Minotaur"@)) by {
            assert(("Naush"@)[0] == 'N');
            assert(("Minotaur"@)[0] == 'M');
        }
        assert(("Narakese"@) != ("Abanasinia"@)) by {
            assert(("Narakese"@)[0] == 'N');
            assert(("Abanasinia"@)[0] == 'A');
        }
        assert(("Narakese"@) != ("Abyssal"@)) by {
            assert(("Narakese"@)[0] == 'N');
            assert(("Abyssal"@)[0] == 'A');
        }
        assert(("Narakese"@) != ("Aquan"@)) by {
            assert(("Narakese"@)[0] == 'N');
            assert(("Aquan"@)[0] == 'A');
        }
        assert(("Narakese"@) != ("Auran"@)) by {
            assert(("Narakese"@)[0] == 'N');
            assert(("Auran"@)[0] == 'A');
        }
        assert(("Narakese"@) != ("Celestial"@)) by {
            assert(("Narakese"@)[0] == 'N');
            assert(("Celestial"@)[0] == 'C');
        }
        assert(("Narakese"@) != ("Common"@)) by {
            assert(("Narakese"@)[0] == 'N');
            assert(("Common"@)[0] == 'C');
        }
        assert(("Narakese"@) != ("DeepSpeech"@)) by {
            assert(("Narakese"@)[0] == 'N');
            assert(("DeepSpeech"@)[0] == 'D');
        }
        assert(("Narakese"@) != ("Draconic"@)) by {
            assert(("Narakese"@)[0] == 'N');
            assert(("Draconic"@)[0] == 'D');
        }
        assert(("Narakese"@) != ("Dwarvish"@)) by {
            assert(("Narakese"@)[0] == 'N');
            assert(("Dwarvish"@)[0] == 'D');
        }
        assert(("Narakese"@) != ("Elvish"@)) by {
            assert(("Narakese"@)[0] == 'N');
            assert(("Elvish"@)[0] == 'E');
        }
        assert(("Narakese"@) != ("Ergot"@)) by {
            assert(("Narakese"@)[0] == 'N');
            assert(("Ergot"@)[0] == 'E');
        }
        assert(("Narakese"@) != ("Giant"@)) by {
            assert(("Narakese"@)[0] == 'N');
            assert(("Giant"@)[0] == 'G');
        }
        assert(("Narakese"@) != ("Gnomish"@)) by {
            assert(("Narakese"@)[0] == 'N');
            assert(("Gnomish"@)[0] == 'G');
        }
        assert(("Narakese"@) != ("Goblin"@)) by {
            assert(("Narakese"@)[0] == 'N');
            assert(("Goblin"@)[0] == 'G');
        }
        assert(("Narakese"@) != ("Hadozee"@)) by {
            assert(("Narakese"@)[0] == 'N');
            assert(("Hadozee"@)[0] == 'H');
        }
        assert(("Narakese"@) != ("Halfling"@)) by {
            assert(("Narakese"@)[0] == 'N');
            assert(("Halfling"@)[0] == 'H');
        }
        assert(("Narakese"@) != ("Ignan"@)) by {
            assert(("Narakese"@)[0] == 'N');
            assert(("Ignan"@)[0] == 'I');
        }
        assert(("Narakese"@) != ("Infernal"@)) by {
            assert(("Narakese"@)[0] == 'N');
            assert(("Infernal"@)[0] == 'I');
        }
        assert(("Narakese"@) != ("Istarian"@)) by {
            assert(("Narakese"@)[0] == 'N');
            assert(("Istarian"@)[0] == 'I');
        }
        assert(("Narakese"@) != ("Kenderspeak"@)) by {
            assert(("Narakese"@)[0] == 'N');
            assert(("Kenderspeak"@)[0] == 'K');
        }
        assert(("Narakese"@) != ("Kharolian"@)) by {
            assert(("Narakese"@)[0] == 'N');
            assert(("Kharolian"@)[0] == 'K');
        }
        assert(("Narakese"@) != ("Khur"@)) by {
            assert(("Narakese"@)[0] == 'N');
            assert(("Khur"@)[0] == 'K');
        }
        assert(("Narakese"@) != ("Kothian"@)) by {
            assert(("Narakese"@)[0] == 'N');
            assert(("Kothian"@)[0] == 'K');
        }
        assert(("Narakese"@) != ("Kraul"@)) by {
            assert(("Narakese"@)[0] == 'N');
            assert(("Kraul"@)[0] == 'K');
        }
        assert(("Narakese"@) != ("Leonin"@)) by {
            assert(("Narakese"@)[0] == 'N');
            assert(("Leonin"@)[0] == 'L');
        }
        assert(("Narakese"@) != ("Loxodon"@)) by {
            assert(("Narakese"@)[0] == 'N');
            assert(("Loxodon"@)[0] == 'L');
        }
        assert(("Narakese"@) != ("Marquesian"@)) by {
            assert(("Narakese"@)[0] == 'N');
            assert(("Marquesian"@)[0] == 'M');
        }
        assert(("Narakese"@) != ("Merfolk"@)) by {
            assert(("Narakese"@)[0] == 'N');
            assert(("Merfolk"@)[0] == 'M');
        }
        assert(("Narakese"@) != ("Minotaur"@)) by {
            assert(("Narakese"@)[0] == 'N');
            assert(("Minotaur"@)[0] == 'M');
        }
        assert(("Narakese"@) != ("Naush"@)) by {
            assert(("Narakese"@)[2] == 'r');
            assert(("Naush"@)[2] == 'u');
        }
        assert(("Nordmaarian"@) != ("Abanasinia"@)) by {
            assert(("Nordmaarian"@)[0] == 'N');
            assert(("Abanasinia"@)[0] == 'A');
        }
        assert(("Nordmaarian"@) != ("Abyssal"@)) by {
            assert(("Nordmaarian"@)[0] == 'N');
            assert(("Abyssal"@)[0] == 'A');
        }
        assert(("Nordmaarian"@) != ("Aquan"@)) by {
            assert(("Nordmaarian"@)[0] == 'N');
            assert(("Aquan"@)[0] == 'A');
        }
        assert(("Nordmaarian"@) != ("Auran"@)) by {
            assert(("Nordmaarian"@)[0] == 'N');
            assert(("Auran"@)[0] == 'A');
        }
        assert(("Nordmaarian"@) != ("Celestial"@)) by {
            assert(("Nordmaarian"@)[0] == 'N');
            assert(("Celestial"@)[0] == 'C');
        }
        assert(("Nordmaarian"@) != ("Common"@)) by {
            assert(("Nordmaarian"@)[0] == 'N');
            assert(("Common"@)[0] == 'C');
        }
        assert(("Nordmaarian"@) != ("DeepSpeech"@)) by {
            assert(("Nordmaarian"@)[0] == 'N');
            assert(("DeepSpeech"@)[0] == 'D');
        }
        assert(("Nordmaarian"@) != ("Draconic"@)) by {
            assert(("Nordmaarian"@)[0] == 'N');
            assert(("Draconic"@)[0] == 'D');
        }
        assert(("Nordmaarian"@) != ("Dwarvish"@)) by {
            assert(("Nordmaarian"@)[0] == 'N');
            assert(("Dwarvish"@)[0] == 'D');
        }
        assert(("Nordmaarian"@) != ("Elvish"@)) by {
            assert(("Nordmaarian"@)[0] == 'N');
            assert(("Elvish"@)[0] == 'E');
        }
        assert(("Nordmaarian"@) != ("Ergot"@)) by {
            assert(("Nordmaarian"@)[0] == 'N');
            assert(("Ergot"@)[0] == 'E');
        }
        assert(("Nordmaarian"@) != ("Giant"@)) by {
            assert(("Nordmaarian"@)[0] == 'N');
            assert(("Giant"@)[0] == 'G');
        }
        assert(("Nordmaarian"@) != ("Gnomish"@)) by {
            assert(("Nordmaarian"@)[0] == 'N');
            assert(("Gnomish"@)[0] == 'G');
        }
        assert(("Nordmaarian"@) != ("Goblin"@)) by {
            assert(("Nordmaarian"@)[0] == 'N');
            assert(("Goblin"@)[0] == 'G');
        }
        assert(("Nordmaarian"@) != ("Hadozee"@)) by {
            assert(("Nordmaarian"@)[0] == 'N');
            assert(("Hadozee"@)[0] == 'H');
        }
        assert(("Nordmaarian"@) != ("Halfling"@)) by {
            assert(("Nordmaarian"@)[0] == 'N');
            assert(("Halfling"@)[0] == 'H');
        }
        assert(("Nordmaarian"@) != ("Ignan"@)) by {
            assert(("Nordmaarian"@)[0] == 'N');
            assert(("Ignan"@)[0] == 'I');
        }
        assert(("Nordmaarian"@) != ("Infernal"@)) by {
            assert(("Nordmaarian"@)[0] == 'N');
            assert(("Infernal"@)[0] == 'I');
        }
        assert(("Nordmaarian"@) != ("Istarian"@)) by {
            assert(("Nordmaarian"@)[0] == 'N');
            assert(("Istarian"@)[0] == 'I');
        }
        assert(("Nordmaarian"@) != ("Kenderspeak"@)) by {
            assert(("Nordmaarian"@)[0] == 'N');
            assert(("Kenderspeak"@)[0] == 'K');
        }
        assert(("Nordmaarian"@) != ("Kharolian"@)) by {
            assert(("Nordmaarian"@)[0] == 'N');
            assert(("Kharolian"@)[0] == 'K');
        }
        assert(("Nordmaarian"@) != ("Khur"@)) by {
            assert(("Nordmaarian"@)[0] == 'N');
            assert(("Khur"@)[0] == 'K');
        }
        assert(("Nordmaarian"@) != ("Kothian"@)) by {
            assert(("Nordmaarian"@)[0] == 'N');
            assert(("Kothian"@)[0] == 'K');
        }
        assert(("Nordmaarian"@) != ("Kraul"@)) by {
            assert(("Nordmaarian"@)[0] == 'N');
            assert(("Kraul"@)[0] == 'K');
        }
        assert(("Nordmaarian"@) != ("Leonin"@)) by {
            assert(("Nordmaarian"@)[0] == 'N');
            assert(("Leonin"@)[0] == 'L');
        }
        assert(("Nordmaarian"@) != ("Loxodon"@)) by {
            assert(("Nordmaarian"@)[0] == 'N');
            assert(("Loxodon"@)[0] == 'L');
        }
        assert(("Nordmaarian"@) != ("Marquesian"@)) by {
            assert(("Nordmaarian"@)[0] == 'N');
            assert(("Marquesian"@)[0] == 'M');
        }
        assert(("Nordmaarian"@) != ("Merfolk"@)) by {
            assert(("Nordmaarian"@)[0] == 'N');
            assert(("Merfolk"@)[0] == 'M');
        }
        assert(("Nordmaarian"@) != ("Minotaur"@)) by {
            assert(("Nordmaarian"@)[0] == 'N');
            assert(("Minotaur"@)[0] == 'M');
        }
        assert(("Nordmaarian"@) != ("Naush"@)) by {
            assert(("Nordmaarian"@)[1] == 'o');
            assert(("Naush"@)[1] == 'a');
        }
        assert(("Nordmaarian"@) != ("Narakese"@)) by {
            assert(("Nordmaarian"@)[1] == 'o');
            assert(("Narakese"@)[1] == 'a');
        }
        assert(("Orc"@) != ("Abanasinia"@)) by {
            assert(("Orc"@)[0] == 'O');
            assert(("Abanasinia"@)[0] == 'A');
        }
        assert(("Orc"@) != ("Abyssal"@)) by {
            assert(("Orc"@)[0] == 'O');
            assert(("Abyssal"@)[0] == 'A');
        }
        assert(("Orc"@) != ("Aquan"@)) by {
            assert(("Orc"@)[0] == 'O');
            assert(("Aquan"@)[0] == 'A');
        }
        assert(("Orc"@) != ("Auran"@)) by {
            assert(("Orc"@)[0] == 'O');
            assert(("Auran"@)[0] == 'A');
        }
        assert(("Orc"@) != ("Celestial"@)) by {
            assert(("Orc"@)[0] == 'O');
            assert(("Celestial"@)[0] == 'C');
        }
        assert(("Orc"@) != ("Common"@)) by {
            assert(("Orc"@)[0] == 'O');
            assert(("Common"@)[0] == 'C');
        }
        assert(("Orc"@) != ("DeepSpeech"@)) by {
            assert(("Orc"@)[0] == 'O');
            assert(("DeepSpeech"@)[0] == 'D');
        }
        assert(("Orc"@) != ("Draconic"@)) by {
            assert(("Orc"@)[0] == 'O');
            assert(("Draconic"@)[0] == 'D');
        }
        assert(("Orc"@) != ("Dwarvish"@)) by {
            assert(("Orc"@)[0] == 'O');
            assert(("Dwarvish"@)[0] == 'D');
        }
        assert(("Orc"@) != ("Elvish"@)) by {
            assert(("Orc"@)[0] == 'O');
            assert(("Elvish"@)[0] == 'E');
        }
        assert(("Orc"@) != ("Ergot"@)) by {
            assert(("Orc"@)[0] == 'O');
            assert(("Ergot"@)[0] == 'E');
        }
        assert(("Orc"@) != ("Giant"@)) by {
            assert(("Orc"@)[0] == 'O');
            assert(("Giant"@)[0] == 'G');
        }
        assert(("Orc"@) != ("Gnomish"@)) by {
            assert(("Orc"@)[0] == 'O');
            assert(("Gnomish"@)[0] == 'G');
        }
        assert(("Orc"@) != ("Goblin"@)) by {
            assert(("Orc"@)[0] == 'O');
            assert(("Goblin"@)[0] == 'G');
        }
        assert(("Orc"@) != ("Hadozee"@)) by {
            assert(("Orc"@)[0] == 'O');
            assert(("Hadozee"@)[0] == 'H');
        }
        assert(("Orc"@) != ("Halfling"@)) by {
            assert(("Orc"@)[0] == 'O');
            assert(("Halfling"@)[0] == 'H');
        }
        assert(("Orc"@) != ("Ignan"@)) by {
            assert(("Orc"@)[0] == 'O');
            assert(("Ignan"@)[0] == 'I');
        }
        assert(("Orc"@) != ("Infernal"@)) by {
            assert(("Orc"@)[0] == 'O');
            assert(("Infernal"@)[0] == 'I');
        }
        assert(("Orc"@) != ("Istarian"@)) by {
            assert(("Orc"@)[0] == 'O');
            assert(("Istarian"@)[0] == 'I');
        }
        assert(("Orc"@) != ("Kenderspeak"@)) by {
            assert(("Orc"@)[0] == 'O');
            assert(("Kenderspeak"@)[0] == 'K');
        }
        assert(("Orc"@) != ("Kharolian"@)) by {
            assert(("Orc"@)[0] == 'O');
            assert(("Kharolian"@)[0] == 'K');
        }
        assert(("Orc"@) != ("Khur"@)) by {
            assert(("Orc"@)[0] == 'O');
            assert(("Khur"@)[0] == 'K');
        }
        assert(("Orc"@) != ("Kothian"@)) by {
            assert(("Orc"@)[0] == 'O');
            assert(("Kothian"@)[0] == 'K');
        }
        assert(("Orc"@) != ("Kraul"@)) by {
            assert(("Orc"@)[0] == 'O');
            assert(("Kraul"@)[0] == 'K');
        }
        assert(("Orc"@) != ("Leonin"@)) by {
            assert(("Orc"@)[0] == 'O');
            assert(("Leonin"@)[0] == 'L');
        }
        assert(("Orc"@) != ("Loxodon"@)) by {
            assert(("Orc"@)[0] == 'O');
            assert(("Loxodon"@)[0] == 'L');
        }
        assert(("Orc"@) != ("Marquesian"@)) by {
            assert(("Orc"@)[0] == 'O');
            assert(("Marquesian"@)[0] == 'M');
        }
        assert(("Orc"@) != ("Merfolk"@)) by {
            assert(("Orc"@)[0] == 'O');
            assert(("Merfolk"@)[0] == 'M');
        }
        assert(("Orc"@) != ("Minotaur"@)) by {
            assert(("Orc"@)[0] == 'O');
            assert(("Minotaur"@)[0] == 'M');
        }
        assert(("Orc"@) != ("Naush"@)) by {
            assert(("Orc"@)[0] == 'O');
            assert(("Naush"@)[0] == 'N');
        }
        assert(("Orc"@) != ("Narakese"@)) by {
            assert(("Orc"@)[0] == 'O');
            assert(("Narakese"@)[0] == 'N');
        }
        assert(("Orc"@) != ("Nordmaarian"@)) by {
            assert(("Orc"@)[0] == 'O');
            assert(("Nordmaarian"@)[0] == 'N');
        }
        assert(("Primordial"@) != ("Abanasinia"@)) by {
            assert(("Primordial"@)[0] == 'P');
            assert(("Abanasinia"@)[0] == 'A');
        }
        assert(("Primordial"@) != ("Abyssal"@)) by {
            assert(("Primordial"@)[0] == 'P');
            assert(("Abyssal"@)[0] == 'A');
        }
        assert(("Primordial"@) != ("Aquan"@)) by {
            assert(("Primordial"@)[0] == 'P');
            assert(("Aquan"@)[0] == 'A');
        }
        assert(("Primordial"@) != ("Auran"@)) by {
            assert(("Primordial"@)[0] == 'P');
            assert(("Auran"@)[0] == 'A');
        }
        assert(("Primordial"@) != ("Celestial"@)) by {
            assert(("Primordial"@)[0] == 'P');
            assert(("Celestial"@)[0] == 'C');
        }
        assert(("Primordial"@) != ("Common"@)) by {
            assert(("Primordial"@)[0] == 'P');
            assert(("Common"@)[0] == 'C');
        }
        assert(("Primordial"@) != ("DeepSpeech"@)) by {
            assert(("Primordial"@)[0] == 'P');
            assert(("DeepSpeech"@)[0] == 'D');
        }
        assert(("Primordial"@) != ("Draconic"@)) by {
            assert(("Primordial"@)[0] == 'P');
            assert(("Draconic"@)[0] == 'D');
        }
        assert(("Primordial"@) != ("Dwarvish"@)) by {
            assert(("Primordial"@)[0] == 'P');
            assert(("Dwarvish"@)[0] == 'D');
        }
        assert(("Primordial"@) != ("Elvish"@)) by {
            assert(("Primordial"@)[0] == 'P');
            assert(("Elvish"@)[0] == 'E');
        }
        assert(("Primordial"@) != ("Ergot"@)) by {
            assert(("Primordial"@)[0] == 'P');
            assert(("Ergot"@)[0] == 'E');
        }
        assert(("Primordial"@) != ("Giant"@)) by {
            assert(("Primordial"@)[0] == 'P');
            assert(("Giant"@)[0] == 'G');
        }
        assert(("Primordial"@) != ("Gnomish"@)) by {
            assert(("Primordial"@)[0] == 'P');
            assert(("Gnomish"@)[0] == 'G');
        }
        assert(("Primordial"@) != ("Goblin"@)) by {
            assert(("Primordial"@)[0] == 'P');
            assert(("Goblin"@)[0] == 'G');
        }
        assert(("Primordial"@) != ("Hadozee"@)) by {
            assert(("Primordial"@)[0] == 'P');
            assert(("Hadozee"@)[0] == 'H');
        }
        assert(("Primordial"@) != ("Halfling"@)) by {
            assert(("Primordial"@)[0] == 'P');
            assert(("Halfling"@)[0] == 'H');
        }
        assert(("Primordial"@) != ("Ignan"@)) by {
            assert(("Primordial"@)[0] == 'P');
            assert(("Ignan"@)[0] == 'I');
        }
        assert(("Primordial"@) != ("Infernal"@)) by {
            assert(("Primordial"@)[0] == 'P');
            assert(("Infernal"@)[0] == 'I');
        }
        assert(("Primordial"@) != ("Istarian"@)) by {
            assert(("Primordial"@)[0] == 'P');
            assert(("Istarian"@)[0] == 'I');
        }
        assert(("Primordial"@) != ("Kenderspeak"@)) by {
            assert(("Primordial"@)[0] == 'P');
            assert(("Kenderspeak"@)[0] == 'K');
        }
        assert(("Primordial"@) != ("Kharolian"@)) by {
            assert(("Primordial"@)[0] == 'P');
            assert(("Kharolian"@)[0] == 'K');
        }
        assert(("Primordial"@) != ("Khur"@)) by {
            assert(("Primordial"@)[0] == 'P');
            assert(("Khur"@)[0] == 'K');
        }
        assert(("Primordial"@) != ("Kothian"@)) by {
            assert(("Primordial"@)[0] == 'P');
            assert(("Kothian"@)[0] == 'K');
        }
        assert(("Primordial"@) != ("Kraul"@)) by {
            assert(("Primordial"@)[0] == 'P');
            assert(("Kraul"@)[0] == 'K');
        }
        assert(("Primordial"@) != ("Leonin"@)) by {
            assert(("Primordial"@)[0] == 'P');
            assert(("Leonin"@)[0] == 'L');
        }
        assert(("Primordial"@) != ("Loxodon"@)) by {
            assert(("Primordial"@)[0] == 'P');
            assert(("Loxodon"@)[0] == 'L');
        }
        assert(("Primordial"@) != ("Marquesian"@)) by {
            assert(("Primordial"@)[0] == 'P');
            assert(("Marquesian"@)[0] == 'M');
        }
        assert(("Primordial"@) != ("Merfolk"@)) by {
            assert(("Primordial"@)[0] == 'P');
            assert(("Merfolk"@)[0] == 'M');
        }
        assert(("Primordial"@) != ("Minotaur"@)) by {
            assert(("Primordial"@)[0] == 'P');
            assert(("Minotaur"@)[0] == 'M');
        }
        assert(("Primordial"@) != ("Naush"@)) by {
            assert(("Primordial"@)[0] == 'P');
            assert(("Naush"@)[0] == 'N');
        }
        assert(("Primordial"@) != ("Narakese"@)) by {
            assert(("Primordial"@)[0] == 'P');
            assert(("Narakese"@)[0] == 'N');
        }
        assert(("Primordial"@) != ("Nordmaarian"@)) by {
            assert(("Primordial"@)[0] == 'P');
            assert(("Nordmaarian"@)[0] == 'N');
        }
        assert(("Primordial"@) != ("Orc"@)) by {
            assert(("Primordial"@)[0] == 'P');
            assert(("Orc"@)[0] == 'O');
        }
        assert(("Quori"@) != ("Abanasinia"@)) by {
            assert(("Quori"@)[0] == 'Q');
            assert(("Abanasinia"@)[0] == 'A');
        }
        assert(("Quori"@) != ("Abyssal"@)) by {
            assert(("Quori"@)[0] == 'Q');
            assert(("Abyssal"@)[0] == 'A');
        }
        assert(("Quori"@) != ("Aquan"@)) by {
            assert(("Quori"@)[0] == 'Q');
            assert(("Aquan"@)[0] == 'A');
        }
        assert(("Quori"@) != ("Auran"@)) by {
            assert(("Quori"@)[0] == 'Q');
            assert(("Auran"@)[0] == 'A');
        }
        assert(("Quori"@) != ("Celestial"@)) by {
            assert(("Quori"@)[0] == 'Q');
            assert(("Celestial"@)[0] == 'C');
        }
        assert(("Quori"@) != ("Common"@)) by {
            assert(("Quori"@)[0] == 'Q');
            assert(("Common"@)[0] == 'C');
        }
        assert(("Quori"@) != ("DeepSpeech"@)) by {
            assert(("Quori"@)[0] == 'Q');
            assert(("DeepSpeech"@)[0] == 'D');
        }
        assert(("Quori"@) != ("Draconic"@)) by {
            assert(("Quori"@)[0] == 'Q');
            assert(("Draconic"@)[0] == 'D');
        }
        assert(("Quori"@) != ("Dwarvish"@)) by {
            assert(("Quori"@)[0] == 'Q');
            assert(("Dwarvish"@)[0] == 'D');
        }
        assert(("Quori"@) != ("Elvish"@)) by {
            assert(("Quori"@)[0] == 'Q');
            assert(("Elvish"@)[0] == 'E');
        }
        assert(("Quori"@) != ("Ergot"@)) by {
            assert(("Quori"@)[0] == 'Q');
            assert(("Ergot"@)[0] == 'E');
        }
        assert(("Quori"@) != ("Giant"@)) by {
            assert(("Quori"@)[0] == 'Q');
            assert(("Giant"@)[0] == 'G');
        }
        assert(("Quori"@) != ("Gnomish"@)) by {
            assert(("Quori"@)[0] == 'Q');
            assert(("Gnomish"@)[0] == 'G');
        }
        assert(("Quori"@) != ("Goblin"@)) by {
            assert(("Quori"@)[0] == 'Q');
            assert(("Goblin"@)[0] == 'G');
        }
        assert(("Quori"@) != ("Hadozee"@)) by {
            assert(("Quori"@)[0] == 'Q');
            assert(("Hadozee"@)[0] == 'H');
        }
        assert(("Quori"@) != ("Halfling"@)) by {
            assert(("Quori"@)[0] == 'Q');
            assert(("Halfling"@)[0] == 'H');
        }
        assert(("Quori"@) != ("Ignan"@)) by {
            assert(("Quori"@)[0] == 'Q');
            assert(("Ignan"@)[0] == 'I');
        }
        assert(("Quori"@) != ("Infernal"@)) by {
            assert(("Quori"@)[0] == 'Q');
            assert(("Infernal"@)[0] == 'I');
        }
        assert(("Quori"@) != ("Istarian"@)) by {
            assert(("Quori"@)[0] == 'Q');
            assert(("Istarian"@)[0] == 'I');
        }
        assert(("Quori"@) != ("Kenderspeak"@)) by {
            assert(("Quori"@)[0] == 'Q');
            assert(("Kenderspeak"@)[0] == 'K');
        }
        assert(("Quori"@) != ("Kharolian"@)) by {
            assert(("Quori"@)[0] == 'Q');
            assert(("Kharolian"@)[0] == 'K');
        }
        assert(("Quori"@) != ("Khur"@)) by {
            assert(("Quori"@)[0] == 'Q');
            assert(("Khur"@)[0] == 'K');
        }
        assert(("Quori"@) != ("Kothian"@)) by {
            assert(("Quori"@)[0] == 'Q');
            assert(("Kothian"@)[0] == 'K');
        }
        assert(("Quori"@) != ("Kraul"@)) by {
            assert(("Quori"@)[0] == 'Q');
            assert(("Kraul"@)[0] == 'K');
        }
        assert(("Quori"@) != ("Leonin"@)) by {
            assert(("Quori"@)[0] == 'Q');
            assert(("Leonin"@)[0] == 'L');
        }
        assert(("Quori"@) != ("Loxodon"@)) by {
            assert(("Quori"@)[0] == 'Q');
            assert(("Loxodon"@)[0] == 'L');
        }
        assert(("Quori"@) != ("Marquesian"@)) by {
            assert(("Quori"@)[0] == 'Q');
            assert(("Marquesian"@)[0] == 'M');
        }
        assert(("Quori"@) != ("Merfolk"@)) by {
            assert(("Quori"@)[0] == 'Q');
            assert(("Merfolk"@)[0] == 'M');
        }
        assert(("Quori"@) != ("Minotaur"@)) by {
            assert(("Quori"@)[0] == 'Q');
            assert(("Minotaur"@)[0] == 'M');
        }
        assert(("Quori"@) != ("Naush"@)) by {
            assert(("Quori"@)[0] == 'Q');
            assert(("Naush"@)[0] == 'N');
        }
        assert(("Quori"@) != ("Narakese"@)) by {
            assert(("Quori"@)[0] == 'Q');
            assert(("Narakese"@)[0] == 'N');
        }
        assert(("Quori"@) != ("Nordmaarian"@)) by {
            assert(("Quori"@)[0] == 'Q');
            assert(("Nordmaarian"@)[0] == 'N');
        }
        assert(("Quori"@) != ("Orc"@)) by {
            assert(("Quori"@)[0] == 'Q');
            assert(("Orc"@)[0] == 'O');
        }
        assert(("Quori"@) != ("Primordial"@)) by {
            assert(("Quori"@)[0] == 'Q');
            assert(("Primordial"@)[0] == 'P');
        }
        assert(("Riedran"@) != ("Abanasinia"@)) by {
            assert(("Riedran"@)[0] == 'R');
            assert(("Abanasinia"@)[0] == 'A');
        }
        assert(("Riedran"@) != ("Abyssal"@)) by {
            assert(("Riedran"@)[0] == 'R');
            assert(("Abyssal"@)[0] == 'A');
        }
        assert(("Riedran"@) != ("Aquan"@)) by {
            assert(("Riedran"@)[0] == 'R');
            assert(("Aquan"@)[0] == 'A');
        }
        assert(("Riedran"@) != ("Auran"@)) by {
            assert(("Riedran"@)[0] == 'R');
            assert(("Auran"@)[0] == 'A');
        }
        assert(("Riedran"@) != ("Celestial"@)) by {
            assert(("Riedran"@)[0] == 'R');
            assert(("Celestial"@)[0] == 'C');
        }
        assert(("Riedran"@) != ("Common"@)) by {
            assert(("Riedran"@)[0] == 'R');
            assert(("Common"@)[0] == 'C');
        }
        assert(("Riedran"@) != ("DeepSpeech"@)) by {
            assert(("Riedran"@)[0] == 'R');
            assert(("DeepSpeech"@)[0] == 'D');
        }
        assert(("Riedran"@) != ("Draconic"@)) by {
            assert(("Riedran"@)[0] == 'R');
            assert(("Draconic"@)[0] == 'D');
        }
        assert(("Riedran"@) != ("Dwarvish"@)) by {
            assert(("Riedran"@)[0] == 'R');
            assert(("Dwarvish"@)[0] == 'D');
        }
        assert(("Riedran"@) != ("Elvish"@)) by {
            assert(("Riedran"@)[0] == 'R');
            assert(("Elvish"@)[0] == 'E');
        }
        assert(("Riedran"@) != ("Ergot"@)) by {
            assert(("Riedran"@)[0] == 'R');
            assert(("Ergot"@)[0] == 'E');
        }
        assert(("Riedran"@) != ("Giant"@)) by {
            assert(("Riedran"@)[0] == 'R');
            assert(("Giant"@)[0] == 'G');
        }
        assert(("Riedran"@) != ("Gnomish"@)) by {
            assert(("Riedran"@)[0] == 'R');
            assert(("Gnomish"@)[0] == 'G');
        }
        assert(("Riedran"@) != ("Goblin"@)) by {
            assert(("Riedran"@)[0] == 'R');
            assert(("Goblin"@)[0] == 'G');
        }
        assert(("Riedran"@) != ("Hadozee"@)) by {
            assert(("Riedran"@)[0] == 'R');
            assert(("Hadozee"@)[0] == 'H');
        }
        assert(("Riedran"@) != ("Halfling"@)) by {
            assert(("Riedran"@)[0] == 'R');
            assert(("Halfling"@)[0] == 'H');
        }
        assert(("Riedran"@) != ("Ignan"@)) by {
            assert(("Riedran"@)[0] == 'R');
            assert(("Ignan"@)[0] == 'I');
        }
        assert(("Riedran"@) != ("Infernal"@)) by {
            assert(("Riedran"@)[0] == 'R');
            assert(("Infernal"@)[0] == 'I');
        }
        assert(("Riedran"@) != ("Istarian"@)) by {
            assert(("Riedran"@)[0] == 'R');
            assert(("Istarian"@)[0] == 'I');
        }
        assert(("Riedran"@) != ("Kenderspeak"@)) by {
            assert(("Riedran"@)[0] == 'R');
            assert(("Kenderspeak"@)[0] == 'K');
        }
        assert(("Riedran"@) != ("Kharolian"@)) by {
            assert(("Riedran"@)[0] == 'R');
            assert(("Kharolian"@)[0] == 'K');
        }
        assert(("Riedran"@) != ("Khur"@)) by {
            assert(("Riedran"@)[0] == 'R');
            assert(("Khur"@)[0] == 'K');
        }
        assert(("Riedran"@) != ("Kothian"@)) by {
            assert(("Riedran"@)[0] == 'R');
            assert(("Kothian"@)[0] == 'K');
        }
        assert(("Riedran"@) != ("Kraul"@)) by {
            assert(("Riedran"@)[0] == 'R');
            assert(("Kraul"@)[0] == 'K');
        }
        assert(("Riedran"@) != ("Leonin"@)) by {
            assert(("Riedran"@)[0] == 'R');
            assert(("Leonin"@)[0] == 'L');
        }
        assert(("Riedran"@) != ("Loxodon"@)) by {
            assert(("Riedran"@)[0] == 'R');
            assert(("Loxodon"@)[0] == 'L');
        }
        assert(("Riedran"@) != ("Marquesian"@)) by {
            assert(("Riedran"@)[0] == 'R');
            assert(("Marquesian"@)[0] == 'M');
        }
        assert(("Riedran"@) != ("Merfolk"@)) by {
            assert(("Riedran"@)[0] == 'R');
            assert(("Merfolk"@)[0] == 'M');
        }
        assert(("Riedran"@) != ("Minotaur"@)) by {
            assert(("Riedran"@)[0] == 'R');
            assert(("Minotaur"@)[0] == 'M');
        }
        assert(("Riedran"@) != ("Naush"@)) by {
            assert(("Riedran"@)[0] == 'R');
            assert(("Naush"@)[0] == 'N');
        }
        assert(("Riedran"@) != ("Narakese"@)) by {
            assert(("Riedran"@)[0] == 'R');
            assert(("Narakese"@)[0] == 'N');
        }
        assert(("Riedran"@) != ("Nordmaarian"@)) by {
            assert(("Riedran"@)[0] == 'R');
            assert(("Nordmaarian"@)[0] == 'N');
        }
        assert(("Riedran"@) != ("Orc"@)) by {
            assert(("Riedran"@)[0] == 'R');
            assert(("Orc"@)[0] == 'O');
        }
        assert(("Riedran"@) != ("Primordial"@)) by {
            assert(("Riedran"@)[0] == 'R');
            assert(("Primordial"@)[0] == 'P');
        }
        assert(("Riedran"@) != ("Quori"@)) by {
            assert(("Riedran"@)[0] == 'R');
            assert(("Quori"@)[0] == 'Q');
        }
        assert(("Solamnic"@) != ("Abanasinia"@)) by {
            assert(("Solamnic"@)[0] == 'S');
            assert(("Abanasinia"@)[0] == 'A');
        }
        assert(("Solamnic"@) != ("Abyssal"@)) by {
            assert(("Solamnic"@)[0] == 'S');
            assert(("Abyssal"@)[0] == 'A');
        }
        assert(("Solamnic"@) != ("Aquan"@)) by {
            assert(("Solamnic"@)[0] == 'S');
            assert(("Aquan"@)[0] == 'A');
        }
        assert(("Solamnic"@) != ("Auran"@)) by {
            assert(("Solamnic"@)[0] == 'S');
            assert(("Auran"@)[0] == 'A');
        }
        assert(("Solamnic"@) != ("Celestial"@)) by {
            assert(("Solamnic"@)[0] == 'S');
            assert(("Celestial"@)[0] == 'C');
        }
        assert(("Solamnic"@) != ("Common"@)) by {
            assert(("Solamnic"@)[0] == 'S');
            assert(("Common"@)[0] == 'C');
        }
        assert(("Solamnic"@) != ("DeepSpeech"@)) by {
            assert(("Solamnic"@)[0] == 'S');
            assert(("DeepSpeech"@)[0] == 'D');
        }
        assert(("Solamnic"@) != ("Draconic"@)) by {
            assert(("Solamnic"@)[0] == 'S');
            assert(("Draconic"@)[0] == 'D');
        }
        assert(("Solamnic"@) != ("Dwarvish"@)) by {
            assert(("Solamnic"@)[0] == 'S');
            assert(("Dwarvish"@)[0] == 'D');
        }
        assert(("Solamnic"@) != ("Elvish"@)) by {
            assert(("Solamnic"@)[0] == 'S');
            assert(("Elvish"@)[0] == 'E');
        }
        assert(("Solamnic"@) != ("Ergot"@)) by {
            assert(("Solamnic"@)[0] == 'S');
            assert(("Ergot"@)[0] == 'E');
        }
        assert(("Solamnic"@) != ("Giant"@)) by {
            assert(("Solamnic"@)[0] == 'S');
            assert(("Giant"@)[0] == 'G');
        }
        assert(("Solamnic"@) != ("Gnomish"@)) by {
            assert(("Solamnic"@)[0] == 'S');
            assert(("Gnomish"@)[0] == 'G');
        }
        assert(("Solamnic"@) != ("Goblin"@)) by {
            assert(("Solamnic"@)[0] == 'S');
            assert(("Goblin"@)[0] == 'G');
        }
        assert(("Solamnic"@) != ("Hadozee"@)) by {
            assert(("Solamnic"@)[0] == 'S');
            assert(("Hadozee"@)[0] == 'H');
        }
        assert(("Solamnic"@) != ("Halfling"@)) by {
            assert(("Solamnic"@)[0] == 'S');
            assert(("Halfling"@)[0] == 'H');
        }
        assert(("Solamnic"@) != ("Ignan"@)) by {
            assert(("Solamnic"@)[0] == 'S');
            assert(("Ignan"@)[0] == 'I');
        }
        assert(("Solamnic"@) != ("Infernal"@)) by {
            assert(("Solamnic"@)[0] == 'S');
            assert(("Infernal"@)[0] == 'I');
        }
        assert(("Solamnic"@) != ("Istarian"@)) by {
            assert(("Solamnic"@)[0] == 'S');
            assert(("Istarian"@)[0] == 'I');
        }
        assert(("Solamnic"@) != ("Kenderspeak"@)) by {
            assert(("Solamnic"@)[0] == 'S');
            assert(("Kenderspeak"@)[0] == 'K');
        }
        assert(("Solamnic"@) != ("Kharolian"@)) by {
            assert(("Solamnic"@)[0] == 'S');
            assert(("Kharolian"@)[0] == 'K');
        }
        assert(("Solamnic"@) != ("Khur"@)) by {
            assert(("Solamnic"@)[0] == 'S');
            assert(("Khur"@)[0] == 'K');
        }
        assert(("Solamnic"@) != ("Kothian"@)) by {
            assert(("Solamnic"@)[0] == 'S');
            assert(("Kothian"@)[0] == 'K');
        }
        assert(("Solamnic"@) != ("Kraul"@)) by {
            assert(("Solamnic"@)[0] == 'S');
            assert(("Kraul"@)[0] == 'K');
        }
        assert(("Solamnic"@) != ("Leonin"@)) by {
            assert(("Solamnic"@)[0] == 'S');
            assert(("Leonin"@)[0] == 'L');
        }
        assert(("Solamnic"@) != ("Loxodon"@)) by {
            assert(("Solamnic"@)[0] == 'S');
            assert(("Loxodon"@)[0] == 'L');
        }
        assert(("Solamnic"@) != ("Marquesian"@)) by {
            assert(("Solamnic"@)[0] == 'S');
            assert(("Marquesian"@)[0] == 'M');
        }
        assert(("Solamnic"@) != ("Merfolk"@)) by {
            assert(("Solamnic"@)[0] == 'S');
            assert(("Merfolk"@)[0] == 'M');
        }
        assert(("Solamnic"@) != ("Minotaur"@)) by {
            assert(("Solamnic"@)[0] == 'S');
            assert(("Minotaur"@)[0] == 'M');
        }
        assert(("Solamnic"@) != ("Naush"@)) by {
            assert(("Solamnic"@)[0] == 'S');
            assert(("Naush"@)[0] == 'N');
        }
        assert(("Solamnic"@) != ("Narakese"@)) by {
            assert(("Solamnic"@)[0] == 'S');
            assert(("Narakese"@)[0] == 'N');
        }
        assert(("Solamnic"@) != ("Nordmaarian"@)) by {
            assert(("Solamnic"@)[0] == 'S');
            assert(("Nordmaarian"@)[0] == 'N');
        }
        assert(("Solamnic"@) != ("Orc"@)) by {
            assert(("Solamnic"@)[0] == 'S');
            assert(("Orc"@)[0] == 'O');
        }
        assert(("Solamnic"@) != ("Primordial"@)) by {
            assert(("Solamnic"@)[0] == 'S');
            assert(("Primordial"@)[0] == 'P');
        }
        assert(("Solamnic"@) != ("Quori"@)) by {
            assert(("Solamnic"@)[0] == 'S');
            assert(("Quori"@)[0] == 'Q');
        }
        assert(("Solamnic"@) != ("Riedran"@)) by {
            assert(("Solamnic"@)[0] == 'S');
            assert(("Riedran"@)[0] == 'R');
        }
        assert(("Sphinx"@) != ("Abanasinia"@)) by {
            assert(("Sphinx"@)[0] == 'S');
            assert(("Abanasinia"@)[0] == 'A');
        }
        assert(("Sphinx"@) != ("Abyssal"@)) by {
            assert(("Sphinx"@)[0] == 'S');
            assert(("Abyssal"@)[0] == 'A');
        }
        assert(("Sphinx"@) != ("Aquan"@)) by {
            assert(("Sphinx"@)[0] == 'S');
            assert(("Aquan"@)[0] == 'A');
        }
        assert(("Sphinx"@) != ("Auran"@)) by {
            assert(("Sphinx"@)[0] == 'S');
            assert(("Auran"@)[0] == 'A');
        }
        assert(("Sphinx"@) != ("Celestial"@)) by {
            assert(("Sphinx"@)[0] == 'S');
            assert(("Celestial"@)[0] == 'C');
        }
        assert(("Sphinx"@) != ("Common"@)) by {
            assert(("Sphinx"@)[0] == 'S');
            assert(("Common"@)[0] == 'C');
        }
        assert(("Sphinx"@) != ("DeepSpeech"@)) by {
            assert(("Sphinx"@)[0] == 'S');
            assert(("DeepSpeech"@)[0] == 'D');
        }
        assert(("Sphinx"@) != ("Draconic"@)) by {
            assert(("Sphinx"@)[0] == 'S');
            assert(("Draconic"@)[0] == 'D');
        }
        assert(("Sphinx"@) != ("Dwarvish"@)) by {
            assert(("Sphinx"@)[0] == 'S');
            assert(("Dwarvish"@)[0] == 'D');
        }
        assert(("Sphinx"@) != ("Elvish"@)) by {
            assert(("Sphinx"@)[0] == 'S');
            assert(("Elvish"@)[0] == 'E');
        }
        assert(("Sphinx"@) != ("Ergot"@)) by {
            assert(("Sphinx"@)[0] == 'S');
            assert(("Ergot"@)[0] == 'E');
        }
        assert(("Sphinx"@) != ("Giant"@)) by {
            assert(("Sphinx"@)[0] == 'S');
            assert(("Giant"@)[0] == 'G');
        }
        assert(("Sphinx"@) != ("Gnomish"@)) by {
            assert(("Sphinx"@)[0] == 'S');
            assert(("Gnomish"@)[0] == 'G');
        }
        assert(("Sphinx"@) != ("Goblin"@)) by {
            assert(("Sphinx"@)[0] == 'S');
            assert(("Goblin"@)[0] == 'G');
        }
        assert(("Sphinx"@) != ("Hadozee"@)) by {
            assert(("Sphinx"@)[0] == 'S');
            assert(("Hadozee"@)[0] == 'H');
        }
        assert(("Sphinx"@) != ("Halfling"@)) by {
            assert(("Sphinx"@)[0] == 'S');
            assert(("Halfling"@)[0] == 'H');
        }
        assert(("Sphinx"@) != ("Ignan"@)) by {
            assert(("Sphinx"@)[0] == 'S');
            assert(("Ignan"@)[0] == 'I');
        }
        assert(("Sphinx"@) != ("Infernal"@)) by {
            assert(("Sphinx"@)[0] == 'S');
            assert(("Infernal"@)[0] == 'I');
        }
        assert(("Sphinx"@) != ("Istarian"@)) by {
            assert(("Sphinx"@)[0] == 'S');
            assert(("Istarian"@)[0] == 'I');
        }
        assert(("Sphinx"@) != ("Kenderspeak"@)) by {
            assert(("Sphinx"@)[0] == 'S');
            assert(("Kenderspeak"@)[0] == 'K');
        }
        assert(("Sphinx"@) != ("Kharolian"@)) by {
            assert(("Sphinx"@)[0] == 'S');
            assert(("Kharolian"@)[0] == 'K');
        }
        assert(("Sphinx"@) != ("Khur"@)) by {
            assert(("Sphinx"@)[0] == 'S');
            assert(("Khur"@)[0] == 'K');
        }
        assert(("Sphinx"@) != ("Kothian"@)) by {
            assert(("Sphinx"@)[0] == 'S');
            assert(("Kothian"@)[0] == 'K');
        }
        assert(("Sphinx"@) != ("Kraul"@)) by {
            assert(("Sphinx"@)[0] == 'S');
            assert(("Kraul"@)[0] == 'K');
        }
        assert(("Sphinx"@) != ("Leonin"@)) by {
            assert(("Sphinx"@)[0] == 'S');
            assert(("Leonin"@)[0] == 'L');
        }
        assert(("Sphinx"@) != ("Loxodon"@)) by {
            assert(("Sphinx"@)[0] == 'S');
            assert(("Loxodon"@)[0] == 'L');
        }
        assert(("Sphinx"@) != ("Marquesian"@)) by {
            assert(("Sphinx"@)[0] == 'S');
            assert(("Marquesian"@)[0] == 'M');
        }
        assert(("Sphinx"@) != ("Merfolk"@)) by {
            assert(("Sphinx"@)[0] == 'S');
            assert(("Merfolk"@)[0] == 'M');
        }
        assert(("Sphinx"@) != ("Minotaur"@)) by {
            assert(("Sphinx"@)[0] == 'S');
            assert(("Minotaur"@)[0] == 'M');
        }
        assert(("Sphinx"@) != ("Naush"@)) by {
            assert(("Sphinx"@)[0] == 'S');
            assert(("Naush"@)[0] == 'N');
        }
        assert(("Sphinx"@) != ("Narakese"@)) by {
            assert(("Sphinx"@)[0] == 'S');
            assert(("Narakese"@)[0] == 'N');
        }
        assert(("Sphinx"@) != ("Nordmaarian"@)) by {
            assert(("Sphinx"@)[0] == 'S');
            assert(("Nordmaarian"@)[0] == 'N');
        }
        assert(("Sphinx"@) != ("Orc"@)) by {
            assert(("Sphinx"@)[0] == 'S');
            assert(("Orc"@)[0] == 'O');
        }
        assert(("Sphinx"@) != ("Primordial"@)) by {
            assert(("Sphinx"@)[0] == 'S');
            assert(("Primordial"@)[0] == 'P');
        }
        assert(("Sphinx"@) != ("Quori"@)) by {
            assert(("Sphinx"@)[0] == 'S');
            assert(("Quori"@)[0] == 'Q');
        }
        assert(("Sphinx"@) != ("Riedran"@)) by {
            assert(("Sphinx"@)[0] == 'S');
            assert(("Riedran"@)[0] == 'R');
        }
        assert(("Sphinx"@) != ("Solamnic"@)) by {
            assert(("Sphinx"@)[1] == 'p');
            assert(("Solamnic"@)[1] == 'o');
        }
        assert(("Sylvan"@) != ("Abanasinia"@)) by {
            assert(("Sylvan"@)[0] == 'S');
            assert(("Abanasinia"@)[0] == 'A');
        }
        assert(("Sylvan"@) != ("Abyssal"@)) by {
            assert(("Sylvan"@)[0] == 'S');
            assert(("Abyssal"@)[0] == 'A');
        }
        assert(("Sylvan"@) != ("Aquan"@)) by {
            assert(("Sylvan"@)[0] == 'S');
            assert(("Aquan"@)[0] == 'A');
        }
        assert(("Sylvan"@) != ("Auran"@)) by {
            assert(("Sylvan"@)[0] == 'S');
            assert(("Auran"@)[0] == 'A');
        }
        assert(("Sylvan"@) != ("Celestial"@)) by {
            assert(("Sylvan"@)[0] == 'S');
            assert(("Celestial"@)[0] == 'C');
        }
        assert(("Sylvan"@) != ("Common"@)) by {
            assert(("Sylvan"@)[0] == 'S');
            assert(("Common"@)[0] == 'C');
        }
        assert(("Sylvan"@) != ("DeepSpeech"@)) by {
            assert(("Sylvan"@)[0] == 'S');
            assert(("DeepSpeech"@)[0] == 'D');
        }
        assert(("Sylvan"@) != ("Draconic"@)) by {
            assert(("Sylvan"@)[0] == 'S');
            assert(("Draconic"@)[0] == 'D');
        }
        assert(("Sylvan"@) != ("Dwarvish"@)) by {
            assert(("Sylvan"@)[0] == 'S');
            assert(("Dwarvish"@)[0] == 'D');
        }
        assert(("Sylvan"@) != ("Elvish"@)) by {
            assert(("Sylvan"@)[0] == 'S');
            assert(("Elvish"@)[0] == 'E');
        }
        assert(("Sylvan"@) != ("Ergot"@)) by {
            assert(("Sylvan"@)[0] == 'S');
            assert(("Ergot"@)[0] == 'E');
        }
        assert(("Sylvan"@) != ("Giant"@)) by {
            assert(("Sylvan"@)[0] == 'S');
            assert(("Giant"@)[0] == 'G');
        }
        assert(("Sylvan"@) != ("Gnomish"@)) by {
            assert(("Sylvan"@)[0] == 'S');
            assert(("Gnomish"@)[0] == 'G');
        }
        assert(("Sylvan"@) != ("Goblin"@)) by {
            assert(("Sylvan"@)[0] == 'S');
            assert(("Goblin"@)[0] == 'G');
        }
        assert(("Sylvan"@) != ("Hadozee"@)) by {
            assert(("Sylvan"@)[0] == 'S');
            assert(("Hadozee"@)[0] == 'H');
        }
        assert(("Sylvan"@) != ("Halfling"@)) by {
            assert(("Sylvan"@)[0] == 'S');
            assert(("Halfling"@)[0] == 'H');
        }
        assert(("Sylvan"@) != ("Ignan"@)) by {
            assert(("Sylvan"@)[0] == 'S');
            assert(("Ignan"@)[0] == 'I');
        }
        assert(("Sylvan"@) != ("Infernal"@)) by {
            assert(("Sylvan"@)[0] == 'S');
            assert(("Infernal"@)[0] == 'I');
        }
        assert(("Sylvan"@) != ("Istarian"@)) by {
            assert(("Sylvan"@)[0] == 'S');
            assert(("Istarian"@)[0] == 'I');
        }
        assert(("Sylvan"@) != ("Kenderspeak"@)) by {
            assert(("Sylvan"@)[0] == 'S');
            assert(("Kenderspeak"@)[0] == 'K');
        }
        assert(("Sylvan"@) != ("Kharolian"@)) by {
            assert(("Sylvan"@)[0] == 'S');
            assert(("Kharolian"@)[0] == 'K');
        }
        assert(("Sylvan"@) != ("Khur"@)) by {
            assert(("Sylvan"@)[0] == 'S');
            assert(("Khur"@)[0] == 'K');
        }
        assert(("Sylvan"@) != ("Kothian"@)) by {
            assert(("Sylvan"@)[0] == 'S');
            assert(("Kothian"@)[0] == 'K');
        }
        assert(("Sylvan"@) != ("Kraul"@)) by {
            assert(("Sylvan"@)[0] == 'S');
            assert(("Kraul"@)[0] == 'K');
        }
        assert(("Sylvan"@) != ("Leonin"@)) by {
            assert(("Sylvan"@)[0] == 'S');
            assert(("Leonin"@)[0] == 'L');
        }
        assert(("Sylvan"@) != ("Loxodon"@)) by {
            assert(("Sylvan"@)[0] == 'S');
            assert(("Loxodon"@)[0] == 'L');
        }
        assert(("Sylvan"@) != ("Marquesian"@)) by {
            assert(("Sylvan"@)[0] == 'S');
            assert(("Marquesian"@)[0] == 'M');
        }
        assert(("Sylvan"@) != ("Merfolk"@)) by {
            assert(("Sylvan"@)[0] == 'S');
            assert(("Merfolk"@)[0] == 'M');
        }
        assert(("Sylvan"@) != ("Minotaur"@)) by {
            assert(("Sylvan"@)[0] == 'S');
            assert(("Minotaur"@)[0] == 'M');
        }
        assert(("Sylvan"@) != ("Naush"@)) by {
            assert(("Sylvan"@)[0] == 'S');
            assert(("Naush"@)[0] == 'N');
        }
        assert(("Sylvan"@) != ("Narakese"@)) by {
            assert(("Sylvan"@)[0] == 'S');
            assert(("Narakese"@)[0] == 'N');
        }
        assert(("Sylvan"@) != ("Nordmaarian"@)) by {
            assert(("Sylvan"@)[0] == 'S');
            assert(("Nordmaarian"@)[0] == 'N');
        }
        assert(("Sylvan"@) != ("Orc"@)) by {
            assert(("Sylvan"@)[0] == 'S');
            assert(("Orc"@)[0] == 'O');
        }
        assert(("Sylvan"@) != ("Primordial"@)) by {
            assert(("Sylvan"@)[0] == 'S');
            assert(("Primordial"@)[0] == 'P');
        }
        assert(("Sylvan"@) != ("Quori"@)) by {
            assert(("Sylvan"@)[0] == 'S');
            assert(("Quori"@)[0] == 'Q');
        }
        assert(("Sylvan"@) != ("Riedran"@)) by {
            assert(("Sylvan"@)[0] == 'S');
            assert(("Riedran"@)[0] == 'R');
        }
        assert(("Sylvan"@) != ("Solamnic"@)) by {
            assert(("Sylvan"@)[1] == 'y');
            assert(("Solamnic"@)[1] == 'o');
        }
        assert(("Sylvan"@) != ("Sphinx"@)) by {
            assert(("Sylvan"@)[1] == 'y');
            assert(("Sphinx"@)[1] == 'p');
        }
        assert(("Terran"@) != ("Abanasinia"@)) by {
            assert(("Terran"@)[0] == 'T');
            assert(("Abanasinia"@)[0] == 'A');
        }
        assert(("Terran"@) != ("Abyssal"@)) by {
            assert(("Terran"@)[0] == 'T');
            assert(("Abyssal"@)[0] == 'A');
        }
        assert(("Terran"@) != ("Aquan"@)) by {
            assert(("Terran"@)[0] == 'T');
            assert(("Aquan"@)[0] == 'A');
        }
        assert(("Terran"@) != ("Auran"@)) by {
            assert(("Terran"@)[0] == 'T');
            assert(("Auran"@)[0] == 'A');
        }
        assert(("Terran"@) != ("Celestial"@)) by {
            assert(("Terran"@)[0] == 'T');
            assert(("Celestial"@)[0] == 'C');
        }
        assert(("Terran"@) != ("Common"@)) by {
            assert(("Terran"@)[0] == 'T');
            assert(("Common"@)[0] == 'C');
        }
        assert(("Terran"@) != ("DeepSpeech"@)) by {
            assert(("Terran"@)[0] == 'T');
            assert(("DeepSpeech"@)[0] == 'D');
        }
        assert(("Terran"@) != ("Draconic"@)) by {
            assert(("Terran"@)[0] == 'T');
            assert(("Draconic"@)[0] == 'D');
        }
        assert(("Terran"@) != ("Dwarvish"@)) by {
            assert(("Terran"@)[0] == 'T');
            assert(("Dwarvish"@)[0] == 'D');
        }
        assert(("Terran"@) != ("Elvish"@)) by {
            assert(("Terran"@)[0] == 'T');
            assert(("Elvish"@)[0] == 'E');
        }
        assert(("Terran"@) != ("Ergot"@)) by {
            assert(("Terran"@)[0] == 'T');
            assert(("Ergot"@)[0] == 'E');
        }
        assert(("Terran"@) != ("Giant"@)) by {
            assert(("Terran"@)[0] == 'T');
            assert(("Giant"@)[0] == 'G');
        }
        assert(("Terran"@) != ("Gnomish"@)) by {
            assert(("Terran"@)[0] == 'T');
            assert(("Gnomish"@)[0] == 'G');
        }
        assert(("Terran"@) != ("Goblin"@)) by {
            assert(("Terran"@)[0] == 'T');
            assert(("Goblin"@)[0] == 'G');
        }
        assert(("Terran"@) != ("Hadozee"@)) by {
            assert(("Terran"@)[0] == 'T');
            assert(("Hadozee"@)[0] == 'H');
        }
        assert(("Terran"@) != ("Halfling"@)) by {
            assert(("Terran"@)[0] == 'T');
            assert(("Halfling"@)[0] == 'H');
        }
        assert(("Terran"@) != ("Ignan"@)) by {
            assert(("Terran"@)[0] == 'T');
            assert(("Ignan"@)[0] == 'I');
        }
        assert(("Terran"@) != ("Infernal"@)) by {
            assert(("Terran"@)[0] == 'T');
            assert(("Infernal"@)[0] == 'I');
        }
        assert(("Terran"@) != ("Istarian"@)) by {
            assert(("Terran"@)[0] == 'T');
            assert(("Istarian"@)[0] == 'I');
        }
        assert(("Terran"@) != ("Kenderspeak"@)) by {
            assert(("Terran"@)[0] == 'T');
            assert(("Kenderspeak"@)[0] == 'K');
        }
        assert(("Terran"@) != ("Kharolian"@)) by {
            assert(("Terran"@)[0] == 'T');
            assert(("Kharolian"@)[0] == 'K');
        }
        assert(("Terran"@) != ("Khur"@)) by {
            assert(("Terran"@)[0] == 'T');
            assert(("Khur"@)[0] == 'K');
        }
        assert(("Terran"@) != ("Kothian"@)) by {
            assert(("Terran"@)[0] == 'T');
            assert(("Kothian"@)[0] == 'K');
        }
        assert(("Terran"@) != ("Kraul"@)) by {
            assert(("Terran"@)[0] == 'T');
            assert(("Kraul"@)[0] == 'K');
        }
        assert(("Terran"@) != ("Leonin"@)) by {
            assert(("Terran"@)[0] == 'T');
            assert(("Leonin"@)[0] == 'L');
        }
        assert(("Terran"@) != ("Loxodon"@)) by {
            assert(("Terran"@)[0] == 'T');
            assert(("Loxodon"@)[0] == 'L');
        }
        assert(("Terran"@) != ("Marquesian"@)) by {
            assert(("Terran"@)[0] == 'T');
            assert(("Marquesian"@)[0] == 'M');
        }
        assert(("Terran"@) != ("Merfolk"@)) by {
            assert(("Terran"@)[0] == 'T');
            assert(("Merfolk"@)[0] == 'M');
        }
        assert(("Terran"@) != ("Minotaur"@)) by {
            assert(("Terran"@)[0] == 'T');
            assert(("Minotaur"@)[0] == 'M');
        }
        assert(("Terran"@) != ("Naush"@)) by {
            assert(("Terran"@)[0] == 'T');
            assert(("Naush"@)[0] == 'N');
        }
        assert(("Terran"@) != ("Narakese"@)) by {
            assert(("Terran"@)[0] == 'T');
            assert(("Narakese"@)[0] == 'N');
        }
        assert(("Terran"@) != ("Nordmaarian"@)) by {
            assert(("Terran"@)[0] == 'T');
            assert(("Nordmaarian"@)[0] == 'N');
        }
        assert(("Terran"@) != ("Orc"@)) by {
            assert(("Terran"@)[0] == 'T');
            assert(("Orc"@)[0] == 'O');
        }
        assert(("Terran"@) != ("Primordial"@)) by {
            assert(("Terran"@)[0] == 'T');
            assert(("Primordial"@)[0] == 'P');
        }
        assert(("Terran"@) != ("Quori"@)) by {
            assert(("Terran"@)[0] == 'T');
            assert(("Quori"@)[0] == 'Q');
        }
        assert(("Terran"@) != ("Riedran"@)) by {
            assert(("Terran"@)[0] == 'T');
            assert(("Riedran"@)[0] == 'R');
        }
        assert(("Terran"@) != ("Solamnic"@)) by {
            assert(("Terran"@)[0] == 'T');
            assert(("Solamnic"@)[0] == 'S');
        }
        assert(("Terran"@) != ("Sphinx"@)) by {
            assert(("Terran"@)[0] == 'T');
            assert(("Sphinx"@)[0] == 'S');
        }
        assert(("Terran"@) != ("Sylvan"@)) by {
            assert(("Terran"@)[0] == 'T');
            assert(("Sylvan"@)[0] == 'S');
        }
        assert(("ThriKreen"@) != ("Abanasinia"@)) by {
            assert(("ThriKreen"@)[0] == 'T');
            assert(("Abanasinia"@)[0] == 'A');
        }
        assert(("ThriKreen"@) != ("Abyssal"@)) by {
            assert(("ThriKreen"@)[0] == 'T');
            assert(("Abyssal"@)[0] == 'A');
        }
        assert(("ThriKreen"@) != ("Aquan"@)) by {
            assert(("ThriKreen"@)[0] == 'T');
            assert(("Aquan"@)[0] == 'A');
        }
        assert(("ThriKreen"@) != ("Auran"@)) by {
            assert(("ThriKreen"@)[0] == 'T');
            assert(("Auran"@)[0] == 'A');
        }
        assert(("ThriKreen"@) != ("Celestial"@)) by {
            assert(("ThriKreen"@)[0] == 'T');
            assert(("Celestial"@)[0] == 'C');
        }
        assert(("ThriKreen"@) != ("Common"@)) by {
            assert(("ThriKreen"@)[0] == 'T');
            assert(("Common"@)[0] == 'C');
        }
        assert(("ThriKreen"@) != ("DeepSpeech"@)) by {
            assert(("ThriKreen"@)[0] == 'T');
            assert(("DeepSpeech"@)[0] == 'D');
        }
        assert(("ThriKreen"@) != ("Draconic"@)) by {
            assert(("ThriKreen"@)[0] == 'T');
            assert(("Draconic"@)[0] == 'D');
        }
        assert(("ThriKreen"@) != ("Dwarvish"@)) by {
            assert(("ThriKreen"@)[0] == 'T');
            assert(("Dwarvish"@)[0] == 'D');
        }
        assert(("ThriKreen"@) != ("Elvish"@)) by {
            assert(("ThriKreen"@)[0] == 'T');
            assert(("Elvish"@)[0] == 'E');
        }
        assert(("ThriKreen"@) != ("Ergot"@)) by {
            assert(("ThriKreen"@)[0] == 'T');
            assert(("Ergot"@)[0] == 'E');
        }
        assert(("ThriKreen"@) != ("Giant"@)) by {
            assert(("ThriKreen"@)[0] == 'T');
            assert(("Giant"@)[0] == 'G');
        }
        assert(("ThriKreen"@) != ("Gnomish"@)) by {
            assert(("ThriKreen"@)[0] == 'T');
            assert(("Gnomish"@)[0] == 'G');
        }
        assert(("ThriKreen"@) != ("Goblin"@)) by {
            assert(("ThriKreen"@)[0] == 'T');
            assert(("Goblin"@)[0] == 'G');
        }
        assert(("ThriKreen"@) != ("Hadozee"@)) by {
            assert(("ThriKreen"@)[0] == 'T');
            assert(("Hadozee"@)[0] == 'H');
        }
        assert(("ThriKreen"@) != ("Halfling"@)) by {
            assert(("ThriKreen"@)[0] == 'T');
            assert(("Halfling"@)[0] == 'H');
        }
        assert(("ThriKreen"@) != ("Ignan"@)) by {
            assert(("ThriKreen"@)[0] == 'T');
            assert(("Ignan"@)[0] == 'I');
        }
        assert(("ThriKreen"@) != ("Infernal"@)) by {
            assert(("ThriKreen"@)[0] == 'T');
            assert(("Infernal"@)[0] == 'I');
        }
        assert(("ThriKreen"@) != ("Istarian"@)) by {
            assert(("ThriKreen"@)[0] == 'T');
            assert(("Istarian"@)[0] == 'I');
        }
        assert(("ThriKreen"@) != ("Kenderspeak"@)) by {
            assert(("ThriKreen"@)[0] == 'T');
            assert(("Kenderspeak"@)[0] == 'K');
        }
        assert(("ThriKreen"@) != ("Kharolian"@)) by {
            assert(("ThriKreen"@)[0] == 'T');
            assert(("Kharolian"@)[0] == 'K');
        }
        assert(("ThriKreen"@) != ("Khur"@)) by {
            assert(("ThriKreen"@)[0] == 'T');
            assert(("Khur"@)[0] == 'K');
        }
        assert(("ThriKreen"@) != ("Kothian"@)) by {
            assert(("ThriKreen"@)[0] == 'T');
            assert(("Kothian"@)[0] == 'K');
        }
        assert(("ThriKreen"@) != ("Kraul"@)) by {
            assert(("ThriKreen"@)[0] == 'T');
            assert(("Kraul"@)[0] == 'K');
        }
        assert(("ThriKreen"@) != ("Leonin"@)) by {
            assert(("ThriKreen"@)[0] == 'T');
            assert(("Leonin"@)[0] == 'L');
        }
        assert(("ThriKreen"@) != ("Loxodon"@)) by {
            assert(("ThriKreen"@)[0] == 'T');
            assert(("Loxodon"@)[0] == 'L');
        }
        assert(("ThriKreen"@) != ("Marquesian"@)) by {
            assert(("ThriKreen"@)[0] == 'T');
            assert(("Marquesian"@)[0] == 'M');
        }
        assert(("ThriKreen"@) != ("Merfolk"@)) by {
            assert(("ThriKreen"@)[0] == 'T');
            assert(("Merfolk"@)[0] == 'M');
        }
        assert(("ThriKreen"@) != ("Minotaur"@)) by {
            assert(("ThriKreen"@)[0] == 'T');
            assert(("Minotaur"@)[0] == 'M');
        }
        assert(("ThriKreen"@) != ("Naush"@)) by {
            assert(("ThriKreen"@)[0] == 'T');
            assert(("Naush"@)[0] == 'N');
        }
        assert(("ThriKreen"@) != ("Narakese"@)) by {
            assert(("ThriKreen"@)[0] == 'T');
            assert(("Narakese"@)[0] == 'N');
        }
        assert(("ThriKreen"@) != ("Nordmaarian"@)) by {
            assert(("ThriKreen"@)[0] == 'T');
            assert(("Nordmaarian"@)[0] == 'N');
        }
        assert(("ThriKreen"@) != ("Orc"@)) by {
            assert(("ThriKreen"@)[0] == 'T');
            assert(("Orc"@)[0] == 'O');
        }
        assert(("ThriKreen"@) != ("Primordial"@)) by {
            assert(("ThriKreen"@)[0] == 'T');
            assert(("Primordial"@)[0] == 'P');
        }
        assert(("ThriKreen"@) != ("Quori"@)) by {
            assert(("ThriKreen"@)[0] == 'T');
            assert(("Quori"@)[0] == 'Q');
        }
        assert(("ThriKreen"@) != ("Riedran"@)) by {
            assert(("ThriKreen"@)[0] == 'T');
            assert(("Riedran"@)[0] == 'R');
        }
        assert(("ThriKreen"@) != ("Solamnic"@)) by {
            assert(("ThriKreen"@)[0] == 'T');
            assert(("Solamnic"@)[0] == 'S');
        }
        assert(("ThriKreen"@) != ("Sphinx"@)) by {
            assert(("ThriKreen"@)[0] == 'T');
            assert(("Sphinx"@)[0] == 'S');
        }
        assert(("ThriKreen"@) != ("Sylvan"@)) by {
            assert(("ThriKreen"@)[0] == 'T');
            assert(("Sylvan"@)[0] == 'S');
        }
        assert(("ThriKreen"@) != ("Terran"@)) by {
            assert(("ThriKreen"@)[1] == 'h');
            assert(("Terran"@)[1] == 'e');
        }
        assert(("Undercommon"@) != ("Abanasinia"@)) by {
            assert(("Undercommon"@)[0] == 'U');
            assert(("Abanasinia"@)[0] == 'A');
        }
        assert(("Undercommon"@) != ("Abyssal"@)) by {
            assert(("Undercommon"@)[0] == 'U');
            assert(("Abyssal"@)[0] == 'A');
        }
        assert(("Undercommon"@) != ("Aquan"@)) by {
            assert(("Undercommon"@)[0] == 'U');
            assert(("Aquan"@)[0] == 'A');
        }
        assert(("Undercommon"@) != ("Auran"@)) by {
            assert(("Undercommon"@)[0] == 'U');
            assert(("Auran"@)[0] == 'A');
        }
        assert(("Undercommon"@) != ("Celestial"@)) by {
            assert(("Undercommon"@)[0] == 'U');
            assert(("Celestial"@)[0] == 'C');
        }
        assert(("Undercommon"@) != ("Common"@)) by {
            assert(("Undercommon"@)[0] == 'U');
            assert(("Common"@)[0] == 'C');
        }
        assert(("Undercommon"@) != ("DeepSpeech"@)) by {
            assert(("Undercommon"@)[0] == 'U');
            assert(("DeepSpeech"@)[0] == 'D');
        }
        assert(("Undercommon"@) != ("Draconic"@)) by {
            assert(("Undercommon"@)[0] == 'U');
            assert(("Draconic"@)[0] == 'D');
        }
        assert(("Undercommon"@) != ("Dwarvish"@)) by {
            assert(("Undercommon"@)[0] == 'U');
            assert(("Dwarvish"@)[0] == 'D');
        }
        assert(("Undercommon"@) != ("Elvish"@)) by {
            assert(("Undercommon"@)[0] == 'U');
            assert(("Elvish"@)[0] == 'E');
        }
        assert(("Undercommon"@) != ("Ergot"@)) by {
            assert(("Undercommon"@)[0] == 'U');
            assert(("Ergot"@)[0] == 'E');
        }
        assert(("Undercommon"@) != ("Giant"@)) by {
            assert(("Undercommon"@)[0] == 'U');
            assert(("Giant"@)[0] == 'G');
        }
        assert(("Undercommon"@) != ("Gnomish"@)) by {
            assert(("Undercommon"@)[0] == 'U');
            assert(("Gnomish"@)[0] == 'G');
        }
        assert(("Undercommon"@) != ("Goblin"@)) by {
            assert(("Undercommon"@)[0] == 'U');
            assert(("Goblin"@)[0] == 'G');
        }
        assert(("Undercommon"@) != ("Hadozee"@)) by {
            assert(("Undercommon"@)[0] == 'U');
            assert(("Hadozee"@)[0] == 'H');
        }
        assert(("Undercommon"@) != ("Halfling"@)) by {
            assert(("Undercommon"@)[0] == 'U');
            assert(("Halfling"@)[0] == 'H');
        }
        assert(("Undercommon"@) != ("Ignan"@)) by {
            assert(("Undercommon"@)[0] == 'U');
            assert(("Ignan"@)[0] == 'I');
        }
        assert(("Undercommon"@) != ("Infernal"@)) by {
            assert(("Undercommon"@)[0] == 'U');
            assert(("Infernal"@)[0] == 'I');
        }
        assert(("Undercommon"@) != ("Istarian"@)) by {
            assert(("Undercommon"@)[0] == 'U');
            assert(("Istarian"@)[0] == 'I');
        }
        assert(("Undercommon"@) != ("Kenderspeak"@)) by {
            assert(("Undercommon"@)[0] == 'U');
            assert(("Kenderspeak"@)[0] == 'K');
        }
        assert(("Undercommon"@) != ("Kharolian"@)) by {
            assert(("Undercommon"@)[0] == 'U');
            assert(("Kharolian"@)[0] == 'K');
        }
        assert(("Undercommon"@) != ("Khur"@)) by {
            assert(("Undercommon"@)[0] == 'U');
            assert(("Khur"@)[0] == 'K');
        }
        assert(("Undercommon"@) != ("Kothian"@)) by {
            assert(("Undercommon"@)[0] == 'U');
            assert(("Kothian"@)[0] == 'K');
        }
        assert(("Undercommon"@) != ("Kraul"@)) by {
            assert(("Undercommon"@)[0] == 'U');
            assert(("Kraul"@)[0] == 'K');
        }
        assert(("Undercommon"@) != ("Leonin"@)) by {
            assert(("Undercommon"@)[0] == 'U');
            assert(("Leonin"@)[0] == 'L');
        }
        assert(("Undercommon"@) != ("Loxodon"@)) by {
            assert(("Undercommon"@)[0] == 'U');
            assert(("Loxodon"@)[0] == 'L');
        }
        assert(("Undercommon"@) != ("Marquesian"@)) by {
            assert(("Undercommon"@)[0] == 'U');
            assert(("Marquesian"@)[0] == 'M');
        }
        assert(("Undercommon"@) != ("Merfolk"@)) by {
            assert(("Undercommon"@)[0] == 'U');
            assert(("Merfolk"@)[0] == 'M');
        }
        assert(("Undercommon"@) != ("Minotaur"@)) by {
            assert(("Undercommon"@)[0] == 'U');
            assert(("Minotaur"@)[0] == 'M');
        }
        assert(("Undercommon"@) != ("Naush"@)) by {
            assert(("Undercommon"@)[0] == 'U');
            assert(("Naush"@)[0] == 'N');
        }
        assert(("Undercommon"@) != ("Narakese"@)) by {
            assert(("Undercommon"@)[0] == 'U');
            assert(("Narakese"@)[0] == 'N');
        }
        assert(("Undercommon"@) != ("Nordmaarian"@)) by {
            assert(("Undercommon"@)[0] == 'U');
            assert(("Nordmaarian"@)[0] == 'N');
        }
        assert(("Undercommon"@) != ("Orc"@)) by {
            assert(("Undercommon"@)[0] == 'U');
            assert(("Orc"@)[0] == 'O');
        }
        assert(("Undercommon"@) != ("Primordial"@)) by {
            assert(("Undercommon"@)[0] == 'U');
            assert(("Primordial"@)[0] == 'P');
        }
        assert(("Undercommon"@) != ("Quori"@)) by {
            assert(("Undercommon"@)[0] == 'U');
            assert(("Quori"@)[0] == 'Q');
        }
        assert(("Undercommon"@) != ("Riedran"@)) by {
            assert(("Undercommon"@)[0] == 'U');
            assert(("Riedran"@)[0] == 'R');
        }
        assert(("Undercommon"@) != ("Solamnic"@)) by {
            assert(("Undercommon"@)[0] == 'U');
            assert(("Solamnic"@)[0] == 'S');
        }
        assert(("Undercommon"@) != ("Sphinx"@)) by {
            assert(("Undercommon"@)[0] == 'U');
            assert(("Sphinx"@)[0] == 'S');
        }
        assert(("Undercommon"@) != ("Sylvan"@)) by {
            assert(("Undercommon"@)[0] == 'U');
            assert(("Sylvan"@)[0] == 'S');
        }
        assert(("Undercommon"@) != ("Terran"@)) by {
            assert(("Undercommon"@)[0] == 'U');
            assert(("Terran"@)[0] == 'T');
        }
        assert(("Undercommon"@) != ("ThriKreen"@)) by {
            assert(("Undercommon"@)[0] == 'U');
            assert(("ThriKreen"@)[0] == 'T');
        }
        assert(("Vedalken"@) != ("Abanasinia"@)) by {
            assert(("Vedalken"@)[0] == 'V');
            assert(("Abanasinia"@)[0] == 'A');
        }
        assert(("Vedalken"@) != ("Abyssal"@)) by {
            assert(("Vedalken"@)[0] == 'V');
            assert(("Abyssal"@)[0] == 'A');
        }
        assert(("Vedalken"@) != ("Aquan"@)) by {
            assert(("Vedalken"@)[0] == 'V');
            assert(("Aquan"@)[0] == 'A');
        }
        assert(("Vedalken"@) != ("Auran"@)) by {
            assert(("Vedalken"@)[0] == 'V');
            assert(("Auran"@)[0] == 'A');
        }
        assert(("Vedalken"@) != ("Celestial"@)) by {
            assert(("Vedalken"@)[0] == 'V');
            assert(("Celestial"@)[0] == 'C');
        }
        assert(("Vedalken"@) != ("Common"@)) by {
            assert(("Vedalken"@)[0] == 'V');
            assert(("Common"@)[0] == 'C');
        }
        assert(("Vedalken"@) != ("DeepSpeech"@)) by {
            assert(("Vedalken"@)[0] == 'V');
            assert(("DeepSpeech"@)[0] == 'D');
        }
        assert(("Vedalken"@) != ("Draconic"@)) by {
            assert(("Vedalken"@)[0] == 'V');
            assert(("Draconic"@)[0] == 'D');
        }
        assert(("Vedalken"@) != ("Dwarvish"@)) by {
            assert(("Vedalken"@)[0] == 'V');
            assert(("Dwarvish"@)[0] == 'D');
        }
        assert(("Vedalken"@) != ("Elvish"@)) by {
            assert(("Vedalken"@)[0] == 'V');
            assert(("Elvish"@)[0] == 'E');
        }
        assert(("Vedalken"@) != ("Ergot"@)) by {
            assert(("Vedalken"@)[0] == 'V');
            assert(("Ergot"@)[0] == 'E');
        }
        assert(("Vedalken"@) != ("Giant"@)) by {
            assert(("Vedalken"@)[0] == 'V');
            assert(("Giant"@)[0] == 'G');
        }
        assert(("Vedalken"@) != ("Gnomish"@)) by {
            assert(("Vedalken"@)[0] == 'V');
            assert(("Gnomish"@)[0] == 'G');
        }
        assert(("Vedalken"@) != ("Goblin"@)) by {
            assert(("Vedalken"@)[0] == 'V');
            assert(("Goblin"@)[0] == 'G');
        }
        assert(("Vedalken"@) != ("Hadozee"@)) by {
            assert(("Vedalken"@)[0] == 'V');
            assert(("Hadozee"@)[0] == 'H');
        }
        assert(("Vedalken"@) != ("Halfling"@)) by {
            assert(("Vedalken"@)[0] == 'V');
            assert(("Halfling"@)[0] == 'H');
        }
        assert(("Vedalken"@) != ("Ignan"@)) by {
            assert(("Vedalken"@)[0] == 'V');
            assert(("Ignan"@)[0] == 'I');
        }
        assert(("Vedalken"@) != ("Infernal"@)) by {
            assert(("Vedalken"@)[0] == 'V');
            assert(("Infernal"@)[0] == 'I');
        }
        assert(("Vedalken"@) != ("Istarian"@)) by {
            assert(("Vedalken"@)[0] == 'V');
            assert(("Istarian"@)[0] == 'I');
        }
        assert(("Vedalken"@) != ("Kenderspeak"@)) by {
            assert(("Vedalken"@)[0] == 'V');
            assert(("Kenderspeak"@)[0] == 'K');
        }
        assert(("Vedalken"@) != ("Kharolian"@)) by {
            assert(("Vedalken"@)[0] == 'V');
            assert(("Kharolian"@)[0] == 'K');
        }
        assert(("Vedalken"@) != ("Khur"@)) by {
            assert(("Vedalken"@)[0] == 'V');
            assert(("Khur"@)[0] == 'K');
        }
        assert(("Vedalken"@) != ("Kothian"@)) by {
            assert(("Vedalken"@)[0] == 'V');
            assert(("Kothian"@)[0] == 'K');
        }
        assert(("Vedalken"@) != ("Kraul"@)) by {
            assert(("Vedalken"@)[0] == 'V');
            assert(("Kraul"@)[0] == 'K');
        }
        assert(("Vedalken"@) != ("Leonin"@)) by {
            assert(("Vedalken"@)[0] == 'V');
            assert(("Leonin"@)[0] == 'L');
        }
        assert(("Vedalken"@) != ("Loxodon"@)) by {
            assert(("Vedalken"@)[0] == 'V');
            assert(("Loxodon"@)[0] == 'L');
        }
        assert(("Vedalken"@) != ("Marquesian"@)) by {
            assert(("Vedalken"@)[0] == 'V');
            assert(("Marquesian"@)[0] == 'M');
        }
        assert(("Vedalken"@) != ("Merfolk"@)) by {
            assert(("Vedalken"@)[0] == 'V');
            assert(("Merfolk"@)[0] == 'M');
        }
        assert(("Vedalken"@) != ("Minotaur"@)) by {
            assert(("Vedalken"@)[0] == 'V');
            assert(("Minotaur"@)[0] == 'M');
        }
        assert(("Vedalken"@) != ("Naush"@)) by {
            assert(("Vedalken"@)[0] == 'V');
            assert(("Naush"@)[0] == 'N');
        }
        assert(("Vedalken"@) != ("Narakese"@)) by {
            assert(("Vedalken"@)[0] == 'V');
            assert(("Narakese"@)[0] == 'N');
        }
        assert(("Vedalken"@) != ("Nordmaarian"@)) by {
            assert(("Vedalken"@)[0] == 'V');
            assert(("Nordmaarian"@)[0] == 'N');
        }
        assert(("Vedalken"@) != ("Orc"@)) by {
            assert(("Vedalken"@)[0] == 'V');
            assert(("Orc"@)[0] == 'O');
        }
        assert(("Vedalken"@) != ("Primordial"@)) by {
            assert(("Vedalken"@)[0] == 'V');
            assert(("Primordial"@)[0] == 'P');
        }
        assert(("Vedalken"@) != ("Quori"@)) by {
            assert(("Vedalken"@)[0] == 'V');
            assert(("Quori"@)[0] == 'Q');
        }
        assert(("Vedalken"@) != ("Riedran"@)) by {
            assert(("Vedalken"@)[0] == 'V');
            assert(("Riedran"@)[0] == 'R');
        }
        assert(("Vedalken"@) != ("Solamnic"@)) by {
            assert(("Vedalken"@)[0] == 'V');
            assert(("Solamnic"@)[0] == 'S');
        }
        assert(("Vedalken"@) != ("Sphinx"@)) by {
            assert(("Vedalken"@)[0] == 'V');
            assert(("Sphinx"@)[0] == 'S');
        }
        assert(("Vedalken"@) != ("Sylvan"@)) by {
            assert(("Vedalken"@)[0] == 'V');
            assert(("Sylvan"@)[0] == 'S');
        }
        assert(("Vedalken"@) != ("Terran"@)) by {
            assert(("Vedalken"@)[0] == 'V');
            assert(("Terran"@)[0] == 'T');
        }
        assert(("Vedalken"@) != ("ThriKreen"@)) by {
            assert(("Vedalken"@)[0] == 'V');
            assert(("ThriKreen"@)[0] == 'T');
        }
        assert(("Vedalken"@) != ("Undercommon"@)) by {
            assert(("Vedalken"@)[0] == 'V');
            assert(("Undercommon"@)[0] == 'U');
        }
        assert(("Zemnian"@) != ("Abanasinia"@)) by {
            assert(("Zemnian"@)[0] == 'Z');
            assert(("Abanasinia"@)[0] == 'A');
        }
        assert(("Zemnian"@) != ("Abyssal"@)) by {
            assert(("Zemnian"@)[0] == 'Z');
            assert(("Abyssal"@)[0] == 'A');
        }
        assert(("Zemnian"@) != ("Aquan"@)) by {
            assert(("Zemnian"@)[0] == 'Z');
            assert(("Aquan"@)[0] == 'A');
        }
        assert(("Zemnian"@) != ("Auran"@)) by {
            assert(("Zemnian"@)[0] == 'Z');
            assert(("Auran"@)[0] == 'A');
        }
        assert(("Zemnian"@) != ("Celestial"@)) by {
            assert(("Zemnian"@)[0] == 'Z');
            assert(("Celestial"@)[0] == 'C');
        }
        assert(("Zemnian"@) != ("Common"@)) by {
            assert(("Zemnian"@)[0] == 'Z');
            assert(("Common"@)[0] == 'C');
        }
        assert(("Zemnian"@) != ("DeepSpeech"@)) by {
            assert(("Zemnian"@)[0] == 'Z');
            assert(("DeepSpeech"@)[0] == 'D');
        }
        assert(("Zemnian"@) != ("Draconic"@)) by {
            assert(("Zemnian"@)[0] == 'Z');
            assert(("Draconic"@)[0] == 'D');
        }
        assert(("Zemnian"@) != ("Dwarvish"@)) by {
            assert(("Zemnian"@)[0] == 'Z');
            assert(("Dwarvish"@)[0] == 'D');
        }
        assert(("Zemnian"@) != ("Elvish"@)) by {
            assert(("Zemnian"@)[0] == 'Z');
            assert(("Elvish"@)[0] == 'E');
        }
        assert(("Zemnian"@) != ("Ergot"@)) by {
            assert(("Zemnian"@)[0] == 'Z');
            assert(("Ergot"@)[0] == 'E');
        }
        assert(("Zemnian"@) != ("Giant"@)) by {
            assert(("Zemnian"@)[0] == 'Z');
            assert(("Giant"@)[0] == 'G');
        }
        assert(("Zemnian"@) != ("Gnomish"@)) by {
            assert(("Zemnian"@)[0] == 'Z');
            assert(("Gnomish"@)[0] == 'G');
        }
        assert(("Zemnian"@) != ("Goblin"@)) by {
            assert(("Zemnian"@)[0] == 'Z');
            assert(("Goblin"@)[0] == 'G');
        }
        assert(("Zemnian"@) != ("Hadozee"@)) by {
            assert(("Zemnian"@)[0] == 'Z');
            assert(("Hadozee"@)[0] == 'H');
        }
        assert(("Zemnian"@) != ("Halfling"@)) by {
            assert(("Zemnian"@)[0] == 'Z');
            assert(("Halfling"@)[0] == 'H');
        }
        assert(("Zemnian"@) != ("Ignan"@)) by {
            assert(("Zemnian"@)[0] == 'Z');
            assert(("Ignan"@)[0] == 'I');
        }
        assert(("Zemnian"@) != ("Infernal"@)) by {
            assert(("Zemnian"@)[0] == 'Z');
            assert(("Infernal"@)[0] == 'I');
        }
        assert(("Zemnian"@) != ("Istarian"@)) by {
            assert(("Zemnian"@)[0] == 'Z');
            assert(("Istarian"@)[0] == 'I');
        }
        assert(("Zemnian"@) != ("Kenderspeak"@)) by {
            assert(("Zemnian"@)[0] == 'Z');
            assert(("Kenderspeak"@)[0] == 'K');
        }
        assert(("Zemnian"@) != ("Kharolian"@)) by {
            assert(("Zemnian"@)[0] == 'Z');
            assert(("Kharolian"@)[0] == 'K');
        }
        assert(("Zemnian"@) != ("Khur"@)) by {
            assert(("Zemnian"@)[0] == 'Z');
            assert(("Khur"@)[0] == 'K');
        }
        assert(("Zemnian"@) != ("Kothian"@)) by {
            assert(("Zemnian"@)[0] == 'Z');
            assert(("Kothian"@)[0] == 'K');
        }
        assert(("Zemnian"@) != ("Kraul"@)) by {
            assert(("Zemnian"@)[0] == 'Z');
            assert(("Kraul"@)[0] == 'K');
        }
        assert(("Zemnian"@) != ("Leonin"@)) by {
            assert(("Zemnian"@)[0] == 'Z');
            assert(("Leonin"@)[0] == 'L');
        }
        assert(("Zemnian"@) != ("Loxodon"@)) by {
            assert(("Zemnian"@)[0] == 'Z');
            assert(("Loxodon"@)[0] == 'L');
        }
        assert(("Zemnian"@) != ("Marquesian"@)) by {
            assert(("Zemnian"@)[0] == 'Z');
            assert(("Marquesian"@)[0] == 'M');
        }
        assert(("Zemnian"@) != ("Merfolk"@)) by {
            assert(("Zemnian"@)[0] == 'Z');
            assert(("Merfolk"@)[0] == 'M');
        }
        assert(("Zemnian"@) != ("Minotaur"@)) by {
            assert(("Zemnian"@)[0] == 'Z');
            assert(("Minotaur"@)[0] == 'M');
        }
        assert(("Zemnian"@) != ("Naush"@)) by {
            assert(("Zemnian"@)[0] == 'Z');
            assert(("Naush"@)[0] == 'N');
        }
        assert(("Zemnian"@) != ("Narakese"@)) by {
            assert(("Zemnian"@)[0] == 'Z');
            assert(("Narakese"@)[0] == 'N');
        }
        assert(("Zemnian"@) != ("Nordmaarian"@)) by {
            assert(("Zemnian"@)[0] == 'Z');
            assert(("Nordmaarian"@)[0] == 'N');
        }
        assert(("Zemnian"@) != ("Orc"@)) by {
            assert(("Zemnian"@)[0] == 'Z');
            assert(("Orc"@)[0] == 'O');
        }
        assert(("Zemnian"@) != ("Primordial"@)) by {
            assert(("Zemnian"@)[0] == 'Z');
            assert(("Primordial"@)[0] == 'P');
        }
        assert(("Zemnian"@) != ("Quori"@)) by {
            assert(("Zemnian"@)[0] == 'Z');
            assert(("Quori"@)[0] == 'Q');
        }
        assert(("Zemnian"@) != ("Riedran"@)) by {
            assert(("Zemnian"@)[0] == 'Z');
            assert(("Riedran"@)[0] == 'R');
        }
        assert(("Zemnian"@) != ("Solamnic"@)) by {
            assert(("Zemnian"@)[0] == 'Z');
            assert(("Solamnic"@)[0] == 'S');
        }
        assert(("Zemnian"@) != ("Sphinx"@)) by {
            assert(("Zemnian"@)[0] == 'Z');
            assert(("Sphinx"@)[0] == 'S');
        }
        assert(("Zemnian"@) != ("Sylvan"@)) by {
            assert(("Zemnian"@)[0] == 'Z');
            assert(("Sylvan"@)[0] == 'S');
        }
        assert(("Zemnian"@) != ("Terran"@)) by {
            assert(("Zemnian"@)[0] == 'Z');
            assert(("Terran"@)[0] == 'T');
        }
        assert(("Zemnian"@) != ("ThriKreen"@)) by {
            assert(("Zemnian"@)[0] == 'Z');
            assert(("ThriKreen"@)[0] == 'T');
        }
        assert(("Zemnian"@) != ("Undercommon"@)) by {
            assert(("Zemnian"@)[0] == 'Z');
            assert(("Undercommon"@)[0] == 'U');
        }
        assert(("Zemnian"@) != ("Vedalken"@)) by {
            assert(("Zemnian"@)[0] == 'Z');
            assert(("Vedalken"@)[0] == 'V');
        }
        match v {
            Language::Abanasinia => {
                assert(Self::spec_dec(Self::spec_enc(Language::Abanasinia)) == Some(Language::Abanasinia));
            },
            Language::Abyssal => {
                assert(Self::spec_dec(Self::spec_enc(Language::Abyssal)) == Some(Language::Abyssal));
            },
            Language::Aquan => {
                assert(Self::spec_dec(Self::spec_enc(Language::Aquan)) == Some(Language::Aquan));
            },
            Language::Auran => {
                assert(Self::spec_dec(Self::spec_enc(Language::Auran)) == Some(Language::Auran));
            },
            Language::Celestial => {
                assert(Self::spec_dec(Self::spec_enc(Language::Celestial)) == Some(Language::Celestial));
            },
            Language::Common => {
                assert(Self::spec_dec(Self::spec_enc(Language::Common)) == Some(Language::Common));
            },
            Language::DeepSpeech => {
                assert(Self::spec_dec(Self::spec_enc(Language::DeepSpeech)) == Some(Language::DeepSpeech));
            },
            Language::Draconic => {
                assert(Self::spec_dec(Self::spec_enc(Language::Draconic)) == Some(Language::Draconic));
            },
            Language::Dwarvish => {
                assert(Self::spec_dec(Self::spec_enc(Language::Dwarvish)) == Some(Language::Dwarvish));
            },
            Language::Elvish => {
                assert(Self::spec_dec(Self::spec_enc(Language::Elvish)) == Some(Language::Elvish));
            },
            Language::Ergot => {
                assert(Self::spec_dec(Self::spec_enc(Language::Ergot)) == Some(Language::Ergot));
            },
            Language::Giant => {
                assert(Self::spec_dec(Self::spec_enc(Language::Giant)) == Some(Language::Giant));
            },
            Language::Gnomish => {
                assert(Self::spec_dec(Self::spec_enc(Language::Gnomish)) == Some(Language::Gnomish));
            },
            Language::Goblin => {
                assert(Self::spec_dec(Self::spec_enc(Language::Goblin)) == Some(Language::Goblin));
            },
            Language::Hadozee => {
                assert(Self::spec_dec(Self::spec_enc(Language::Hadozee)) == Some(Language::Hadozee));
            },
            Language::Halfling => {
                assert(Self::spec_dec(Self::spec_enc(Language::Halfling)) == Some(Language::Halfling));
            },
            Language::Ignan => {
                assert(Self::spec_dec(Self::spec_enc(Language::Ignan)) == Some(Language::Ignan));
            },
            Language::Infernal => {
                assert(Self::spec_dec(Self::spec_enc(Language::Infernal)) == Some(Language::Infernal));
            },
            Language::Istarian => {
                assert(Self::spec_dec(Self::spec_enc(Language::Istarian)) == Some(Language::Istarian));
            },
            Language::Kenderspeak => {
                assert(Self::spec_dec(Self::spec_enc(Language::Kenderspeak)) == Some(Language::Kenderspeak));
            },
            Language::Kharolian => {
                assert(Self::spec_dec(Self::spec_enc(Language::Kharolian)) == Some(Language::Kharolian));
            },
            Language::Khur => {
                assert(Self::spec_dec(Self::spec_enc(Language::Khur)) == Some(Language::Khur));
            },
            Language::Kothian => {
                assert(Self::spec_dec(Self::spec_enc(Language::Kothian)) == Some(Language::Kothian));
            },
            Language::Kraul => {
                assert(Self::spec_dec(Self::spec_enc(Language::Kraul)) == Some(Language::Kraul));
            },
            Language::Leonin => {
                assert(Self::spec_dec(Self::spec_enc(Language::Leonin)) == Some(Language::Leonin));
            },
            Language::Loxodon => {
                assert(Self::spec_dec(Self::spec_enc(Language::Loxodon)) == Some(Language::Loxodon));
            },
            Language::Marquesian => {
                assert(Self::spec_dec(Self::spec_enc(Language::Marquesian)) == Some(Language::Marquesian));
            },
            Language::Merfolk => {
                assert(Self::spec_dec(Self::spec_enc(Language::Merfolk)) == Some(Language::Merfolk));
            },
            Language::Minotaur => {
                assert(Self::spec_dec(Self::spec_enc(Language::Minotaur)) == Some(Language::Minotaur));
            },
            Language::Naush => {
                assert(Self::spec_dec(Self::spec_enc(Language::Naush)) == Some(Language::Naush));
            },
            Language::Narakese => {
                assert(Self::spec_dec(Self::spec_enc(Language::Narakese)) == Some(Language::Narakese));
            },
            Language::Nordmaarian => {
                assert(Self::spec_dec(Self::spec_enc(Language::Nordmaarian)) == Some(Language::Nordmaarian));
            },
            Language::Orc => {
                assert(Self::spec_dec(Self::spec_enc(Language::Orc)) == Some(Language::Orc));
            },
            Language::Primordial => {
                assert(Self::spec_dec(Self::spec_enc(Language::Primordial)) == Some(Language::Primordial));
            },
            Language::Quori => {
                assert(Self::spec_dec(Self::spec_enc(Language::Quori)) == Some(Language::Quori));
            },
            Language::Riedran => {
                assert(Self::spec_dec(Self::spec_enc(Language::Riedran)) == Some(Language::Riedran));
            },
            Language::Solamnic => {
                assert(Self::spec_dec(Self::spec_enc(Language::Solamnic)) == Some(Language::Solamnic));
            },
            Language::Sphinx => {
                assert(Self::spec_dec(Self::spec_enc(Language::Sphinx)) == Some(Language::Sphinx));
            },
            Language::Sylvan => {
                assert(Self::spec_dec(Self::spec_enc(Language::Sylvan)) == Some(Language::Sylvan));
            },
            Language::Terran => {
                assert(Self::spec_dec(Self::spec_enc(Language::Terran)) == Some(Language::Terran));
            },
            Language::ThriKreen => {
                assert(Self::spec_dec(Self::spec_enc(Language::ThriKreen)) == Some(Language::ThriKreen));
            },
            Language::Undercommon => {
                assert(Self::spec_dec(Self::spec_enc(Language::Undercommon)) == Some(Language::Undercommon));
            },
            Language::Vedalken => {
                assert(Self::spec_dec(Self::spec_enc(Language::Vedalken)) == Some(Language::Vedalken));
            },
            Language::Zemnian => {
                assert(Self::spec_dec(Self::spec_enc(Language::Zemnian)) == Some(Language::Zemnian));
            },
        }
    }
}

/// What kind of creature a stat block describes.
#[derive(Debug, Clone, Copy, PartialEq, Eq, Structural)]
pub enum CreatureType {
    Monster(MonsterType),
    Player,
    NPC,
}

impl DeepView for CreatureType {
    type V = CreatureType;

    open spec fn deep_view(&self) -> CreatureType {
        *self
    }
}

impl Codec for CreatureType {
    open spec fn spec_enc(v: CreatureType) -> RecordV {
        match v {
            CreatureType::Monster(a0) => RecordV::Tag("Monster"@, seq![<MonsterType as Codec>::spec_enc(a0)]),
            CreatureType::Player => RecordV::Tag("Player"@, Seq::empty()),
            CreatureType::NPC => RecordV::Tag("NPC"@, Seq::empty()),
        }
    }

    open spec fn spec_dec(r: RecordV) -> Option<CreatureType> {
        match r {
            RecordV::Tag(t, args) => {
                if t == "Monster"@ && args.len() == 1 {
                    match <MonsterType as Codec>::spec_dec(args[0]) {
                        Some(a0) => Some(CreatureType::Monster(a0)),
                        None => None,
                    }
                } else if t == "Player"@ && args.len() == 0 {
                    Some(CreatureType::Player)
                } else if t == "NPC"@ && args.len() == 0 {
                    Some(CreatureType::NPC)
                } else {
                    None
                }
            },
            _ => None,
        }
    }

    fn to_record(&self) -> (r: Record) {
        match self {
            CreatureType::Monster(a0) => {
                let mut args: Vec<Record> = Vec::new();
                args.push(a0.to_record());
                let r = Record::Tag(String::from_str("Monster"), args);
                proof {
                    assert(rec_views(args@) =~= seq![<MonsterType as Codec>::spec_enc(*a0)]);
                }
                r
            },
            CreatureType::Player => {
                let r = Record::Tag(String::from_str("Player"), Vec::new());
                proof {
                    assert(rec_views(Seq::<Record>::empty()) =~= Seq::<RecordV>::empty());
                }
                r
            },
            CreatureType::NPC => {
                let r = Record::Tag(String::from_str("NPC"), Vec::new());
                proof {
                    assert(rec_views(Seq::<Record>::empty()) =~= Seq::<RecordV>::empty());
                }
                r
            },
        }
    }

    fn from_record(r: &Record) -> (res: Result<CreatureType, DecodeError>) {
        match r {
            Record::Tag(t, args) => {
                if str_eq(t.as_str(), "Monster") && args.len() == 1 {
                    let a0 = match <MonsterType>::from_record(&args[0]) {
                        Ok(x) => x,
                        Err(e) => return Err(e),
                    };
                    Ok(CreatureType::Monster(a0))
                } else if str_eq(t.as_str(), "Player") && args.len() == 0 {
                    Ok(CreatureType::Player)
                } else if str_eq(t.as_str(), "NPC") && args.len() == 0 {
                    Ok(CreatureType::NPC)
                } else {
                    Err(DecodeError::Malformed)
                }
            },
            _ => Err(DecodeError::Malformed),
        }
    }

    proof fn lemma_round_trip(v: CreatureType) {
        reveal_strlit("Monster");
        reveal_strlit("Player");
        reveal_strlit("NPC");
        assert(("Player"@) != ("Monster"@)) by {
            assert(("Player"@)[0] == 'P');
            assert(("Monster"@)[0] == 'M');
        }
        assert(("NPC"@) != ("Monster"@)) by {
            assert(("NPC"@)[0] == 'N');
            assert(("Monster"@)[0] == 'M');
        }
        assert(("NPC"@) != ("Player"@)) by {
            assert(("NPC"@)[0] == 'N');
            assert(("Player"@)[0] == 'P');
        }
        match v {
            CreatureType::Monster(a0) => {
                <MonsterType as Codec>::lemma_round_trip(a0);
                assert(Self::spec_dec(Self::spec_enc(v)) == Some(v));
            },
            CreatureType::Player => {
                assert(Self::spec_dec(Self::spec_enc(CreatureType::Player)) == Some(CreatureType::Player));
            },
            CreatureType::NPC => {
                assert(Self::spec_dec(Self::spec_enc(CreatureType::NPC)) == Some(CreatureType::NPC));
            },
        }
    }
}

/// The family a monster belongs to.
#[derive(Debug, Clone, Copy, PartialEq, Eq, Structural)]
pub enum MonsterType {
    Aberration,
    Beast,
    Celestial,
    Construct,
    Dragon,
    Elemental,
    Fey,
    Fiend,
    Giant,
    Humanoid,
    Monstrosity,
    Ooze,
    Plant,
    Undead,
}

impl DeepView for MonsterType {
    type V = MonsterType;

    open spec fn deep_view(&self) -> MonsterType {
        *self
    }
}

impl MonsterType {
    /// The display text of this monster family: its name.
    pub open spec fn spec_display(self) -> Seq<char> {
        match self {
            MonsterType::Aberration => "Aberration"@,
            MonsterType::Beast => "Beast"@,
            MonsterType::Celestial => "Celestial"@,
            MonsterType::Construct => "Construct"@,
            MonsterType::Dragon => "Dragon"@,
            MonsterType::Elemental => "Elemental"@,
            MonsterType::Fey => "Fey"@,
            MonsterType::Fiend => "Fiend"@,
            MonsterType::Giant => "Giant"@,
            MonsterType::Humanoid => "Humanoid"@,
            MonsterType::Monstrosity => "Monstrosity"@,
            MonsterType::Ooze => "Ooze"@,
            MonsterType::Plant => "Plant"@,
            MonsterType::Undead => "Undead"@,
        }
    }

    /// Renders the display text of this value.
    pub fn to_string(&self) -> (s: String)
        ensures
            s@ == self.spec_display(),
    {
        match self {
            MonsterType::Aberration => String::from_str("Aberration"),
            MonsterType::Beast => String::from_str("Beast"),
            MonsterType::Celestial => String::from_str("Celestial"),
            MonsterType::Construct => String::from_str("Construct"),
            MonsterType::Dragon => String::from_str("Dragon"),
            MonsterType::Elemental => String::from_str("Elemental"),
            MonsterType::Fey => String::from_str("Fey"),
            MonsterType::Fiend => String::from_str("Fiend"),
            MonsterType::Giant => String::from_str("Giant"),
            MonsterType::Humanoid => String::from_str("Humanoid"),
            MonsterType::Monstrosity => String::from_str("Monstrosity"),
            MonsterType::Ooze => String::from_str("Ooze"),
            MonsterType::Plant => String::from_str("Plant"),
            MonsterType::Undead => String::from_str("Undead"),
        }
    }
}

impl Codec for MonsterType {
    open spec fn spec_enc(v: MonsterType) -> RecordV {
        match v {
            MonsterType::Aberration => RecordV::Tag("Aberration"@, Seq::empty()),
            MonsterType::Beast => RecordV::Tag("Beast"@, Seq::empty()),
            MonsterType::Celestial => RecordV::Tag("Celestial"@, Seq::empty()),
            MonsterType::Construct => RecordV::Tag("Construct"@, Seq::empty()),
            MonsterType::Dragon => RecordV::Tag("Dragon"@, Seq::empty()),
            MonsterType::Elemental => RecordV::Tag("Elemental"@, Seq::empty()),
            MonsterType::Fey => RecordV::Tag("Fey"@, Seq::empty()),
            MonsterType::Fiend => RecordV::Tag("Fiend"@, Seq::empty()),
            MonsterType::Giant => RecordV::Tag("Giant"@, Seq::empty()),
            MonsterType::Humanoid => RecordV::Tag("Humanoid"@, Seq::empty()),
            MonsterType::Monstrosity => RecordV::Tag("Monstrosity"@, Seq::empty()),
            MonsterType::Ooze => RecordV::Tag("Ooze"@, Seq::empty()),
            MonsterType::Plant => RecordV::Tag("Plant"@, Seq::empty()),
            MonsterType::Undead => RecordV::Tag("Undead"@, Seq::empty()),
        }
    }

    open spec fn spec_dec(r: RecordV) -> Option<MonsterType> {
        match r {
            RecordV::Tag(t, args) => {
                if t == "Aberration"@ && args.len() == 0 {
                    Some(MonsterType::Aberration)
                } else if t == "Beast"@ && args.len() == 0 {
                    Some(MonsterType::Beast)
                } else if t == "Celestial"@ && args.len() == 0 {
                    Some(MonsterType::Celestial)
                } else if t == "Construct"@ && args.len() == 0 {
                    Some(MonsterType::Construct)
                } else if t == "Dragon"@ && args.len() == 0 {
                    Some(MonsterType::Dragon)
                } else if t == "Elemental"@ && args.len() == 0 {
                    Some(MonsterType::Elemental)
                } else if t == "Fey"@ && args.len() == 0 {
                    Some(MonsterType::Fey)
                } else if t == "Fiend"@ && args.len() == 0 {
                    Some(MonsterType::Fiend)
                } else if t == "Giant"@ && args.len() == 0 {
                    Some(MonsterType::Giant)
                } else if t == "Humanoid"@ && args.len() == 0 {
                    Some(MonsterType::Humanoid)
                } else if t == "Monstrosity"@ && args.len() == 0 {
                    Some(MonsterType::Monstrosity)
                } else if t == "Ooze"@ && args.len() == 0 {
                    Some(MonsterType::Ooze)
                } else if t == "Plant"@ && args.len() == 0 {
                    Some(MonsterType::Plant)
                } else if t == "Undead"@ && args.len() == 0 {
                    Some(MonsterType::Undead)
                } else {
                    None
                }
            },
            _ => None,
        }
    }

    fn to_record(&self) -> (r: Record) {
        match self {
            MonsterType::Aberration => {
                let r = Record::Tag(String::from_str("Aberration"), Vec::new());
                proof {
                    assert(rec_views(Seq::<Record>::empty()) =~= Seq::<RecordV>::empty());
                }
                r
            },
            MonsterType::Beast => {
                let r = Record::Tag(String::from_str("Beast"), Vec::new());
                proof {
                    assert(rec_views(Seq::<Record>::empty()) =~= Seq::<RecordV>::empty());
                }
                r
            },
            MonsterType::Celestial => {
                let r = Record::Tag(String::from_str("Celestial"), Vec::new());
                proof {
                    assert(rec_views(Seq::<Record>::empty()) =~= Seq::<RecordV>::empty());
                }
                r
            },
            MonsterType::Construct => {
                let r = Record::Tag(String::from_str("Construct"), Vec::new());
                proof {
                    assert(rec_views(Seq::<Record>::empty()) =~= Seq::<RecordV>::empty());
                }
                r
            },
            MonsterType::Dragon => {
                let r = Record::Tag(String::from_str("Dragon"), Vec::new());
                proof {
                    assert(rec_views(Seq::<Record>::empty()) =~= Seq::<RecordV>::empty());
                }
                r
            },
            MonsterType::Elemental => {
                let r = Record::Tag(String::from_str("Elemental"), Vec::new());
                proof {
                    assert(rec_views(Seq::<Record>::empty()) =~= Seq::<RecordV>::empty());
                }
                r
            },
            MonsterType::Fey => {
                let r = Record::Tag(String::from_str("Fey"), Vec::new());
                proof {
                    assert(rec_views(Seq::<Record>::empty()) =~= Seq::<RecordV>::empty());
                }
                r
            },
            MonsterType::Fiend => {
                let r = Record::Tag(String::from_str("Fiend"), Vec::new());
                proof {
                    assert(rec_views(Seq::<Record>::empty()) =~= Seq::<RecordV>::empty());
                }
                r
            },
            MonsterType::Giant => {
                let r = Record::Tag(String::from_str("Giant"), Vec::new());
                proof {
                    assert(rec_views(Seq::<Record>::empty()) =~= Seq::<RecordV>::empty());
                }
                r
            },
            MonsterType::Humanoid => {
                let r = Record::Tag(String::from_str("Humanoid"), Vec::new());
                proof {
                    assert(rec_views(Seq::<Record>::empty()) =~= Seq::<RecordV>::empty());
                }
                r
            },
            MonsterType::Monstrosity => {
                let r = Record::Tag(String::from_str("Monstrosity"), Vec::new());
                proof {
                    assert(rec_views(Seq::<Record>::empty()) =~= Seq::<RecordV>::empty());
                }
                r
            },
            MonsterType::Ooze => {
                let r = Record::Tag(String::from_str("Ooze"), Vec::new());
                proof {
                    assert(rec_views(Seq::<Record>::empty()) =~= Seq::<RecordV>::empty());
                }
                r
            },
            MonsterType::Plant => {
                let r = Record::Tag(String::from_str("Plant"), Vec::new());
                proof {
                    assert(rec_views(Seq::<Record>::empty()) =~= Seq::<RecordV>::empty());
                }
                r
            },
            MonsterType::Undead => {
                let r = Record::Tag(String::from_str("Undead"), Vec::new());
                proof {
                    assert(rec_views(Seq::<Record>::empty()) =~= Seq::<RecordV>::empty());
                }
                r
            },
        }
    }

    fn from_record(r: &Record) -> (res: Result<MonsterType, DecodeError>) {
        match r {
            Record::Tag(t, args) => {
                if str_eq(t.as_str(), "Aberration") && args.len() == 0 {
                    Ok(MonsterType::Aberration)
                } else if str_eq(t.as_str(), "Beast") && args.len() == 0 {
                    Ok(MonsterType::Beast)
                } else if str_eq(t.as_str(), "Celestial") && args.len() == 0 {
                    Ok(MonsterType::Celestial)
                } else if str_eq(t.as_str(), "Construct") && args.len() == 0 {
                    Ok(MonsterType::Construct)
                } else if str_eq(t.as_str(), "Dragon") && args.len() == 0 {
                    Ok(MonsterType::Dragon)
                } else if str_eq(t.as_str(), "Elemental") && args.len() == 0 {
                    Ok(MonsterType::Elemental)
                } else if str_eq(t.as_str(), "Fey") && args.len() == 0 {
                    Ok(MonsterType::Fey)
                } else if str_eq(t.as_str(), "Fiend") && args.len() == 0 {
                    Ok(MonsterType::Fiend)
                } else if str_eq(t.as_str(), "Giant") && args.len() == 0 {
                    Ok(MonsterType::Giant)
                } else if str_eq(t.as_str(), "Humanoid") && args.len() == 0 {
                    Ok(MonsterType::Humanoid)
                } else if str_eq(t.as_str(), "Monstrosity") && args.len() == 0 {
                    Ok(MonsterType::Monstrosity)
                } else if str_eq(t.as_str(), "Ooze") && args.len() == 0 {
                    Ok(MonsterType::Ooze)
                } else if str_eq(t.as_str(), "Plant") && args.len() == 0 {
                    Ok(MonsterType::Plant)
                } else if str_eq(t.as_str(), "Undead") && args.len() == 0 {
                    Ok(MonsterType::Undead)
                } else {
                    Err(DecodeError::Malformed)
                }
            },
            _ => Err(DecodeError::Malformed),
        }
    }

    proof fn lemma_round_trip(v: MonsterType) {
        reveal_strlit("Aberration");
        reveal_strlit("Beast");
        reveal_strlit("Celestial");
        reveal_strlit("Construct");
        reveal_strlit("Dragon");
        reveal_strlit("Elemental");
        reveal_strlit("Fey");
        reveal_strlit("Fiend");
        reveal_strlit("Giant");
        reveal_strlit("Humanoid");
        reveal_strlit("Monstrosity");
        reveal_strlit("Ooze");
        reveal_strlit("Plant");
        reveal_strlit("Undead");
        assert(("Beast"@) != ("Aberration"@)) by {
            assert(("Beast"@)[0] == 'B');
            assert(("Aberration"@)[0] == 'A');
        }
        assert(("Celestial"@) != ("Aberration"@)) by {
            assert(("Celestial"@)[0] == 'C');
            assert(("Aberration"@)[0] == 'A');
        }
        assert(("Celestial"@) != ("Beast"@)) by {
            assert(("Celestial"@)[0] == 'C');
            assert(("Beast"@)[0] == 'B');
        }
        assert(("Construct"@) != ("Aberration"@)) by {
            assert(("Construct"@)[0] == 'C');
            assert(("Aberration"@)[0] == 'A');
        }
        assert(("Construct"@) != ("Beast"@)) by {
            assert(("Construct"@)[0] == 'C');
            assert(("Beast"@)[0] == 'B');
        }
        assert(("Construct"@) != ("Celestial"@)) by {
            assert(("Construct"@)[1] == 'o');
            assert(("Celestial"@)[1] == 'e');
        }
        assert(("Dragon"@) != ("Aberration"@)) by {
            assert(("Dragon"@)[0] == 'D');
            assert(("Aberration"@)[0] == 'A');
        }
        assert(("Dragon"@) != ("Beast"@)) by {
            assert(("Dragon"@)[0] == 'D');
            assert(("Beast"@)[0] == 'B');
        }
        assert(("Dragon"@) != ("Celestial"@)) by {
            assert(("Dragon"@)[0] == 'D');
            assert(("Celestial"@)[0] == 'C');
        }
        assert(("Dragon"@) != ("Construct"@)) by {
            assert(("Dragon"@)[0] == 'D');
            assert(("Construct"@)[0] == 'C');
        }
        assert(("Elemental"@) != ("Aberration"@)) by {
            assert(("Elemental"@)[0] == 'E');
            assert(("Aberration"@)[0] == 'A');
        }
        assert(("Elemental"@) != ("Beast"@)) by {
            assert(("Elemental"@)[0] == 'E');
            assert(("Beast"@)[0] == 'B');
        }
        assert(("Elemental"@) != ("Celestial"@)) by {
            assert(("Elemental"@)[0] == 'E');
            assert(("Celestial"@)[0] == 'C');
        }
        assert(("Elemental"@) != ("Construct"@)) by {
            assert(("Elemental"@)[0] == 'E');
            assert(("Construct"@)[0] == 'C');
        }
        assert(("Elemental"@) != ("Dragon"@)) by {
            assert(("Elemental"@)[0] == 'E');
            assert(("Dragon"@)[0] == 'D');
        }
        assert(("Fey"@) != ("Aberration"@)) by {
            assert(("Fey"@)[0] == 'F');
            assert(("Aberration"@)[0] == 'A');
        }
        assert(("Fey"@) != ("Beast"@)) by {
            assert(("Fey"@)[0] == 'F');
            assert(("Beast"@)[0] == 'B');
        }
        assert(("Fey"@) != ("Celestial"@)) by {
            assert(("Fey"@)[0] == 'F');
            assert(("Celestial"@)[0] == 'C');
        }
        assert(("Fey"@) != ("Construct"@)) by {
            assert(("Fey"@)[0] == 'F');
            assert(("Construct"@)[0] == 'C');
        }
        assert(("Fey"@) != ("Dragon"@)) by {
            assert(("Fey"@)[0] == 'F');
            assert(("Dragon"@)[0] == 'D');
        }
        assert(("Fey"@) != ("Elemental"@)) by {
            assert(("Fey"@)[0] == 'F');
            assert(("Elemental"@)[0] == 'E');
        }
        assert(("Fiend"@) != ("Aberration"@)) by {
            assert(("Fiend"@)[0] == 'F');
            assert(("Aberration"@)[0] == 'A');
        }
        assert(("Fiend"@) != ("Beast"@)) by {
            assert(("Fiend"@)[0] == 'F');
            assert(("Beast"@)[0] == 'B');
        }
        assert(("Fiend"@) != ("Celestial"@)) by {
            assert(("Fiend"@)[0] == 'F');
            assert(("Celestial"@)[0] == 'C');
        }
        assert(("Fiend"@) != ("Construct"@)) by {
            assert(("Fiend"@)[0] == 'F');
            assert(("Construct"@)[0] == 'C');
        }
        assert(("Fiend"@) != ("Dragon"@)) by {
            assert(("Fiend"@)[0] == 'F');
            assert(("Dragon"@)[0] == 'D');
        }
        assert(("Fiend"@) != ("Elemental"@)) by {
            assert(("Fiend"@)[0] == 'F');
            assert(("Elemental"@)[0] == 'E');
        }
        assert(("Fiend"@) != ("Fey"@)) by {
            assert(("Fiend"@)[1] == 'i');
            assert(("Fey"@)[1] == 'e');
        }
        assert(("Giant"@) != ("Aberration"@)) by {
            assert(("Giant"@)[0] == 'G');
            assert(("Aberration"@)[0] == 'A');
        }
        assert(("Giant"@) != ("Beast"@)) by {
            assert(("Giant"@)[0] == 'G');
            assert(("Beast"@)[0] == 'B');
        }
        assert(("Giant"@) != ("Celestial"@)) by {
            assert(("Giant"@)[0] == 'G');
            assert(("Celestial"@)[0] == 'C');
        }
        assert(("Giant"@) != ("Construct"@)) by {
            assert(("Giant"@)[0] == 'G');
            assert(("Construct"@)[0] == 'C');
        }
        assert(("Giant"@) != ("Dragon"@)) by {
            assert(("Giant"@)[0] == 'G');
            assert(("Dragon"@)[0] == 'D');
        }
        assert(("Giant"@) != ("Elemental"@)) by {
            assert(("Giant"@)[0] == 'G');
            assert(("Elemental"@)[0] == 'E');
        }
        assert(("Giant"@) != ("Fey"@)) by {
            assert(("Giant"@)[0] == 'G');
            assert(("Fey"@)[0] == 'F');
        }
        assert(("Giant"@) != ("Fiend"@)) by {
            assert(("Giant"@)[0] == 'G');
            assert(("Fiend"@)[0] == 'F');
        }
        assert(("Humanoid"@) != ("Aberration"@)) by {
            assert(("Humanoid"@)[0] == 'H');
            assert(("Aberration"@)[0] == 'A');
        }
        assert(("Humanoid"@) != ("Beast"@)) by {
            assert(("Humanoid"@)[0] == 'H');
            assert(("Beast"@)[0] == 'B');
        }
        assert(("Humanoid"@) != ("Celestial"@)) by {
            assert(("Humanoid"@)[0] == 'H');
            assert(("Celestial"@)[0] == 'C');
        }
        assert(("Humanoid"@) != ("Construct"@)) by {
            assert(("Humanoid"@)[0] == 'H');
            assert(("Construct"@)[0] == 'C');
        }
        assert(("Humanoid"@) != ("Dragon"@)) by {
            assert(("Humanoid"@)[0] == 'H');
            assert(("Dragon"@)[0] == 'D');
        }
        assert(("Humanoid"@) != ("Elemental"@)) by {
            assert(("Humanoid"@)[0] == 'H');
            assert(("Elemental"@)[0] == 'E');
        }
        assert(("Humanoid"@) != ("Fey"@)) by {
            assert(("Humanoid"@)[0] == 'H');
            assert(("Fey"@)[0] == 'F');
        }
        assert(("Humanoid"@) != ("Fiend"@)) by {
            assert(("Humanoid"@)[0] == 'H');
            assert(("Fiend"@)[0] == 'F');
        }
        assert(("Humanoid"@) != ("Giant"@)) by {
            assert(("Humanoid"@)[0] == 'H');
            assert(("Giant"@)[0] == 'G');
        }
        assert(("Monstrosity"@) != ("Aberration"@)) by {
            assert(("Monstrosity"@)[0] == 'M');
            assert(("Aberration"@)[0] == 'A');
        }
        assert(("Monstrosity"@) != ("Beast"@)) by {
            assert(("Monstrosity"@)[0] == 'M');
            assert(("Beast"@)[0] == 'B');
        }
        assert(("Monstrosity"@) != ("Celestial"@)) by {
            assert(("Monstrosity"@)[0] == 'M');
            assert(("Celestial"@)[0] == 'C');
        }
        assert(("Monstrosity"@) != ("Construct"@)) by {
            assert(("Monstrosity"@)[0] == 'M');
            assert(("Construct"@)[0] == 'C');
        }
        assert(("Monstrosity"@) != ("Dragon"@)) by {
            assert(("Monstrosity"@)[0] == 'M');
            assert(("Dragon"@)[0] == 'D');
        }
        assert(("Monstrosity"@) != ("Elemental"@)) by {
            assert(("Monstrosity"@)[0] == 'M');
            assert(("Elemental"@)[0] == 'E');
        }
        assert(("Monstrosity"@) != ("Fey"@)) by {
            assert(("Monstrosity"@)[0] == 'M');
            assert(("Fey"@)[0] == 'F');
        }
        assert(("Monstrosity"@) != ("Fiend"@)) by {
            assert(("Monstrosity"@)[0] == 'M');
            assert(("Fiend"@)[0] == 'F');
        }
        assert(("Monstrosity"@) != ("Giant"@)) by {
            assert(("Monstrosity"@)[0] == 'M');
            assert(("Giant"@)[0] == 'G');
        }
        assert(("Monstrosity"@) != ("Humanoid"@)) by {
            assert(("Monstrosity"@)[0] == 'M');
            assert(("Humanoid"@)[0] == 'H');
        }
        assert(("Ooze"@) != ("Aberration"@)) by {
            assert(("Ooze"@)[0] == 'O');
            assert(("Aberration"@)[0] == 'A');
        }
        assert(("Ooze"@) != ("Beast"@)) by {
            assert(("Ooze"@)[0] == 'O');
            assert(("Beast"@)[0] == 'B');
        }
        assert(("Ooze"@) != ("Celestial"@)) by {
            assert(("Ooze"@)[0] == 'O');
            assert(("Celestial"@)[0] == 'C');
        }
        assert(("Ooze"@) != ("Construct"@)) by {
            assert(("Ooze"@)[0] == 'O');
            assert(("Construct"@)[0] == 'C');
        }
        assert(("Ooze"@) != ("Dragon"@)) by {
            assert(("Ooze"@)[0] == 'O');
            assert(("Dragon"@)[0] == 'D');
        }
        assert(("Ooze"@) != ("Elemental"@)) by {
            assert(("Ooze"@)[0] == 'O');
            assert(("Elemental"@)[0] == 'E');
        }
        assert(("Ooze"@) != ("Fey"@)) by {
            assert(("Ooze"@)[0] == 'O');
            assert(("Fey"@)[0] == 'F');
        }
        assert(("Ooze"@) != ("Fiend"@)) by {
            assert(("Ooze"@)[0] == 'O');
            assert(("Fiend"@)[0] == 'F');
        }
        assert(("Ooze"@) != ("Giant"@)) by {
            assert(("Ooze"@)[0] == 'O');
            assert(("Giant"@)[0] == 'G');
        }
        assert(("Ooze"@) != ("Humanoid"@)) by {
            assert(("Ooze"@)[0] == 'O');
            assert(("Humanoid"@)[0] == 'H');
        }
        assert(("Ooze"@) != ("Monstrosity"@)) by {
            assert(("Ooze"@)[0] == 'O');
            assert(("Monstrosity"@)[0] == 'M');
        }
        assert(("Plant"@) != ("Aberration"@)) by {
            assert(("Plant"@)[0] == 'P');
            assert(("Aberration"@)[0] == 'A');
        }
        assert(("Plant"@) != ("Beast"@)) by {
            assert(("Plant"@)[0] == 'P');
            assert(("Beast"@)[0] == 'B');
        }
        assert(("Plant"@) != ("Celestial"@)) by {
            assert(("Plant"@)[0] == 'P');
            assert(("Celestial"@)[0] == 'C');
        }
        assert(("Plant"@) != ("Construct"@)) by {
            assert(("Plant"@)[0] == 'P');
            assert(("Construct"@)[0] == 'C');
        }
        assert(("Plant"@) != ("Dragon"@)) by {
            assert(("Plant"@)[0] == 'P');
            assert(("Dragon"@)[0] == 'D');
        }
        assert(("Plant"@) != ("Elemental"@)) by {
            assert(("Plant"@)[0] == 'P');
            assert(("Elemental"@)[0] == 'E');
        }
        assert(("Plant"@) != ("Fey"@)) by {
            assert(("Plant"@)[0] == 'P');
            assert(("Fey"@)[0] == 'F');
        }
        assert(("Plant"@) != ("Fiend"@)) by {
            assert(("Plant"@)[0] == 'P');
            assert(("Fiend"@)[0] == 'F');
        }
        assert(("Plant"@) != ("Giant"@)) by {
            assert(("Plant"@)[0] == 'P');
            assert(("Giant"@)[0] == 'G');
        }
        assert(("Plant"@) != ("Humanoid"@)) by {
            assert(("Plant"@)[0] == 'P');
            assert(("Humanoid"@)[0] == 'H');
        }
        assert(("Plant"@) != ("Monstrosity"@)) by {
            assert(("Plant"@)[0] == 'P');
            assert(("Monstrosity"@)[0] == 'M');
        }
        assert(("Plant"@) != ("Ooze"@)) by {
            assert(("Plant"@)[0] == 'P');
            assert(("Ooze"@)[0] == 'O');
        }
        assert(("Undead"@) != ("Aberration"@)) by {
            assert(("Undead"@)[0] == 'U');
            assert(("Aberration"@)[0] == 'A');
        }
        assert(("Undead"@) != ("Beast"@)) by {
            assert(("Undead"@)[0] == 'U');
            assert(("Beast"@)[0] == 'B');
        }
        assert(("Undead"@) != ("Celestial"@)) by {
            assert(("Undead"@)[0] == 'U');
            assert(("Celestial"@)[0] == 'C');
        }
        assert(("Undead"@) != ("Construct"@)) by {
            assert(("Undead"@)[0] == 'U');
            assert(("Construct"@)[0] == 'C');
        }
        assert(("Undead"@) != ("Dragon"@)) by {
            assert(("Undead"@)[0] == 'U');
            assert(("Dragon"@)[0] == 'D');
        }
        assert(("Undead"@) != ("Elemental"@)) by {
            assert(("Undead"@)[0] == 'U');
            assert(("Elemental"@)[0] == 'E');
        }
        assert(("Undead"@) != ("Fey"@)) by {
            assert(("Undead"@)[0] == 'U');
            assert(("Fey"@)[0] == 'F');
        }
        assert(("Undead"@) != ("Fiend"@)) by {
            assert(("Undead"@)[0] == 'U');
            assert(("Fiend"@)[0] == 'F');
        }
        assert(("Undead"@) != ("Giant"@)) by {
            assert(("Undead"@)[0] == 'U');
            assert(("Giant"@)[0] == 'G');
        }
        assert(("Undead"@) != ("Humanoid"@)) by {
            assert(("Undead"@)[0] == 'U');
            assert(("Humanoid"@)[0] == 'H');
        }
        assert(("Undead"@) != ("Monstrosity"@)) by {
            assert(("Undead"@)[0] == 'U');
            assert(("Monstrosity"@)[0] == 'M');
        }
        assert(("Undead"@) != ("Ooze"@)) by {
            assert(("Undead"@)[0] == 'U');
            assert(("Ooze"@)[0] == 'O');
        }
        assert(("Undead"@) != ("Plant"@)) by {
            assert(("Undead"@)[0] == 'U');
            assert(("Plant"@)[0] == 'P');
        }
        match v {
            MonsterType::Aberration => {
                assert(Self::spec_dec(Self::spec_enc(MonsterType::Aberration)) == Some(MonsterType::Aberration));
            },
            MonsterType::Beast => {
                assert(Self::spec_dec(Self::spec_enc(MonsterType::Beast)) == Some(MonsterType::Beast));
            },
            MonsterType::Celestial => {
                assert(Self::spec_dec(Self::spec_enc(MonsterType::Celestial)) == Some(MonsterType::Celestial));
            },
            MonsterType::Construct => {
                assert(Self::spec_dec(Self::spec_enc(MonsterType::Construct)) == Some(MonsterType::Construct));
            },
            MonsterType::Dragon => {
                assert(Self::spec_dec(Self::spec_enc(MonsterType::Dragon)) == Some(MonsterType::Dragon));
            },
            MonsterType::Elemental => {
                assert(Self::spec_dec(Self::spec_enc(MonsterType::Elemental)) == Some(MonsterType::Elemental));
            },
            MonsterType::Fey => {
                assert(Self::spec_dec(Self::spec_enc(MonsterType::Fey)) == Some(MonsterType::Fey));
            },
            MonsterType::Fiend => {
                assert(Self::spec_dec(Self::spec_enc(MonsterType::Fiend)) == Some(MonsterType::Fiend));
            },
            MonsterType::Giant => {
                assert(Self::spec_dec(Self::spec_enc(MonsterType::Giant)) == Some(MonsterType::Giant));
            },
            MonsterType::Humanoid => {
                assert(Self::spec_dec(Self::spec_enc(MonsterType::Humanoid)) == Some(MonsterType::Humanoid));
            },
            MonsterType::Monstrosity => {
                assert(Self::spec_dec(Self::spec_enc(MonsterType::Monstrosity)) == Some(MonsterType::Monstrosity));
            },
            MonsterType::Ooze => {
                assert(Self::spec_dec(Self::spec_enc(MonsterType::Ooze)) == Some(MonsterType::Ooze));
            },
            MonsterType::Plant => {
                assert(Self::spec_dec(Self::spec_enc(MonsterType::Plant)) == Some(MonsterType::Plant));
            },
            MonsterType::Undead => {
                assert(Self::spec_dec(Self::spec_enc(MonsterType::Undead)) == Some(MonsterType::Undead));
            },
        }
    }
}

/// A named racial trait and its description.
#[derive(Debug, Clone, PartialEq)]
pub struct RacialTrait {
    pub name: String,
    pub description: String,
}

/// The mathematical form of a [`RacialTrait`].
#[verifier::ext_equal]
pub struct RacialTraitView {
    pub name: Seq<char>,
    pub description: Seq<char>,
}

impl DeepView for RacialTrait {
    type V = RacialTraitView;

    open spec fn deep_view(&self) -> RacialTraitView {
        RacialTraitView {
            name: self.name@,
            description: self.description@,
        }
    }
}

impl Codec for RacialTrait {
    open spec fn spec_enc(v: RacialTraitView) -> RecordV {
        RecordV::Obj(
            seq![
                ("name"@, <String as Codec>::spec_enc(v.name)),
                ("description"@, <String as Codec>::spec_enc(v.description)),
            ],
        )
    }

    open spec fn spec_dec(r: RecordV) -> Option<RacialTraitView> {
        match r {
            RecordV::Obj(fields) => if fields.len() == 2
                && fields[0].0 == "name"@
                && fields[1].0 == "description"@ {
                match (<String as Codec>::spec_dec(fields[0].1), <String as Codec>::spec_dec(fields[1].1)) {
                    (Some(f_name), Some(f_description)) => Some(RacialTraitView { name: f_name, description: f_description }),
                    _ => None,
                }
            } else {
                None
            },
            _ => None,
        }
    }

    fn to_record(&self) -> (r: Record) {
        let mut fs: Vec<(String, Record)> = Vec::new();
        fs.push((String::from_str("name"), self.name.to_record()));
        fs.push((String::from_str("description"), self.description.to_record()));
        let r = Record::Obj(fs);
        proof {
            assert(field_views(fs@) =~= seq![
                ("name"@, <String as Codec>::spec_enc(self.name@)),
                ("description"@, <String as Codec>::spec_enc(self.description@)),
            ]);
        }
        r
    }

    fn from_record(r: &Record) -> (res: Result<RacialTrait, DecodeError>) {
        match r {
            Record::Obj(fs) => {
                if fs.len() != 2 {
                    return Err(DecodeError::Malformed);
                }
                let e0 = &fs[0];
                if !str_eq(e0.0.as_str(), "name") {
                    return Err(DecodeError::Malformed);
                }
                let f_name = match <String>::from_record(&e0.1) {
                    Ok(x) => x,
                    Err(e) => return Err(e),
                };
                let e1 = &fs[1];
                if !str_eq(e1.0.as_str(), "description") {
                    return Err(DecodeError::Malformed);
                }
                let f_description = match <String>::from_record(&e1.1) {
                    Ok(x) => x,
                    Err(e) => return Err(e),
                };
                Ok(RacialTrait { name: f_name, description: f_description })
            },
            _ => Err(DecodeError::Malformed),
        }
    }

    proof fn lemma_round_trip(v: RacialTraitView) {
        <String as Codec>::lemma_round_trip(v.name);
        <String as Codec>::lemma_round_trip(v.description);
    }
}

/// A paragraph of lair or regional-effect prose, possibly bulleted.
#[derive(Debug, Clone, PartialEq)]
pub struct Paragraph {
    pub paragraph: String,
    pub bullet: bool,
}

/// The mathematical form of a [`Paragraph`].
#[verifier::ext_equal]
pub struct ParagraphView {
    pub paragraph: Seq<char>,
    pub bullet: bool,
}

impl DeepView for Paragraph {
    type V = ParagraphView;

    open spec fn deep_view(&self) -> ParagraphView {
        ParagraphView {
            paragraph: self.paragraph@,
            bullet: self.bullet,
        }
    }
}

impl Codec for Paragraph {
    open spec fn spec_enc(v: ParagraphView) -> RecordV {
        RecordV::Obj(
            seq![
                ("paragraph"@, <String as Codec>::spec_enc(v.paragraph)),
                ("bullet"@, <bool as Codec>::spec_enc(v.bullet)),
            ],
        )
    }

    open spec fn spec_dec(r: RecordV) -> Option<ParagraphView> {
        match r {
            RecordV::Obj(fields) => if fields.len() == 2
                && fields[0].0 == "paragraph"@
                && fields[1].0 == "bullet"@ {
                match (<String as Codec>::spec_dec(fields[0].1), <bool as Codec>::spec_dec(fields[1].1)) {
                    (Some(f_paragraph), Some(f_bullet)) => Some(ParagraphView { paragraph: f_paragraph, bullet: f_bullet }),
                    _ => None,
                }
            } else {
                None
            },
            _ => None,
        }
    }

    fn to_record(&self) -> (r: Record) {
        let mut fs: Vec<(String, Record)> = Vec::new();
        fs.push((String::from_str("paragraph"), self.paragraph.to_record()));
        fs.push((String::from_str("bullet"), self.bullet.to_record()));
        let r = Record::Obj(fs);
        proof {
            assert(field_views(fs@) =~= seq![
                ("paragraph"@, <String as Codec>::spec_enc(self.paragraph@)),
                ("bullet"@, <bool as Codec>::spec_enc(self.bullet)),
            ]);
        }
        r
    }

    fn from_record(r: &Record) -> (res: Result<Paragraph, DecodeError>) {
        match r {
            Record::Obj(fs) => {
                if fs.len() != 2 {
                    return Err(DecodeError::Malformed);
                }
                let e0 = &fs[0];
                if !str_eq(e0.0.as_str(), "paragraph") {
                    return Err(DecodeError::Malformed);
                }
                let f_paragraph = match <String>::from_record(&e0.1) {
                    Ok(x) => x,
                    Err(e) => return Err(e),
                };
                let e1 = &fs[1];
                if !str_eq(e1.0.as_str(), "bullet") {
                    return Err(DecodeError::Malformed);
                }
                let f_bullet = match <bool>::from_record(&e1.1) {
                    Ok(x) => x,
                    Err(e) => return Err(e),
                };
                Ok(Paragraph { paragraph: f_paragraph, bullet: f_bullet })
            },
            _ => Err(DecodeError::Malformed),
        }
    }

    proof fn lemma_round_trip(v: ParagraphView) {
        <String as Codec>::lemma_round_trip(v.paragraph);
        <bool as Codec>::lemma_round_trip(v.bullet);
    }
}

/// A creature's lair: its description, lair actions and regional effects.
#[derive(Debug, Clone, PartialEq)]
pub struct Lair {
    pub name: String,
    pub description: String,
    pub lair_actions: Vec<Paragraph>,
    pub regional_effects: Vec<Paragraph>,
}

/// The mathematical form of a [`Lair`].
#[verifier::ext_equal]
pub struct LairView {
    pub name: Seq<char>,
    pub description: Seq<char>,
    pub lair_actions: Seq<ParagraphView>,
    pub regional_effects: Seq<ParagraphView>,
}

impl DeepView for Lair {
    type V = LairView;

    open spec fn deep_view(&self) -> LairView {
        LairView {
            name: self.name@,
            description: self.description@,
            lair_actions: self.lair_actions.deep_view(),
            regional_effects: self.regional_effects.deep_view(),
        }
    }
}

impl Codec for Lair {
    open spec fn spec_enc(v: LairView) -> RecordV {
        RecordV::Obj(
            seq![
                ("name"@, <String as Codec>::spec_enc(v.name)),
                ("description"@, <String as Codec>::spec_enc(v.description)),
                ("lair_actions"@, <Vec<Paragraph> as Codec>::spec_enc(v.lair_actions)),
                ("regional_effects"@, <Vec<Paragraph> as Codec>::spec_enc(v.regional_effects)),
            ],
        )
    }

    open spec fn spec_dec(r: RecordV) -> Option<LairView> {
        match r {
            RecordV::Obj(fields) => if fields.len() == 4
                && fields[0].0 == "name"@
                && fields[1].0 == "description"@
                && fields[2].0 == "lair_actions"@
                && fields[3].0 == "regional_effects"@ {
                match (<String as Codec>::spec_dec(fields[0].1), <String as Codec>::spec_dec(fields[1].1), <Vec<Paragraph> as Codec>::spec_dec(fields[2].1), <Vec<Paragraph> as Codec>::spec_dec(fields[3].1)) {
                    (Some(f_name), Some(f_description), Some(f_lair_actions), Some(f_regional_effects)) => Some(LairView { name: f_name, description: f_description, lair_actions: f_lair_actions, regional_effects: f_regional_effects }),
                    _ => None,
                }
            } else {
                None
            },
            _ => None,
        }
    }

    fn to_record(&self) -> (r: Record) {
        let mut fs: Vec<(String, Record)> = Vec::new();
        fs.push((String::from_str("name"), self.name.to_record()));
        fs.push((String::from_str("description"), self.description.to_record()));
        fs.push((String::from_str("lair_actions"), self.lair_actions.to_record()));
        fs.push((String::from_str("regional_effects"), self.regional_effects.to_record()));
        let r = Record::Obj(fs);
        proof {
            assert(field_views(fs@) =~= seq![
                ("name"@, <String as Codec>::spec_enc(self.name@)),
                ("description"@, <String as Codec>::spec_enc(self.description@)),
                ("lair_actions"@, <Vec<Paragraph> as Codec>::spec_enc(self.lair_actions.deep_view())),
                ("regional_effects"@, <Vec<Paragraph> as Codec>::spec_enc(self.regional_effects.deep_view())),
            ]);
        }
        r
    }

    fn from_record(r: &Record) -> (res: Result<Lair, DecodeError>) {
        match r {
            Record::Obj(fs) => {
                if fs.len() != 4 {
                    return Err(DecodeError::Malformed);
                }
                let e0 = &fs[0];
                if !str_eq(e0.0.as_str(), "name") {
                    return Err(DecodeError::Malformed);
                }
                let f_name = match <String>::from_record(&e0.1) {
                    Ok(x) => x,
                    Err(e) => return Err(e),
                };
                let e1 = &fs[1];
                if !str_eq(e1.0.as_str(), "description") {
                    return Err(DecodeError::Malformed);
                }
                let f_description = match <String>::from_record(&e1.1) {
                    Ok(x) => x,
                    Err(e) => return Err(e),
                };
                let e2 = &fs[2];
                if !str_eq(e2.0.as_str(), "lair_actions") {
                    return Err(DecodeError::Malformed);
                }
                let f_lair_actions = match <Vec<Paragraph>>::from_record(&e2.1) {
                    Ok(x) => x,
                    Err(e) => return Err(e),
                };
                let e3 = &fs[3];
                if !str_eq(e3.0.as_str(), "regional_effects") {
                    return Err(DecodeError::Malformed);
                }
                let f_regional_effects = match <Vec<Paragraph>>::from_record(&e3.1) {
                    Ok(x) => x,
                    Err(e) => return Err(e),
                };
                Ok(Lair { name: f_name, description: f_description, lair_actions: f_lair_actions, regional_effects: f_regional_effects })
            },
            _ => Err(DecodeError::Malformed),
        }
    }

    proof fn lemma_round_trip(v: LairView) {
        <String as Codec>::lemma_round_trip(v.name);
        <String as Codec>::lemma_round_trip(v.description);
        <Vec<Paragraph> as Codec>::lemma_round_trip(v.lair_actions);
        <Vec<Paragraph> as Codec>::lemma_round_trip(v.regional_effects);
    }
}

impl Codec for Creature {
    open spec fn spec_enc(v: CreatureView) -> RecordV {
        RecordV::Obj(
            seq![
                ("id"@, <String as Codec>::spec_enc(v.id)),
                ("name"@, <String as Codec>::spec_enc(v.name)),
                ("creature_type"@, <CreatureType as Codec>::spec_enc(v.creature_type)),
                ("alignment"@, <Alignment as Codec>::spec_enc(v.alignment)),
                ("armor_class"@, <i32 as Codec>::spec_enc(v.armor_class)),
                ("health_points"@, <Health as Codec>::spec_enc(v.health_points)),
                ("speed"@, <MovementSpeed as Codec>::spec_enc(v.speed)),
                ("stats"@, <Vec<Stat> as Codec>::spec_enc(v.stats)),
                ("saving_throws"@, <Option<Vec<Stat>> as Codec>::spec_enc(v.saving_throws)),
                ("damage_resistances"@, <Option<Vec<DamageType>> as Codec>::spec_enc(v.damage_resistances)),
                ("damage_immunities"@, <Option<Vec<DamageType>> as Codec>::spec_enc(v.damage_immunities)),
                ("damage_vulnerabilities"@, <Option<Vec<DamageType>> as Codec>::spec_enc(v.damage_vulnerabilities)),
                ("condition_immunities"@, <Option<Vec<ConditionType>> as Codec>::spec_enc(v.condition_immunities)),
                ("skills"@, <Option<Vec<Skill>> as Codec>::spec_enc(v.skills)),
                ("senses"@, <Option<Vec<Sense>> as Codec>::spec_enc(v.senses)),
                ("languages"@, <Option<Vec<Language>> as Codec>::spec_enc(v.languages)),
                ("challenge_rating"@, <String as Codec>::spec_enc(v.challenge_rating)),
                ("racial_traits"@, <Option<Vec<RacialTrait>> as Codec>::spec_enc(v.racial_traits)),
                ("description"@, <Option<String> as Codec>::spec_enc(v.description)),
                ("actions"@, <Option<Vec<Action>> as Codec>::spec_enc(v.actions)),
                ("lair"@, <Option<Lair> as Codec>::spec_enc(v.lair)),
                ("others"@, <Option<Vec<OtherAttribute>> as Codec>::spec_enc(v.others)),
            ],
        )
    }

    open spec fn spec_dec(r: RecordV) -> Option<CreatureView> {
        match r {
            RecordV::Obj(fields) => if fields.len() == 22
                && fields[0].0 == "id"@
                && fields[1].0 == "name"@
                && fields[2].0 == "creature_type"@
                && fields[3].0 == "alignment"@
                && fields[4].0 == "armor_class"@
                && fields[5].0 == "health_points"@
                && fields[6].0 == "speed"@
                && fields[7].0 == "stats"@
                && fields[8].0 == "saving_throws"@
                && fields[9].0 == "damage_resistances"@
                && fields[10].0 == "damage_immunities"@
                && fields[11].0 == "damage_vulnerabilities"@
                && fields[12].0 == "condition_immunities"@
                && fields[13].0 == "skills"@
                && fields[14].0 == "senses"@
                && fields[15].0 == "languages"@
                && fields[16].0 == "challenge_rating"@
                && fields[17].0 == "racial_traits"@
                && fields[18].0 == "description"@
                && fields[19].0 == "actions"@
                && fields[20].0 == "lair"@
                && fields[21].0 == "others"@ {
                match (<String as Codec>::spec_dec(fields[0].1), <String as Codec>::spec_dec(fields[1].1), <CreatureType as Codec>::spec_dec(fields[2].1), <Alignment as Codec>::spec_dec(fields[3].1), <i32 as Codec>::spec_dec(fields[4].1), <Health as Codec>::spec_dec(fields[5].1), <MovementSpeed as Codec>::spec_dec(fields[6].1), <Vec<Stat> as Codec>::spec_dec(fields[7].1), <Option<Vec<Stat>> as Codec>::spec_dec(fields[8].1), <Option<Vec<DamageType>> as Codec>::spec_dec(fields[9].1), <Option<Vec<DamageType>> as Codec>::spec_dec(fields[10].1), <Option<Vec<DamageType>> as Codec>::spec_dec(fields[11].1), <Option<Vec<ConditionType>> as Codec>::spec_dec(fields[12].1), <Option<Vec<Skill>> as Codec>::spec_dec(fields[13].1), <Option<Vec<Sense>> as Codec>::spec_dec(fields[14].1), <Option<Vec<Language>> as Codec>::spec_dec(fields[15].1), <String as Codec>::spec_dec(fields[16].1), <Option<Vec<RacialTrait>> as Codec>::spec_dec(fields[17].1), <Option<String> as Codec>::spec_dec(fields[18].1), <Option<Vec<Action>> as Codec>::spec_dec(fields[19].1), <Option<Lair> as Codec>::spec_dec(fields[20].1), <Option<Vec<OtherAttribute>> as Codec>::spec_dec(fields[21].1)) {
                    (Some(f_id), Some(f_name), Some(f_creature_type), Some(f_alignment), Some(f_armor_class), Some(f_health_points), Some(f_speed), Some(f_stats), Some(f_saving_throws), Some(f_damage_resistances), Some(f_damage_immunities), Some(f_damage_vulnerabilities), Some(f_condition_immunities), Some(f_skills), Some(f_senses), Some(f_languages), Some(f_challenge_rating), Some(f_racial_traits), Some(f_description), Some(f_actions), Some(f_lair), Some(f_others)) => Some(CreatureView { id: f_id, name: f_name, creature_type: f_creature_type, alignment: f_alignment, armor_class: f_armor_class, health_points: f_health_points, speed: f_speed, stats: f_stats, saving_throws: f_saving_throws, damage_resistances: f_damage_resistances, damage_immunities: f_damage_immunities, damage_vulnerabilities: f_damage_vulnerabilities, condition_immunities: f_condition_immunities, skills: f_skills, senses: f_senses, languages: f_languages, challenge_rating: f_challenge_rating, racial_traits: f_racial_traits, description: f_description, actions: f_actions, lair: f_lair, others: f_others }),
                    _ => None,
                }
            } else {
                None
            },
            _ => None,
        }
    }

    fn to_record(&self) -> (r: Record) {
        let mut fs: Vec<(String, Record)> = Vec::new();
        fs.push((String::from_str("id"), self.id.to_record()));
        fs.push((String::from_str("name"), self.name.to_record()));
        fs.push((String::from_str("creature_type"), self.creature_type.to_record()));
        fs.push((String::from_str("alignment"), self.alignment.to_record()));
        fs.push((String::from_str("armor_class"), self.armor_class.to_record()));
        fs.push((String::from_str("health_points"), self.health_points.to_record()));
        fs.push((String::from_str("speed"), self.speed.to_record()));
        fs.push((String::from_str("stats"), self.stats.to_record()));
        fs.push((String::from_str("saving_throws"), self.saving_throws.to_record()));
        fs.push((String::from_str("damage_resistances"), self.damage_resistances.to_record()));
        fs.push((String::from_str("damage_immunities"), self.damage_immunities.to_record()));
        fs.push((String::from_str("damage_vulnerabilities"), self.damage_vulnerabilities.to_record()));
        fs.push((String::from_str("condition_immunities"), self.condition_immunities.to_record()));
        fs.push((String::from_str("skills"), self.skills.to_record()));
        fs.push((String::from_str("senses"), self.senses.to_record()));
        fs.push((String::from_str("languages"), self.languages.to_record()));
        fs.push((String::from_str("challenge_rating"), self.challenge_rating.to_record()));
        fs.push((String::from_str("racial_traits"), self.racial_traits.to_record()));
        fs.push((String::from_str("description"), self.description.to_record()));
        fs.push((String::from_str("actions"), self.actions.to_record()));
        fs.push((String::from_str("lair"), self.lair.to_record()));
        fs.push((String::from_str("others"), self.others.to_record()));
        let r = Record::Obj(fs);
        proof {
            assert(field_views(fs@) =~= seq![
                ("id"@, <String as Codec>::spec_enc(self.id@)),
                ("name"@, <String as Codec>::spec_enc(self.name@)),
                ("creature_type"@, <CreatureType as Codec>::spec_enc(self.creature_type)),
                ("alignment"@, <Alignment as Codec>::spec_enc(self.alignment)),
                ("armor_class"@, <i32 as Codec>::spec_enc(self.armor_class)),
                ("health_points"@, <Health as Codec>::spec_enc(self.health_points)),
                ("speed"@, <MovementSpeed as Codec>::spec_enc(self.speed)),
                ("stats"@, <Vec<Stat> as Codec>::spec_enc(self.stats.deep_view())),
                ("saving_throws"@, <Option<Vec<Stat>> as Codec>::spec_enc(self.saving_throws.deep_view())),
                ("damage_resistances"@, <Option<Vec<DamageType>> as Codec>::spec_enc(self.damage_resistances.deep_view())),
                ("damage_immunities"@, <Option<Vec<DamageType>> as Codec>::spec_enc(self.damage_immunities.deep_view())),
                ("damage_vulnerabilities"@, <Option<Vec<DamageType>> as Codec>::spec_enc(self.damage_vulnerabilities.deep_view())),
                ("condition_immunities"@, <Option<Vec<ConditionType>> as Codec>::spec_enc(self.condition_immunities.deep_view())),
                ("skills"@, <Option<Vec<Skill>> as Codec>::spec_enc(self.skills.deep_view())),
                ("senses"@, <Option<Vec<Sense>> as Codec>::spec_enc(self.senses.deep_view())),
                ("languages"@, <Option<Vec<Language>> as Codec>::spec_enc(self.languages.deep_view())),
                ("challenge_rating"@, <String as Codec>::spec_enc(self.challenge_rating@)),
                ("racial_traits"@, <Option<Vec<RacialTrait>> as Codec>::spec_enc(self.racial_traits.deep_view())),
                ("description"@, <Option<String> as Codec>::spec_enc(self.description.deep_view())),
                ("actions"@, <Option<Vec<Action>> as Codec>::spec_enc(self.actions.deep_view())),
                ("lair"@, <Option<Lair> as Codec>::spec_enc(self.lair.deep_view())),
                ("others"@, <Option<Vec<OtherAttribute>> as Codec>::spec_enc(self.others.deep_view())),
            ]);
        }
        r
    }

    fn from_record(r: &Record) -> (res: Result<Creature, DecodeError>) {
        match r {
            Record::Obj(fs) => {
                if fs.len() != 22 {
                    return Err(DecodeError::Malformed);
                }
                let e0 = &fs[0];
                if !str_eq(e0.0.as_str(), "id") {
                    return Err(DecodeError::Malformed);
                }
                let f_id = match <String>::from_record(&e0.1) {
                    Ok(x) => x,
                    Err(e) => return Err(e),
                };
                let e1 = &fs[1];
                if !str_eq(e1.0.as_str(), "name") {
                    return Err(DecodeError::Malformed);
                }
                let f_name = match <String>::from_record(&e1.1) {
                    Ok(x) => x,
                    Err(e) => return Err(e),
                };
                let e2 = &fs[2];
                if !str_eq(e2.0.as_str(), "creature_type") {
                    return Err(DecodeError::Malformed);
                }
                let f_creature_type = match <CreatureType>::from_record(&e2.1) {
                    Ok(x) => x,
                    Err(e) => return Err(e),
                };
                let e3 = &fs[3];
                if !str_eq(e3.0.as_str(), "alignment") {
                    return Err(DecodeError::Malformed);
                }
                let f_alignment = match <Alignment>::from_record(&e3.1) {
                    Ok(x) => x,
                    Err(e) => return Err(e),
                };
                let e4 = &fs[4];
                if !str_eq(e4.0.as_str(), "armor_class") {
                    return Err(DecodeError::Malformed);
                }
                let f_armor_class = match <i32>::from_record(&e4.1) {
                    Ok(x) => x,
                    Err(e) => return Err(e),
                };
                let e5 = &fs[5];
                if !str_eq(e5.0.as_str(), "health_points") {
                    return Err(DecodeError::Malformed);
                }
                let f_health_points = match <Health>::from_record(&e5.1) {
                    Ok(x) => x,
                    Err(e) => return Err(e),
                };
                let e6 = &fs[6];
                if !str_eq(e6.0.as_str(), "speed") {
                    return Err(DecodeError::Malformed);
                }
                let f_speed = match <MovementSpeed>::from_record(&e6.1) {
                    Ok(x) => x,
                    Err(e) => return Err(e),
                };
                let e7 = &fs[7];
                if !str_eq(e7.0.as_str(), "stats") {
                    return Err(DecodeError::Malformed);
                }
                let f_stats = match <Vec<Stat>>::from_record(&e7.1) {
                    Ok(x) => x,
                    Err(e) => return Err(e),
                };
                let e8 = &fs[8];
                if !str_eq(e8.0.as_str(), "saving_throws") {
                    return Err(DecodeError::Malformed);
                }
                let f_saving_throws = match <Option<Vec<Stat>>>::from_record(&e8.1) {
                    Ok(x) => x,
                    Err(e) => return Err(e),
                };
                let e9 = &fs[9];
                if !str_eq(e9.0.as_str(), "damage_resistances") {
                    return Err(DecodeError::Malformed);
                }
                let f_damage_resistances = match <Option<Vec<DamageType>>>::from_record(&e9.1) {
                    Ok(x) => x,
                    Err(e) => return Err(e),
                };
                let e10 = &fs[10];
                if !str_eq(e10.0.as_str(), "damage_immunities") {
                    return Err(DecodeError::Malformed);
                }
                let f_damage_immunities = match <Option<Vec<DamageType>>>::from_record(&e10.1) {
                    Ok(x) => x,
                    Err(e) => return Err(e),
                };
                let e11 = &fs[11];
                if !str_eq(e11.0.as_str(), "damage_vulnerabilities") {
                    return Err(DecodeError::Malformed);
                }
                let f_damage_vulnerabilities = match <Option<Vec<DamageType>>>::from_record(&e11.1) {
                    Ok(x) => x,
                    Err(e) => return Err(e),
                };
                let e12 = &fs[12];
                if !str_eq(e12.0.as_str(), "condition_immunities") {
                    return Err(DecodeError::Malformed);
                }
                let f_condition_immunities = match <Option<Vec<ConditionType>>>::from_record(&e12.1) {
                    Ok(x) => x,
                    Err(e) => return Err(e),
                };
                let e13 = &fs[13];
                if !str_eq(e13.0.as_str(), "skills") {
                    return Err(DecodeError::Malformed);
                }
                let f_skills = match <Option<Vec<Skill>>>::from_record(&e13.1) {
                    Ok(x) => x,
                    Err(e) => return Err(e),
                };
                let e14 = &fs[14];
                if !str_eq(e14.0.as_str(), "senses") {
                    return Err(DecodeError::Malformed);
                }
                let f_senses = match <Option<Vec<Sense>>>::from_record(&e14.1) {
                    Ok(x) => x,
                    Err(e) => return Err(e),
                };
                let e15 = &fs[15];
                if !str_eq(e15.0.as_str(), "languages") {
                    return Err(DecodeError::Malformed);
                }
                let f_languages = match <Option<Vec<Language>>>::from_record(&e15.1) {
                    Ok(x) => x,
                    Err(e) => return Err(e),
                };
                let e16 = &fs[16];
                if !str_eq(e16.0.as_str(), "challenge_rating") {
                    return Err(DecodeError::Malformed);
                }
                let f_challenge_rating = match <String>::from_record(&e16.1) {
                    Ok(x) => x,
                    Err(e) => return Err(e),
                };
                let e17 = &fs[17];
                if !str_eq(e17.0.as_str(), "racial_traits") {
                    return Err(DecodeError::Malformed);
                }
                let f_racial_traits = match <Option<Vec<RacialTrait>>>::from_record(&e17.1) {
                    Ok(x) => x,
                    Err(e) => return Err(e),
                };
                let e18 = &fs[18];
                if !str_eq(e18.0.as_str(), "description") {
                    return Err(DecodeError::Malformed);
                }
                let f_description = match <Option<String>>::from_record(&e18.1) {
                    Ok(x) => x,
                    Err(e) => return Err(e),
                };
                let e19 = &fs[19];
                if !str_eq(e19.0.as_str(), "actions") {
                    return Err(DecodeError::Malformed);
                }
                let f_actions = match <Option<Vec<Action>>>::from_record(&e19.1) {
                    Ok(x) => x,
                    Err(e) => return Err(e),
                };
                let e20 = &fs[20];
                if !str_eq(e20.0.as_str(), "lair") {
                    return Err(DecodeError::Malformed);
                }
                let f_lair = match <Option<Lair>>::from_record(&e20.1) {
                    Ok(x) => x,
                    Err(e) => return Err(e),
                };
                let e21 = &fs[21];
                if !str_eq(e21.0.as_str(), "others") {
                    return Err(DecodeError::Malformed);
                }
                let f_others = match <Option<Vec<OtherAttribute>>>::from_record(&e21.1) {
                    Ok(x) => x,
                    Err(e) => return Err(e),
                };
                Ok(Creature { id: f_id, name: f_name, creature_type: f_creature_type, alignment: f_alignment, armor_class: f_armor_class, health_points: f_health_points, speed: f_speed, stats: f_stats, saving_throws: f_saving_throws, damage_resistances: f_damage_resistances, damage_immunities: f_damage_immunities, damage_vulnerabilities: f_damage_vulnerabilities, condition_immunities: f_condition_immunities, skills: f_skills, senses: f_senses, languages: f_languages, challenge_rating: f_challenge_rating, racial_traits: f_racial_traits, description: f_description, actions: f_actions, lair: f_lair, others: f_others })
            },
            _ => Err(DecodeError::Malformed),
        }
    }

    proof fn lemma_round_trip(v: CreatureView) {
        <String as Codec>::lemma_round_trip(v.id);
        <String as Codec>::lemma_round_trip(v.name);
        <CreatureType as Codec>::lemma_round_trip(v.creature_type);
        <Alignment as Codec>::lemma_round_trip(v.alignment);
        <i32 as Codec>::lemma_round_trip(v.armor_class);
        <Health as Codec>::lemma_round_trip(v.health_points);
        <MovementSpeed as Codec>::lemma_round_trip(v.speed);
        <Vec<Stat> as Codec>::lemma_round_trip(v.stats);
        <Option<Vec<Stat>> as Codec>::lemma_round_trip(v.saving_throws);
        <Option<Vec<DamageType>> as Codec>::lemma_round_trip(v.damage_resistances);
        <Option<Vec<DamageType>> as Codec>::lemma_round_trip(v.damage_immunities);
        <Option<Vec<DamageType>> as Codec>::lemma_round_trip(v.damage_vulnerabilities);
        <Option<Vec<ConditionType>> as Codec>::lemma_round_trip(v.condition_immunities);
        <Option<Vec<Skill>> as Codec>::lemma_round_trip(v.skills);
        <Option<Vec<Sense>> as Codec>::lemma_round_trip(v.senses);
        <Option<Vec<Language>> as Codec>::lemma_round_trip(v.languages);
        <String as Codec>::lemma_round_trip(v.challenge_rating);
        <Option<Vec<RacialTrait>> as Codec>::lemma_round_trip(v.racial_traits);
        <Option<String> as Codec>::lemma_round_trip(v.description);
        <Option<Vec<Action>> as Codec>::lemma_round_trip(v.actions);
        <Option<Lair> as Codec>::lemma_round_trip(v.lair);
        <Option<Vec<OtherAttribute>> as Codec>::lemma_round_trip(v.others);
    }
}

} // verus!
