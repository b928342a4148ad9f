//! Non-player characters: creatures run by the game master, tied to a world.

use vstd::prelude::*;

verus! {

use crate::creature::{Creature, CreatureView};
use crate::record::{Codec, DecodeError, Record, RecordV, field_views, str_eq};

/// A non-player character: a creature belonging to a world.
#[derive(Debug, Clone, PartialEq)]
pub struct NPC {
    pub creature: Creature,
    pub world_id: String,
}

/// The mathematical form of a [`NPC`].
#[verifier::ext_equal]
pub struct NPCView {
    pub creature: CreatureView,
    pub world_id: Seq<char>,
}

impl DeepView for NPC {
    type V = NPCView;

    open spec fn deep_view(&self) -> NPCView {
        NPCView {
            creature: self.creature.deep_view(),
            world_id: self.world_id@,
        }
    }
}

impl NPC {
    /// Ties a creature to a world as a non-player character.
    pub fn new(creature: Creature, world_id: String) -> (r: NPC)
        ensures
            r.deep_view().creature == creature.deep_view(),
            r.deep_view().world_id == world_id@,
    {
        NPC { creature, world_id }
    }
}

impl Codec for NPC {
    open spec fn spec_enc(v: NPCView) -> RecordV {
        RecordV::Obj(
            seq![
                ("creature"@, <Creature as Codec>::spec_enc(v.creature)),
                ("world_id"@, <String as Codec>::spec_enc(v.world_id)),
            ],
        )
    }

    open spec fn spec_dec(r: RecordV) -> Option<NPCView> {
        match r {
            RecordV::Obj(fields) => if fields.len() == 2
                && fields[0].0 == "creature"@
                && fields[1].0 == "world_id"@ {
                match (<Creature as Codec>::spec_dec(fields[0].1), <String as Codec>::spec_dec(fields[1].1)) {
                    (Some(f_creature), Some(f_world_id)) => Some(NPCView { creature: f_creature, world_id: f_world_id }),
                    _ => None,
                }
            } else {
                None
            },
            _ => None,
        }
    }

    fn to_record(&self) -> (r: Record) {
        let mut fs: Vec<(String, Record)> = Vec::new();
        fs.push((String::from_str("creature"), self.creature.to_record()));
        fs.push((String::from_str("world_id"), self.world_id.to_record()));
        let r = Record::Obj(fs);
        proof {
            assert(field_views(fs@) =~= seq![
                ("creature"@, <Creature as Codec>::spec_enc(self.creature.deep_view())),
                ("world_id"@, <String as Codec>::spec_enc(self.world_id@)),
            ]);
        }
        r
    }

    fn from_record(r: &Record) -> (res: Result<NPC, DecodeError>) {
        match r {
            Record::Obj(fs) => {
                if fs.len() != 2 {
                    return Err(DecodeError::Malformed);
                }
                let e0 = &fs[0];
                if !str_eq(e0.0.as_str(), "creature") {
                    return Err(DecodeError::Malformed);
                }
                let f_creature = match <Creature>::from_record(&e0.1) {
                    Ok(x) => x,
                    Err(e) => return Err(e),
                };
                let e1 = &fs[1];
                if !str_eq(e1.0.as_str(), "world_id") {
                    return Err(DecodeError::Malformed);
                }
                let f_world_id = match <String>::from_record(&e1.1) {
                    Ok(x) => x,
                    Err(e) => return Err(e),
                };
                Ok(NPC { creature: f_creature, world_id: f_world_id })
            },
            _ => Err(DecodeError::Malformed),
        }
    }

    proof fn lemma_round_trip(v: NPCView) {
        <Creature as Codec>::lemma_round_trip(v.creature);
        <String as Codec>::lemma_round_trip(v.world_id);
    }
}

} // verus!
