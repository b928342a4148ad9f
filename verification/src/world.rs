//! Worlds: the top-level setting that campaigns, maps and their inhabitants
//! belong to.

use vstd::prelude::*;

pub mod campaign;
pub mod location;
pub mod map;
pub mod npc;
pub mod player;
pub mod session;

verus! {

use crate::ident::fresh_id;
use crate::record::{Codec, DecodeError, Record, RecordV, field_views, str_eq};

/// A world: a named setting with a description.
#[derive(Debug, Clone, PartialEq)]
pub struct World {
    pub id: String,
    pub name: String,
    pub description: String,
}

/// The mathematical form of a [`World`].
#[verifier::ext_equal]
pub struct WorldView {
    pub id: Seq<char>,
    pub name: Seq<char>,
    pub description: Seq<char>,
}

impl DeepView for World {
    type V = WorldView;

    open spec fn deep_view(&self) -> WorldView {
        WorldView {
            id: self.id@,
            name: self.name@,
            description: self.description@,
        }
    }
}

impl World {
    /// Builds a world with a freshly generated identifier.
    pub fn new(name: String, description: String) -> (r: World)
        ensures
            r.deep_view().id.len() == 36,
            r.deep_view().name == name@,
            r.deep_view().description == description@,
    {
        World { id: fresh_id(), name, description }
    }
}

impl Codec for World {
    open spec fn spec_enc(v: WorldView) -> RecordV {
        RecordV::Obj(
            seq![
                ("id"@, <String as Codec>::spec_enc(v.id)),
                ("name"@, <String as Codec>::spec_enc(v.name)),
                ("description"@, <String as Codec>::spec_enc(v.description)),
            ],
        )
    }

    open spec fn spec_dec(r: RecordV) -> Option<WorldView> {
        match r {
            RecordV::Obj(fields) => if fields.len() == 3
                && fields[0].0 == "id"@
                && fields[1].0 == "name"@
                && fields[2].0 == "description"@ {
                match (<String as Codec>::spec_dec(fields[0].1), <String as Codec>::spec_dec(fields[1].1), <String as Codec>::spec_dec(fields[2].1)) {
                    (Some(f_id), Some(f_name), Some(f_description)) => Some(WorldView { id: f_id, name: f_name, description: f_description }),
                    _ => None,
                }
            } else {
                None
            },
            _ => None,
        }
    }

    fn to_record(&self) -> (r: Record) {
        let mut fs: Vec<(String, Record)> = Vec::new();
        fs.push((String::from_str("id"), self.id.to_record()));
        fs.push((String::from_str("name"), self.name.to_record()));
        fs.push((String::from_str("description"), self.description.to_record()));
        let r = Record::Obj(fs);
        proof {
            assert(field_views(fs@) =~= seq![
                ("id"@, <String as Codec>::spec_enc(self.id@)),
                ("name"@, <String as Codec>::spec_enc(self.name@)),
                ("description"@, <String as Codec>::spec_enc(self.description@)),
            ]);
        }
        r
    }

    fn from_record(r: &Record) -> (res: Result<World, DecodeError>) {
        match r {
            Record::Obj(fs) => {
                if fs.len() != 3 {
                    return Err(DecodeError::Malformed);
                }
                let e0 = &fs[0];
                if !str_eq(e0.0.as_str(), "id") {
                    return Err(DecodeError::Malformed);
                }
                let f_id = match <String>::from_record(&e0.1) {
                    Ok(x) => x,
                    Err(e) => return Err(e),
                };
                let e1 = &fs[1];
                if !str_eq(e1.0.as_str(), "name") {
                    return Err(DecodeError::Malformed);
                }
                let f_name = match <String>::from_record(&e1.1) {
                    Ok(x) => x,
                    Err(e) => return Err(e),
                };
                let e2 = &fs[2];
                if !str_eq(e2.0.as_str(), "description") {
                    return Err(DecodeError::Malformed);
                }
                let f_description = match <String>::from_record(&e2.1) {
                    Ok(x) => x,
                    Err(e) => return Err(e),
                };
                Ok(World { id: f_id, name: f_name, description: f_description })
            },
            _ => Err(DecodeError::Malformed),
        }
    }

    proof fn lemma_round_trip(v: WorldView) {
        <String as Codec>::lemma_round_trip(v.id);
        <String as Codec>::lemma_round_trip(v.name);
        <String as Codec>::lemma_round_trip(v.description);
    }
}

} // verus!
