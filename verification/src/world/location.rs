//! Locations: named places on a world's map, with their residents.

use vstd::prelude::*;

verus! {

use crate::record::{Codec, DecodeError, Record, RecordV, field_views, str_eq};
use crate::world::map::{MapCoordinates, MapCoordinatesView};
use crate::world::npc::{NPC, NPCView};

/// A location in a world: where it sits on the map and who lives there.
#[derive(Debug, Clone, PartialEq)]
pub struct Location {
    pub id: String,
    pub name: String,
    pub description: String,
    pub world_id: String,
    pub map_coordinates: MapCoordinates,
    pub npcs: Vec<NPC>,
}

/// The mathematical form of a [`Location`].
#[verifier::ext_equal]
pub struct LocationView {
    pub id: Seq<char>,
    pub name: Seq<char>,
    pub description: Seq<char>,
    pub world_id: Seq<char>,
    pub map_coordinates: MapCoordinatesView,
    pub npcs: Seq<NPCView>,
}

impl DeepView for Location {
    type V = LocationView;

    open spec fn deep_view(&self) -> LocationView {
        LocationView {
            id: self.id@,
            name: self.name@,
            description: self.description@,
            world_id: self.world_id@,
            map_coordinates: self.map_coordinates.deep_view(),
            npcs: self.npcs.deep_view(),
        }
    }
}

impl Codec for Location {
    open spec fn spec_enc(v: LocationView) -> RecordV {
        RecordV::Obj(
            seq![
                ("id"@, <String as Codec>::spec_enc(v.id)),
                ("name"@, <String as Codec>::spec_enc(v.name)),
                ("description"@, <String as Codec>::spec_enc(v.description)),
                ("world_id"@, <String as Codec>::spec_enc(v.world_id)),
                ("map_coordinates"@, <MapCoordinates as Codec>::spec_enc(v.map_coordinates)),
                ("npcs"@, <Vec<NPC> as Codec>::spec_enc(v.npcs)),
            ],
        )
    }

    open spec fn spec_dec(r: RecordV) -> Option<LocationView> {
        match r {
            RecordV::Obj(fields) => if fields.len() == 6
                && fields[0].0 == "id"@
                && fields[1].0 == "name"@
                && fields[2].0 == "description"@
                && fields[3].0 == "world_id"@
                && fields[4].0 == "map_coordinates"@
                && fields[5].0 == "npcs"@ {
                match (<String as Codec>::spec_dec(fields[0].1), <String as Codec>::spec_dec(fields[1].1), <String as Codec>::spec_dec(fields[2].1), <String as Codec>::spec_dec(fields[3].1), <MapCoordinates as Codec>::spec_dec(fields[4].1), <Vec<NPC> as Codec>::spec_dec(fields[5].1)) {
                    (Some(f_id), Some(f_name), Some(f_description), Some(f_world_id), Some(f_map_coordinates), Some(f_npcs)) => Some(LocationView { id: f_id, name: f_name, description: f_description, world_id: f_world_id, map_coordinates: f_map_coordinates, npcs: f_npcs }),
                    _ => None,
                }
            } else {
                None
            },
            _ => None,
        }
    }

    fn to_record(&self) -> (r: Record) {
        let mut fs: Vec<(String, Record)> = Vec::new();
        fs.push((String::from_str("id"), self.id.to_record()));
        fs.push((String::from_str("name"), self.name.to_record()));
        fs.push((String::from_str("description"), self.description.to_record()));
        fs.push((String::from_str("world_id"), self.world_id.to_record()));
        fs.push((String::from_str("map_coordinates"), self.map_coordinates.to_record()));
        fs.push((String::from_str("npcs"), self.npcs.to_record()));
        let r = Record::Obj(fs);
        proof {
            assert(field_views(fs@) =~= seq![
                ("id"@, <String as Codec>::spec_enc(self.id@)),
                ("name"@, <String as Codec>::spec_enc(self.name@)),
                ("description"@, <String as Codec>::spec_enc(self.description@)),
                ("world_id"@, <String as Codec>::spec_enc(self.world_id@)),
                ("map_coordinates"@, <MapCoordinates as Codec>::spec_enc(self.map_coordinates.deep_view())),
                ("npcs"@, <Vec<NPC> as Codec>::spec_enc(self.npcs.deep_view())),
            ]);
        }
        r
    }

    fn from_record(r: &Record) -> (res: Result<Location, DecodeError>) {
        match r {
            Record::Obj(fs) => {
                if fs.len() != 6 {
                    return Err(DecodeError::Malformed);
                }
                let e0 = &fs[0];
                if !str_eq(e0.0.as_str(), "id") {
                    return Err(DecodeError::Malformed);
                }
                let f_id = match <String>::from_record(&e0.1) {
                    Ok(x) => x,
                    Err(e) => return Err(e),
                };
                let e1 = &fs[1];
                if !str_eq(e1.0.as_str(), "name") {
                    return Err(DecodeError::Malformed);
                }
                let f_name = match <String>::from_record(&e1.1) {
                    Ok(x) => x,
                    Err(e) => return Err(e),
                };
                let e2 = &fs[2];
                if !str_eq(e2.0.as_str(), "description") {
                    return Err(DecodeError::Malformed);
                }
                let f_description = match <String>::from_record(&e2.1) {
                    Ok(x) => x,
                    Err(e) => return Err(e),
                };
                let e3 = &fs[3];
                if !str_eq(e3.0.as_str(), "world_id") {
                    return Err(DecodeError::Malformed);
                }
                let f_world_id = match <String>::from_record(&e3.1) {
                    Ok(x) => x,
                    Err(e) => return Err(e),
                };
                let e4 = &fs[4];
                if !str_eq(e4.0.as_str(), "map_coordinates") {
                    return Err(DecodeError::Malformed);
                }
                let f_map_coordinates = match <MapCoordinates>::from_record(&e4.1) {
                    Ok(x) => x,
                    Err(e) => return Err(e),
                };
                let e5 = &fs[5];
                if !str_eq(e5.0.as_str(), "npcs") {
                    return Err(DecodeError::Malformed);
                }
                let f_npcs = match <Vec<NPC>>::from_record(&e5.1) {
                    Ok(x) => x,
                    Err(e) => return Err(e),
                };
                Ok(Location { id: f_id, name: f_name, description: f_description, world_id: f_world_id, map_coordinates: f_map_coordinates, npcs: f_npcs })
            },
            _ => Err(DecodeError::Malformed),
        }
    }

    proof fn lemma_round_trip(v: LocationView) {
        <String as Codec>::lemma_round_trip(v.id);
        <String as Codec>::lemma_round_trip(v.name);
        <String as Codec>::lemma_round_trip(v.description);
        <String as Codec>::lemma_round_trip(v.world_id);
        <MapCoordinates as Codec>::lemma_round_trip(v.map_coordinates);
        <Vec<NPC> as Codec>::lemma_round_trip(v.npcs);
    }
}

} // verus!
