//! Maps: a rectangular grid of cell labels, and coordinates into it.

use vstd::prelude::*;

verus! {

use crate::record::{Codec, DecodeError, Record, RecordV, field_views, str_eq};
use crate::world::location::{Location, LocationView};

/// A map of a world: a grid of cell labels and the locations on it.
#[derive(Debug, PartialEq)]
pub struct GameMap {
    pub id: String,
    pub name: String,
    pub description: String,
    pub world_id: String,
    pub width: u32,
    pub height: u32,
    pub map: Vec<Vec<String>>,
    pub locations: Vec<Location>,
}

/// The mathematical form of a [`GameMap`].
#[verifier::ext_equal]
pub struct GameMapView {
    pub id: Seq<char>,
    pub name: Seq<char>,
    pub description: Seq<char>,
    pub world_id: Seq<char>,
    pub width: u32,
    pub height: u32,
    pub map: Seq<Seq<Seq<char>>>,
    pub locations: Seq<LocationView>,
}

impl DeepView for GameMap {
    type V = GameMapView;

    open spec fn deep_view(&self) -> GameMapView {
        GameMapView {
            id: self.id@,
            name: self.name@,
            description: self.description@,
            world_id: self.world_id@,
            width: self.width,
            height: self.height,
            map: self.map.deep_view(),
            locations: self.locations.deep_view(),
        }
    }
}

impl GameMap {
    /// Builds a map whose grid holds `height` rows of `width` empty cell
    /// labels, and no locations yet.
    pub fn new(
        id: String,
        name: String,
        description: String,
        world_id: String,
        width: u32,
        height: u32,
    ) -> (r: GameMap)
        ensures
            r.deep_view().id == id@,
            r.deep_view().name == name@,
            r.deep_view().description == description@,
            r.deep_view().world_id == world_id@,
            r.deep_view().width == width,
            r.deep_view().height == height,
            r.deep_view().map.len() == height,
            forall|i: int|
                0 <= i < height ==> (#[trigger] r.deep_view().map[i]).len() == width,
            forall|i: int, j: int|
                0 <= i < height && 0 <= j < width ==> r.deep_view().map[i][j]
                    == Seq::<char>::empty(),
            r.deep_view().locations.len() == 0,
    {
        let mut map: Vec<Vec<String>> = Vec::new();
        while map.len() < height as usize
            invariant
                map@.len() <= height,
                forall|i: int|
                    0 <= i < map@.len() ==> (#[trigger] map@[i])@.len() == width,
                forall|i: int, j: int|
                    0 <= i < map@.len() && 0 <= j < width ==> map@[i]@[j]@
                        == Seq::<char>::empty(),
            decreases height - map@.len(),
        {
            let mut row: Vec<String> = Vec::new();
            while row.len() < width as usize
                invariant
                    row@.len() <= width,
                    forall|j: int|
                        0 <= j < row@.len() ==> (#[trigger] row@[j])@ == Seq::<char>::empty(),
                decreases width - row@.len(),
            {
                row.push(String::new());
            }
            map.push(row);
        }
        let r = GameMap {
            id,
            name,
            description,
            world_id,
            width,
            height,
            map,
            locations: Vec::new(),
        };
        proof {
            assert(r.deep_view().locations =~= Seq::<LocationView>::empty());
            assert forall|i: int| 0 <= i < height implies (#[trigger] r.deep_view().map[i]).len()
                == width by {
                assert(r.deep_view().map[i] =~= r.map@[i].deep_view());
            }
            assert forall|i: int, j: int|
                0 <= i < height && 0 <= j < width implies r.deep_view().map[i][j]
                == Seq::<char>::empty() by {
                assert(r.deep_view().map[i] =~= r.map@[i].deep_view());
            }
        }
        r
    }
}

impl Codec for GameMap {
    open spec fn spec_enc(v: GameMapView) -> RecordV {
        RecordV::Obj(
            seq![
                ("id"@, <String as Codec>::spec_enc(v.id)),
                ("name"@, <String as Codec>::spec_enc(v.name)),
                ("description"@, <String as Codec>::spec_enc(v.description)),
                ("world_id"@, <String as Codec>::spec_enc(v.world_id)),
                ("width"@, <u32 as Codec>::spec_enc(v.width)),
                ("height"@, <u32 as Codec>::spec_enc(v.height)),
                ("map"@, <Vec<Vec<String>> as Codec>::spec_enc(v.map)),
                ("locations"@, <Vec<Location> as Codec>::spec_enc(v.locations)),
            ],
        )
    }

    open spec fn spec_dec(r: RecordV) -> Option<GameMapView> {
        match r {
            RecordV::Obj(fields) => if fields.len() == 8
                && fields[0].0 == "id"@
                && fields[1].0 == "name"@
                && fields[2].0 == "description"@
                && fields[3].0 == "world_id"@
                && fields[4].0 == "width"@
                && fields[5].0 == "height"@
                && fields[6].0 == "map"@
                && fields[7].0 == "locations"@ {
                match (<String as Codec>::spec_dec(fields[0].1), <String as Codec>::spec_dec(fields[1].1), <String as Codec>::spec_dec(fields[2].1), <String as Codec>::spec_dec(fields[3].1), <u32 as Codec>::spec_dec(fields[4].1), <u32 as Codec>::spec_dec(fields[5].1), <Vec<Vec<String>> as Codec>::spec_dec(fields[6].1), <Vec<Location> as Codec>::spec_dec(fields[7].1)) {
                    (Some(f_id), Some(f_name), Some(f_description), Some(f_world_id), Some(f_width), Some(f_height), Some(f_map), Some(f_locations)) => Some(GameMapView { id: f_id, name: f_name, description: f_description, world_id: f_world_id, width: f_width, height: f_height, map: f_map, locations: f_locations }),
                    _ => None,
                }
            } else {
                None
            },
            _ => None,
        }
    }

    fn to_record(&self) -> (r: Record) {
        let mut fs: Vec<(String, Record)> = Vec::new();
        fs.push((String::from_str("id"), self.id.to_record()));
        fs.push((String::from_str("name"), self.name.to_record()));
        fs.push((String::from_str("description"), self.description.to_record()));
        fs.push((String::from_str("world_id"), self.world_id.to_record()));
        fs.push((String::from_str("width"), self.width.to_record()));
        fs.push((String::from_str("height"), self.height.to_record()));
        fs.push((String::from_str("map"), self.map.to_record()));
        fs.push((String::from_str("locations"), self.locations.to_record()));
        let r = Record::Obj(fs);
        proof {
            assert(field_views(fs@) =~= seq![
                ("id"@, <String as Codec>::spec_enc(self.id@)),
                ("name"@, <String as Codec>::spec_enc(self.name@)),
                ("description"@, <String as Codec>::spec_enc(self.description@)),
                ("world_id"@, <String as Codec>::spec_enc(self.world_id@)),
                ("width"@, <u32 as Codec>::spec_enc(self.width)),
                ("height"@, <u32 as Codec>::spec_enc(self.height)),
                ("map"@, <Vec<Vec<String>> as Codec>::spec_enc(self.map.deep_view())),
                ("locations"@, <Vec<Location> as Codec>::spec_enc(self.locations.deep_view())),
            ]);
        }
        r
    }

    fn from_record(r: &Record) -> (res: Result<GameMap, DecodeError>) {
        match r {
            Record::Obj(fs) => {
                if fs.len() != 8 {
                    return Err(DecodeError::Malformed);
                }
                let e0 = &fs[0];
                if !str_eq(e0.0.as_str(), "id") {
                    return Err(DecodeError::Malformed);
                }
                let f_id = match <String>::from_record(&e0.1) {
                    Ok(x) => x,
                    Err(e) => return Err(e),
                };
                let e1 = &fs[1];
                if !str_eq(e1.0.as_str(), "name") {
                    return Err(DecodeError::Malformed);
                }
                let f_name = match <String>::from_record(&e1.1) {
                    Ok(x) => x,
                    Err(e) => return Err(e),
                };
                let e2 = &fs[2];
                if !str_eq(e2.0.as_str(), "description") {
                    return Err(DecodeError::Malformed);
                }
                let f_description = match <String>::from_record(&e2.1) {
                    Ok(x) => x,
                    Err(e) => return Err(e),
                };
                let e3 = &fs[3];
                if !str_eq(e3.0.as_str(), "world_id") {
                    return Err(DecodeError::Malformed);
                }
                let f_world_id = match <String>::from_record(&e3.1) {
                    Ok(x) => x,
                    Err(e) => return Err(e),
                };
                let e4 = &fs[4];
                if !str_eq(e4.0.as_str(), "width") {
                    return Err(DecodeError::Malformed);
                }
                let f_width = match <u32>::from_record(&e4.1) {
                    Ok(x) => x,
                    Err(e) => return Err(e),
                };
                let e5 = &fs[5];
                if !str_eq(e5.0.as_str(), "height") {
                    return Err(DecodeError::Malformed);
                }
                let f_height = match <u32>::from_record(&e5.1) {
                    Ok(x) => x,
                    Err(e) => return Err(e),
                };
                let e6 = &fs[6];
                if !str_eq(e6.0.as_str(), "map") {
                    return Err(DecodeError::Malformed);
                }
                let f_map = match <Vec<Vec<String>>>::from_record(&e6.1) {
                    Ok(x) => x,
                    Err(e) => return Err(e),
                };
                let e7 = &fs[7];
                if !str_eq(e7.0.as_str(), "locations") {
                    return Err(DecodeError::Malformed);
                }
                let f_locations = match <Vec<Location>>::from_record(&e7.1) {
                    Ok(x) => x,
                    Err(e) => return Err(e),
                };
                Ok(GameMap { id: f_id, name: f_name, description: f_description, world_id: f_world_id, width: f_width, height: f_height, map: f_map, locations: f_locations })
            },
            _ => Err(DecodeError::Malformed),
        }
    }

    proof fn lemma_round_trip(v: GameMapView) {
        <String as Codec>::lemma_round_trip(v.id);
        <String as Codec>::lemma_round_trip(v.name);
        <String as Codec>::lemma_round_trip(v.description);
        <String as Codec>::lemma_round_trip(v.world_id);
        <u32 as Codec>::lemma_round_trip(v.width);
        <u32 as Codec>::lemma_round_trip(v.height);
        <Vec<Vec<String>> as Codec>::lemma_round_trip(v.map);
        <Vec<Location> as Codec>::lemma_round_trip(v.locations);
    }
}

/// A position on a map.
#[derive(Debug, Clone, PartialEq)]
pub struct MapCoordinates {
    pub map_id: String,
    pub x: u32,
    pub y: u32,
}

/// The mathematical form of a [`MapCoordinates`].
#[verifier::ext_equal]
pub struct MapCoordinatesView {
    pub map_id: Seq<char>,
    pub x: u32,
    pub y: u32,
}

impl DeepView for MapCoordinates {
    type V = MapCoordinatesView;

    open spec fn deep_view(&self) -> MapCoordinatesView {
        MapCoordinatesView {
            map_id: self.map_id@,
            x: self.x,
            y: self.y,
        }
    }
}

impl MapCoordinates {
    /// Builds coordinates on the map bearing `map_id`.
    pub fn new(map_id: String, x: u32, y: u32) -> (r: MapCoordinates)
        ensures
            r.deep_view().map_id == map_id@,
            r.deep_view().x == x,
            r.deep_view().y == y,
    {
        MapCoordinates { map_id, x, y }
    }
}

impl Codec for MapCoordinates {
    open spec fn spec_enc(v: MapCoordinatesView) -> RecordV {
        RecordV::Obj(
            seq![
                ("map_id"@, <String as Codec>::spec_enc(v.map_id)),
                ("x"@, <u32 as Codec>::spec_enc(v.x)),
                ("y"@, <u32 as Codec>::spec_enc(v.y)),
            ],
        )
    }

    open spec fn spec_dec(r: RecordV) -> Option<MapCoordinatesView> {
        match r {
            RecordV::Obj(fields) => if fields.len() == 3
                && fields[0].0 == "map_id"@
                && fields[1].0 == "x"@
                && fields[2].0 == "y"@ {
                match (<String as Codec>::spec_dec(fields[0].1), <u32 as Codec>::spec_dec(fields[1].1), <u32 as Codec>::spec_dec(fields[2].1)) {
                    (Some(f_map_id), Some(f_x), Some(f_y)) => Some(MapCoordinatesView { map_id: f_map_id, x: f_x, y: f_y }),
                    _ => None,
                }
            } else {
                None
            },
            _ => None,
        }
    }

    fn to_record(&self) -> (r: Record) {
        let mut fs: Vec<(String, Record)> = Vec::new();
        fs.push((String::from_str("map_id"), self.map_id.to_record()));
        fs.push((String::from_str("x"), self.x.to_record()));
        fs.push((String::from_str("y"), self.y.to_record()));
        let r = Record::Obj(fs);
        proof {
            assert(field_views(fs@) =~= seq![
                ("map_id"@, <String as Codec>::spec_enc(self.map_id@)),
                ("x"@, <u32 as Codec>::spec_enc(self.x)),
                ("y"@, <u32 as Codec>::spec_enc(self.y)),
            ]);
        }
        r
    }

    fn from_record(r: &Record) -> (res: Result<MapCoordinates, DecodeError>) {
        match r {
            Record::Obj(fs) => {
                if fs.len() != 3 {
                    return Err(DecodeError::Malformed);
                }
                let e0 = &fs[0];
                if !str_eq(e0.0.as_str(), "map_id") {
                    return Err(DecodeError::Malformed);
                }
                let f_map_id = match <String>::from_record(&e0.1) {
                    Ok(x) => x,
                    Err(e) => return Err(e),
                };
                let e1 = &fs[1];
                if !str_eq(e1.0.as_str(), "x") {
                    return Err(DecodeError::Malformed);
                }
                let f_x = match <u32>::from_record(&e1.1) {
                    Ok(x) => x,
                    Err(e) => return Err(e),
                };
                let e2 = &fs[2];
                if !str_eq(e2.0.as_str(), "y") {
                    return Err(DecodeError::Malformed);
                }
                let f_y = match <u32>::from_record(&e2.1) {
                    Ok(x) => x,
                    Err(e) => return Err(e),
                };
                Ok(MapCoordinates { map_id: f_map_id, x: f_x, y: f_y })
            },
            _ => Err(DecodeError::Malformed),
        }
    }

    proof fn lemma_round_trip(v: MapCoordinatesView) {
        <String as Codec>::lemma_round_trip(v.map_id);
        <u32 as Codec>::lemma_round_trip(v.x);
        <u32 as Codec>::lemma_round_trip(v.y);
    }
}

} // verus!
