//! Campaigns: a named story arc within a world, with its players.

use vstd::prelude::*;

verus! {

use crate::ident::fresh_id;
use crate::record::{Codec, DecodeError, Record, RecordV, field_views, str_eq};
use crate::world::player::{Player, PlayerView, dec_players, enc_players, players_from_record, players_to_record, players_view};

/// A campaign: a named story arc tied to a world, with its players.
#[derive(Debug, PartialEq)]
pub struct Campaign {
    pub id: String,
    pub name: String,
    pub description: String,
    pub world_id: String,
    pub players: Vec<Player>,
}

/// The mathematical form of a [`Campaign`].
#[verifier::ext_equal]
pub struct CampaignView {
    pub id: Seq<char>,
    pub name: Seq<char>,
    pub description: Seq<char>,
    pub world_id: Seq<char>,
    pub players: Seq<PlayerView>,
}

/// The mathematical form of a campaign, spelled out so the recursion through
/// its players is visibly well-founded.
pub open spec fn campaign_view(c: Campaign) -> CampaignView
    decreases c,
{
    CampaignView {
        id: c.id@,
        name: c.name@,
        description: c.description@,
        world_id: c.world_id@,
        players: players_view(c.players),
    }
}

impl DeepView for Campaign {
    type V = CampaignView;

    open spec fn deep_view(&self) -> CampaignView {
        campaign_view(*self)
    }
}

impl Campaign {
    /// Builds a campaign with a freshly generated identifier and no players.
    pub fn new(name: String, description: String, world_id: String) -> (r: Campaign)
        ensures
            r.deep_view().id.len() == 36,
            r.deep_view().name == name@,
            r.deep_view().description == description@,
            r.deep_view().world_id == world_id@,
            r.deep_view().players.len() == 0,
    {
        let r = Campaign {
            id: fresh_id(),
            name,
            description,
            world_id,
            players: Vec::new(),
        };
        proof {
            assert(r.deep_view().players =~= Seq::<PlayerView>::empty());
        }
        r
    }
}

/// The record form of a campaign.
pub open spec fn enc_campaign(v: CampaignView) -> RecordV
    decreases v,
{
    RecordV::Obj(
        seq![
            ("id"@, <String as Codec>::spec_enc(v.id)),
            ("name"@, <String as Codec>::spec_enc(v.name)),
            ("description"@, <String as Codec>::spec_enc(v.description)),
            ("world_id"@, <String as Codec>::spec_enc(v.world_id)),
            ("players"@, RecordV::List(enc_players(v.players))),
        ],
    )
}

/// The campaign a record decodes to, when it has the shape `enc_campaign`
/// produces.
pub open spec fn dec_campaign(r: RecordV) -> Option<CampaignView>
    decreases r,
{
    match r {
        RecordV::Obj(fields) => if fields.len() == 5
            && fields[0].0 == "id"@
            && fields[1].0 == "name"@
            && fields[2].0 == "description"@
            && fields[3].0 == "world_id"@
            && fields[4].0 == "players"@ {
            match (
                <String as Codec>::spec_dec(fields[0].1),
                <String as Codec>::spec_dec(fields[1].1),
                <String as Codec>::spec_dec(fields[2].1),
                <String as Codec>::spec_dec(fields[3].1),
                dec_players(fields[4].1),
            ) {
                (Some(id), Some(name), Some(description), Some(world_id), Some(players)) => Some(
                    CampaignView { id, name, description, world_id, players },
                ),
                _ => None,
            }
        } else {
            None
        },
        _ => None,
    }
}

/// Decoding inverts encoding for campaigns.
pub proof fn lemma_campaign_round_trip(v: CampaignView)
    ensures
        dec_campaign(enc_campaign(v)) == Some(v),
    decreases v,
{
    crate::world::player::lemma_players_round_trip(v.players);
}

pub(crate) fn campaign_to_record(c: &Campaign) -> (r: Record)
    ensures
        r.deep_view() == enc_campaign(c.deep_view()),
    decreases *c,
{
    let mut fs: Vec<(String, Record)> = Vec::new();
    fs.push((String::from_str("id"), c.id.to_record()));
    fs.push((String::from_str("name"), c.name.to_record()));
    fs.push((String::from_str("description"), c.description.to_record()));
    fs.push((String::from_str("world_id"), c.world_id.to_record()));
    fs.push((String::from_str("players"), players_to_record(&c.players)));
    let r = Record::Obj(fs);
    proof {
        assert(field_views(fs@) =~= seq![
            ("id"@, <String as Codec>::spec_enc(c.id@)),
            ("name"@, <String as Codec>::spec_enc(c.name@)),
            ("description"@, <String as Codec>::spec_enc(c.description@)),
            ("world_id"@, <String as Codec>::spec_enc(c.world_id@)),
            ("players"@, RecordV::List(enc_players(players_view(c.players)))),
        ]);
    }
    r
}

pub(crate) fn campaign_from_record(r: &Record) -> (res: Result<Campaign, DecodeError>)
    ensures
        match res {
            Ok(x) => dec_campaign(r.deep_view()) == Some(x.deep_view()),
            Err(_) => dec_campaign(r.deep_view()) is None,
        },
    decreases *r,
{
    match r {
        Record::Obj(fs) => {
            if fs.len() != 5 {
                return Err(DecodeError::Malformed);
            }
            let e0 = &fs[0];
            if !str_eq(e0.0.as_str(), "id") {
                return Err(DecodeError::Malformed);
            }
            let f_id = match <String>::from_record(&e0.1) {
                Ok(x) => x,
                Err(e) => return Err(e),
            };
            let e1 = &fs[1];
            if !str_eq(e1.0.as_str(), "name") {
                return Err(DecodeError::Malformed);
            }
            let f_name = match <String>::from_record(&e1.1) {
                Ok(x) => x,
                Err(e) => return Err(e),
            };
            let e2 = &fs[2];
            if !str_eq(e2.0.as_str(), "description") {
                return Err(DecodeError::Malformed);
            }
            let f_description = match <String>::from_record(&e2.1) {
                Ok(x) => x,
                Err(e) => return Err(e),
            };
            let e3 = &fs[3];
            if !str_eq(e3.0.as_str(), "world_id") {
                return Err(DecodeError::Malformed);
            }
            let f_world_id = match <String>::from_record(&e3.1) {
                Ok(x) => x,
                Err(e) => return Err(e),
            };
            let e4 = &fs[4];
            if !str_eq(e4.0.as_str(), "players") {
                return Err(DecodeError::Malformed);
            }
            let f_players = match players_from_record(&e4.1) {
                Ok(x) => x,
                Err(e) => return Err(e),
            };
            Ok(Campaign {
                id: f_id,
                name: f_name,
                description: f_description,
                world_id: f_world_id,
                players: f_players,
            })
        },
        _ => Err(DecodeError::Malformed),
    }
}

impl Codec for Campaign {
    open spec fn spec_enc(v: CampaignView) -> RecordV {
        enc_campaign(v)
    }

    open spec fn spec_dec(r: RecordV) -> Option<CampaignView> {
        dec_campaign(r)
    }

    fn to_record(&self) -> (r: Record) {
        campaign_to_record(self)
    }

    fn from_record(r: &Record) -> (res: Result<Campaign, DecodeError>) {
        campaign_from_record(r)
    }

    proof fn lemma_round_trip(v: CampaignView) {
        lemma_campaign_round_trip(v);
    }
}

} // verus!
