//! Sessions: one sitting of a campaign, with its notes, plan and recap.

use vstd::prelude::*;

verus! {

use crate::ident::fresh_id;
use crate::record::{Codec, DecodeError, Record, RecordV, dec_v_str, field_views, get_str, str_eq};

/// A session of a campaign: notes taken, the plan, and the recap.
#[derive(Debug, PartialEq)]
pub struct Session {
    pub id: String,
    pub name: String,
    pub description: String,
    pub campaign_id: String,
    pub notes: Vec<Note>,
    pub plan: Plan,
    pub recap: Recap,
}

/// A note taken during a session.
#[derive(Debug, Clone, PartialEq)]
pub struct Note {
    pub id: String,
    pub name: String,
    pub description: String,
}

/// The mathematical form of a [`Note`].
#[verifier::ext_equal]
pub struct NoteView {
    pub id: Seq<char>,
    pub name: Seq<char>,
    pub description: Seq<char>,
}

impl DeepView for Note {
    type V = NoteView;

    open spec fn deep_view(&self) -> NoteView {
        NoteView {
            id: self.id@,
            name: self.name@,
            description: self.description@,
        }
    }
}

impl Note {
    /// Builds a note with a freshly generated identifier.
    pub fn new(name: String, description: String) -> (r: Note)
        ensures
            r.deep_view().id.len() == 36,
            r.deep_view().name == name@,
            r.deep_view().description == description@,
    {
        Note { id: fresh_id(), name, description }
    }
}

impl Default for Note {
    /// An empty note, with a freshly generated identifier.
    fn default() -> (r: Note)
        ensures
            r.deep_view().id.len() == 36,
            r.deep_view().name == Seq::<char>::empty(),
            r.deep_view().description == Seq::<char>::empty(),
    {
        Note { id: fresh_id(), name: String::new(), description: String::new() }
    }
}

impl Codec for Note {
    open spec fn spec_enc(v: NoteView) -> RecordV {
        RecordV::Obj(
            seq![
                ("id"@, <String as Codec>::spec_enc(v.id)),
                ("name"@, <String as Codec>::spec_enc(v.name)),
                ("description"@, <String as Codec>::spec_enc(v.description)),
            ],
        )
    }

    open spec fn spec_dec(r: RecordV) -> Option<NoteView> {
        match r {
            RecordV::Obj(fields) => if fields.len() == 3
                && fields[0].0 == "id"@
                && fields[1].0 == "name"@
                && fields[2].0 == "description"@ {
                match (<String as Codec>::spec_dec(fields[0].1), <String as Codec>::spec_dec(fields[1].1), <String as Codec>::spec_dec(fields[2].1)) {
                    (Some(f_id), Some(f_name), Some(f_description)) => Some(NoteView { id: f_id, name: f_name, description: f_description }),
                    _ => None,
                }
            } else {
                None
            },
            _ => None,
        }
    }

    fn to_record(&self) -> (r: Record) {
        let mut fs: Vec<(String, Record)> = Vec::new();
        fs.push((String::from_str("id"), self.id.to_record()));
        fs.push((String::from_str("name"), self.name.to_record()));
        fs.push((String::from_str("description"), self.description.to_record()));
        let r = Record::Obj(fs);
        proof {
            assert(field_views(fs@) =~= seq![
                ("id"@, <String as Codec>::spec_enc(self.id@)),
                ("name"@, <String as Codec>::spec_enc(self.name@)),
                ("description"@, <String as Codec>::spec_enc(self.description@)),
            ]);
        }
        r
    }

    fn from_record(r: &Record) -> (res: Result<Note, DecodeError>) {
        match r {
            Record::Obj(fs) => {
                if fs.len() != 3 {
                    return Err(DecodeError::Malformed);
                }
                let e0 = &fs[0];
                if !str_eq(e0.0.as_str(), "id") {
                    return Err(DecodeError::Malformed);
                }
                let f_id = match <String>::from_record(&e0.1) {
                    Ok(x) => x,
                    Err(e) => return Err(e),
                };
                let e1 = &fs[1];
                if !str_eq(e1.0.as_str(), "name") {
                    return Err(DecodeError::Malformed);
                }
                let f_name = match <String>::from_record(&e1.1) {
                    Ok(x) => x,
                    Err(e) => return Err(e),
                };
                let e2 = &fs[2];
                if !str_eq(e2.0.as_str(), "description") {
                    return Err(DecodeError::Malformed);
                }
                let f_description = match <String>::from_record(&e2.1) {
                    Ok(x) => x,
                    Err(e) => return Err(e),
                };
                Ok(Note { id: f_id, name: f_name, description: f_description })
            },
            _ => Err(DecodeError::Malformed),
        }
    }

    proof fn lemma_round_trip(v: NoteView) {
        <String as Codec>::lemma_round_trip(v.id);
        <String as Codec>::lemma_round_trip(v.name);
        <String as Codec>::lemma_round_trip(v.description);
    }
}

/// What a session is planned to cover.
#[derive(Debug, Clone, PartialEq)]
pub struct Plan(pub String);

impl DeepView for Plan {
    type V = Seq<char>;

    open spec fn deep_view(&self) -> Seq<char> {
        self.0@
    }
}

impl Default for Plan {
    /// An empty text.
    fn default() -> (r: Plan)
        ensures
            r.deep_view() == Seq::<char>::empty(),
    {
        Plan(String::new())
    }
}

impl Codec for Plan {
    open spec fn spec_enc(v: Seq<char>) -> RecordV {
        RecordV::Str(v)
    }

    open spec fn spec_dec(r: RecordV) -> Option<Seq<char>> {
        dec_v_str(r)
    }

    fn to_record(&self) -> (r: Record) {
        Record::Str(self.0.clone())
    }

    fn from_record(r: &Record) -> (res: Result<Plan, DecodeError>) {
        match get_str(r) {
            Ok(s) => Ok(Plan(s)),
            Err(e) => Err(e),
        }
    }

    proof fn lemma_round_trip(v: Seq<char>) {
    }
}

/// What a session turned out to cover.
#[derive(Debug, Clone, PartialEq)]
pub struct Recap(pub String);

impl DeepView for Recap {
    type V = Seq<char>;

    open spec fn deep_view(&self) -> Seq<char> {
        self.0@
    }
}

impl Default for Recap {
    /// An empty text.
    fn default() -> (r: Recap)
        ensures
            r.deep_view() == Seq::<char>::empty(),
    {
        Recap(String::new())
    }
}

impl Codec for Recap {
    open spec fn spec_enc(v: Seq<char>) -> RecordV {
        RecordV::Str(v)
    }

    open spec fn spec_dec(r: RecordV) -> Option<Seq<char>> {
        dec_v_str(r)
    }

    fn to_record(&self) -> (r: Record) {
        Record::Str(self.0.clone())
    }

    fn from_record(r: &Record) -> (res: Result<Recap, DecodeError>) {
        match get_str(r) {
            Ok(s) => Ok(Recap(s)),
            Err(e) => Err(e),
        }
    }

    proof fn lemma_round_trip(v: Seq<char>) {
    }
}

/// The mathematical form of a [`Session`].
#[verifier::ext_equal]
pub struct SessionView {
    pub id: Seq<char>,
    pub name: Seq<char>,
    pub description: Seq<char>,
    pub campaign_id: Seq<char>,
    pub notes: Seq<NoteView>,
    pub plan: Seq<char>,
    pub recap: Seq<char>,
}

impl DeepView for Session {
    type V = SessionView;

    open spec fn deep_view(&self) -> SessionView {
        SessionView {
            id: self.id@,
            name: self.name@,
            description: self.description@,
            campaign_id: self.campaign_id@,
            notes: self.notes.deep_view(),
            plan: self.plan.deep_view(),
            recap: self.recap.deep_view(),
        }
    }
}

impl Session {
    /// Builds a session with a freshly generated identifier, one empty note,
    /// an empty plan and an empty recap.
    pub fn new(name: String, description: String, campaign_id: String) -> (r: Session)
        ensures
            r.deep_view().id.len() == 36,
            r.deep_view().name == name@,
            r.deep_view().description == description@,
            r.deep_view().campaign_id == campaign_id@,
            r.deep_view().notes.len() == 1,
            r.deep_view().notes[0].id.len() == 36,
            r.deep_view().notes[0].name == Seq::<char>::empty(),
            r.deep_view().notes[0].description == Seq::<char>::empty(),
            r.deep_view().plan == Seq::<char>::empty(),
            r.deep_view().recap == Seq::<char>::empty(),
    {
        let mut notes: Vec<Note> = Vec::new();
        notes.push(Note::default());
        Session {
            id: fresh_id(),
            name,
            description,
            campaign_id,
            notes,
            plan: Plan::default(),
            recap: Recap::default(),
        }
    }
}

impl Codec for Session {
    open spec fn spec_enc(v: SessionView) -> RecordV {
        RecordV::Obj(
            seq![
                ("id"@, <String as Codec>::spec_enc(v.id)),
                ("name"@, <String as Codec>::spec_enc(v.name)),
                ("description"@, <String as Codec>::spec_enc(v.description)),
                ("campaign_id"@, <String as Codec>::spec_enc(v.campaign_id)),
                ("notes"@, <Vec<Note> as Codec>::spec_enc(v.notes)),
                ("plan"@, <Plan as Codec>::spec_enc(v.plan)),
                ("recap"@, <Recap as Codec>::spec_enc(v.recap)),
            ],
        )
    }

    open spec fn spec_dec(r: RecordV) -> Option<SessionView> {
        match r {
            RecordV::Obj(fields) => if fields.len() == 7
                && fields[0].0 == "id"@
                && fields[1].0 == "name"@
                && fields[2].0 == "description"@
                && fields[3].0 == "campaign_id"@
                && fields[4].0 == "notes"@
                && fields[5].0 == "plan"@
                && fields[6].0 == "recap"@ {
                match (<String as Codec>::spec_dec(fields[0].1), <String as Codec>::spec_dec(fields[1].1), <String as Codec>::spec_dec(fields[2].1), <String as Codec>::spec_dec(fields[3].1), <Vec<Note> as Codec>::spec_dec(fields[4].1), <Plan as Codec>::spec_dec(fields[5].1), <Recap as Codec>::spec_dec(fields[6].1)) {
                    (Some(f_id), Some(f_name), Some(f_description), Some(f_campaign_id), Some(f_notes), Some(f_plan), Some(f_recap)) => Some(SessionView { id: f_id, name: f_name, description: f_description, campaign_id: f_campaign_id, notes: f_notes, plan: f_plan, recap: f_recap }),
                    _ => None,
                }
            } else {
                None
            },
            _ => None,
        }
    }

    fn to_record(&self) -> (r: Record) {
        let mut fs: Vec<(String, Record)> = Vec::new();
        fs.push((String::from_str("id"), self.id.to_record()));
        fs.push((String::from_str("name"), self.name.to_record()));
        fs.push((String::from_str("description"), self.description.to_record()));
        fs.push((String::from_str("campaign_id"), self.campaign_id.to_record()));
        fs.push((String::from_str("notes"), self.notes.to_record()));
        fs.push((String::from_str("plan"), self.plan.to_record()));
        fs.push((String::from_str("recap"), self.recap.to_record()));
        let r = Record::Obj(fs);
        proof {
            assert(field_views(fs@) =~= seq![
                ("id"@, <String as Codec>::spec_enc(self.id@)),
                ("name"@, <String as Codec>::spec_enc(self.name@)),
                ("description"@, <String as Codec>::spec_enc(self.description@)),
                ("campaign_id"@, <String as Codec>::spec_enc(self.campaign_id@)),
                ("notes"@, <Vec<Note> as Codec>::spec_enc(self.notes.deep_view())),
                ("plan"@, <Plan as Codec>::spec_enc(self.plan.deep_view())),
                ("recap"@, <Recap as Codec>::spec_enc(self.recap.deep_view())),
            ]);
        }
        r
    }

    fn from_record(r: &Record) -> (res: Result<Session, DecodeError>) {
        match r {
            Record::Obj(fs) => {
                if fs.len() != 7 {
                    return Err(DecodeError::Malformed);
                }
                let e0 = &fs[0];
                if !str_eq(e0.0.as_str(), "id") {
                    return Err(DecodeError::Malformed);
                }
                let f_id = match <String>::from_record(&e0.1) {
                    Ok(x) => x,
                    Err(e) => return Err(e),
                };
                let e1 = &fs[1];
                if !str_eq(e1.0.as_str(), "name") {
                    return Err(DecodeError::Malformed);
                }
                let f_name = match <String>::from_record(&e1.1) {
                    Ok(x) => x,
                    Err(e) => return Err(e),
                };
                let e2 = &fs[2];
                if !str_eq(e2.0.as_str(), "description") {
                    return Err(DecodeError::Malformed);
                }
                let f_description = match <String>::from_record(&e2.1) {
                    Ok(x) => x,
                    Err(e) => return Err(e),
                };
                let e3 = &fs[3];
                if !str_eq(e3.0.as_str(), "campaign_id") {
                    return Err(DecodeError::Malformed);
                }
                let f_campaign_id = match <String>::from_record(&e3.1) {
                    Ok(x) => x,
                    Err(e) => return Err(e),
                };
                let e4 = &fs[4];
                if !str_eq(e4.0.as_str(), "notes") {
                    return Err(DecodeError::Malformed);
                }
                let f_notes = match <Vec<Note>>::from_record(&e4.1) {
                    Ok(x) => x,
                    Err(e) => return Err(e),
                };
                let e5 = &fs[5];
                if !str_eq(e5.0.as_str(), "plan") {
                    return Err(DecodeError::Malformed);
                }
                let f_plan = match <Plan>::from_record(&e5.1) {
                    Ok(x) => x,
                    Err(e) => return Err(e),
                };
                let e6 = &fs[6];
                if !str_eq(e6.0.as_str(), "recap") {
                    return Err(DecodeError::Malformed);
                }
                let f_recap = match <Recap>::from_record(&e6.1) {
                    Ok(x) => x,
                    Err(e) => return Err(e),
                };
                Ok(Session { id: f_id, name: f_name, description: f_description, campaign_id: f_campaign_id, notes: f_notes, plan: f_plan, recap: f_recap })
            },
            _ => Err(DecodeError::Malformed),
        }
    }

    proof fn lemma_round_trip(v: SessionView) {
        <String as Codec>::lemma_round_trip(v.id);
        <String as Codec>::lemma_round_trip(v.name);
        <String as Codec>::lemma_round_trip(v.description);
        <String as Codec>::lemma_round_trip(v.campaign_id);
        <Vec<Note> as Codec>::lemma_round_trip(v.notes);
        <Plan as Codec>::lemma_round_trip(v.plan);
        <Recap as Codec>::lemma_round_trip(v.recap);
    }
}

} // verus!
