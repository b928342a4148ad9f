//! Actions a creature or item can take, each carrying a fresh identifier.

use vstd::prelude::*;

pub mod attack;

verus! {

use crate::action::attack::{Attack, AttackView};
use crate::ident::fresh_id;
use crate::record::{Codec, DecodeError, Record, RecordV, field_views, rec_views, str_eq};

/// An action with its identifier.
#[derive(Debug, Clone, PartialEq)]
pub struct Action {
    pub id: String,
    pub action: ActionType,
}

/// The mathematical form of an [`Action`].
#[verifier::ext_equal]
pub struct ActionView {
    pub id: Seq<char>,
    pub action: ActionTypeView,
}

impl DeepView for Action {
    type V = ActionView;

    open spec fn deep_view(&self) -> ActionView {
        ActionView { id: self.id@, action: self.action.deep_view() }
    }
}

impl Action {
    /// Wraps an action kind with a freshly generated identifier.
    pub fn new(action: ActionType) -> (r: Action)
        ensures
            r.deep_view().action == action.deep_view(),
            r.deep_view().id.len() == 36,
    {
        Action { id: fresh_id(), action }
    }
}

/// The kinds of action: an attack.
#[derive(Debug, Clone, PartialEq)]
pub enum ActionType {
    Attack(Attack),
}

/// The mathematical form of an [`ActionType`].
#[verifier::ext_equal]
pub enum ActionTypeView {
    Attack(AttackView),
}

impl DeepView for ActionType {
    type V = ActionTypeView;

    open spec fn deep_view(&self) -> ActionTypeView {
        match self {
            ActionType::Attack(x) => ActionTypeView::Attack(x.deep_view()),
        }
    }
}

impl ActionTypeView {
    /// The display text of an action kind: the text of its attack.
    pub open spec fn spec_display(self) -> Seq<char> {
        match self {
            ActionTypeView::Attack(x) => x.spec_display(),
        }
    }
}

impl ActionType {
    /// Renders the display text of this action kind.
    pub fn to_string(&self) -> (s: String)
        ensures
            s@ == self.deep_view().spec_display(),
    {
        match self {
            ActionType::Attack(x) => x.to_string(),
        }
    }
}

impl Codec for ActionType {
    open spec fn spec_enc(v: ActionTypeView) -> RecordV {
        match v {
            ActionTypeView::Attack(a0) => RecordV::Tag("Attack"@, seq![<Attack as Codec>::spec_enc(a0)]),
        }
    }

    open spec fn spec_dec(r: RecordV) -> Option<ActionTypeView> {
        match r {
            RecordV::Tag(t, args) => {
                if t == "Attack"@ && args.len() == 1 {
                    match <Attack as Codec>::spec_dec(args[0]) {
                        Some(a0) => Some(ActionTypeView::Attack(a0)),
                        None => None,
                    }
                } else {
                    None
                }
            },
            _ => None,
        }
    }

    fn to_record(&self) -> (r: Record) {
        match self {
            ActionType::Attack(a0) => {
                let mut args: Vec<Record> = Vec::new();
                args.push(a0.to_record());
                let r = Record::Tag(String::from_str("Attack"), args);
                proof {
                    assert(rec_views(args@) =~= seq![<Attack as Codec>::spec_enc(a0.deep_view())]);
                }
                r
            },
        }
    }

    fn from_record(r: &Record) -> (res: Result<ActionType, DecodeError>) {
        match r {
            Record::Tag(t, args) => {
                if str_eq(t.as_str(), "Attack") && args.len() == 1 {
                    let a0 = match <Attack>::from_record(&args[0]) {
                        Ok(x) => x,
                        Err(e) => return Err(e),
                    };
                    Ok(ActionType::Attack(a0))
                } else {
                    Err(DecodeError::Malformed)
                }
            },
            _ => Err(DecodeError::Malformed),
        }
    }

    proof fn lemma_round_trip(v: ActionTypeView) {
        reveal_strlit("Attack");
        match v {
            ActionTypeView::Attack(a0) => {
                <Attack as Codec>::lemma_round_trip(a0);
                assert(Self::spec_dec(Self::spec_enc(v)) == Some(v));
            },
        }
    }
}

impl Codec for Action {
    open spec fn spec_enc(v: ActionView) -> RecordV {
        RecordV::Obj(
            seq![
                ("id"@, <String as Codec>::spec_enc(v.id)),
                ("action"@, <ActionType as Codec>::spec_enc(v.action)),
            ],
        )
    }

    open spec fn spec_dec(r: RecordV) -> Option<ActionView> {
        match r {
            RecordV::Obj(fields) => if fields.len() == 2
                && fields[0].0 == "id"@
                && fields[1].0 == "action"@ {
                match (<String as Codec>::spec_dec(fields[0].1), <ActionType as Codec>::spec_dec(fields[1].1)) {
                    (Some(f_id), Some(f_action)) => Some(ActionView { id: f_id, action: f_action }),
                    _ => None,
                }
            } else {
                None
            },
            _ => None,
        }
    }

    fn to_record(&self) -> (r: Record) {
        let mut fs: Vec<(String, Record)> = Vec::new();
        fs.push((String::from_str("id"), self.id.to_record()));
        fs.push((String::from_str("action"), self.action.to_record()));
        let r = Record::Obj(fs);
        proof {
            assert(field_views(fs@) =~= seq![
                ("id"@, <String as Codec>::spec_enc(self.id@)),
                ("action"@, <ActionType as Codec>::spec_enc(self.action.deep_view())),
            ]);
        }
        r
    }

    fn from_record(r: &Record) -> (res: Result<Action, DecodeError>) {
        match r {
            Record::Obj(fs) => {
                if fs.len() != 2 {
                    return Err(DecodeError::Malformed);
                }
                let e0 = &fs[0];
                if !str_eq(e0.0.as_str(), "id") {
                    return Err(DecodeError::Malformed);
                }
                let f_id = match <String>::from_record(&e0.1) {
                    Ok(x) => x,
                    Err(e) => return Err(e),
                };
                let e1 = &fs[1];
                if !str_eq(e1.0.as_str(), "action") {
                    return Err(DecodeError::Malformed);
                }
                let f_action = match <ActionType>::from_record(&e1.1) {
                    Ok(x) => x,
                    Err(e) => return Err(e),
                };
                Ok(Action { id: f_id, action: f_action })
            },
            _ => Err(DecodeError::Malformed),
        }
    }

    proof fn lemma_round_trip(v: ActionView) {
        <String as Codec>::lemma_round_trip(v.id);
        <ActionType as Codec>::lemma_round_trip(v.action);
    }
}

} // verus!
