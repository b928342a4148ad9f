//! A schema-less structured record format.
//!
//! Every entity and value type of this library encodes to a [`Record`] and
//! decodes back; the decoders reject anything the matching encoder does not
//! produce, and a round-trip lemma per type proves that decoding an encoded
//! value recovers it exactly. The wire form of a `Record` (JSON or otherwise)
//! is a concern of the host application.

use vstd::prelude::*;

verus! {

broadcast use vstd::std_specs::vec::axiom_vec_index_decreases, vstd::seq::axiom_seq_index_decreases;

/// A structured value: a scalar, a list, an object of named fields, or a
/// tagged variant with a payload.
#[derive(Debug, PartialEq)]
pub enum Record {
    Bool(bool),
    Int(i64),
    Str(String),
    List(Vec<Record>),
    Obj(Vec<(String, Record)>),
    Tag(String, Vec<Record>),
}

/// The mathematical form of a [`Record`].
#[verifier::ext_equal]
pub enum RecordV {
    Bool(bool),
    Int(i64),
    Str(Seq<char>),
    List(Seq<RecordV>),
    Obj(Seq<(Seq<char>, RecordV)>),
    Tag(Seq<char>, Seq<RecordV>),
}

/// The mathematical form of a record.
pub open spec fn rec_view(r: Record) -> RecordV
    decreases r,
{
    match r {
        Record::Bool(b) => RecordV::Bool(b),
        Record::Int(i) => RecordV::Int(i),
        Record::Str(s) => RecordV::Str(s@),
        Record::List(v) => RecordV::List(rec_views(v@)),
        Record::Obj(fs) => RecordV::Obj(field_views(fs@)),
        Record::Tag(t, v) => RecordV::Tag(t@, rec_views(v@)),
    }
}

/// The mathematical forms of a sequence of records.
pub open spec fn rec_views(v: Seq<Record>) -> Seq<RecordV>
    decreases v,
{
    Seq::new(
        v.len(),
        |i: int|
            if 0 <= i < v.len() {
                rec_view(v[i])
            } else {
                RecordV::Bool(false)
            },
    )
}

/// The mathematical forms of a sequence of named fields.
pub open spec fn field_views(fs: Seq<(String, Record)>) -> Seq<(Seq<char>, RecordV)>
    decreases fs,
{
    Seq::new(
        fs.len(),
        |i: int|
            if 0 <= i < fs.len() {
                (fs[i].0@, rec_view(fs[i].1))
            } else {
                (Seq::<char>::empty(), RecordV::Bool(false))
            },
    )
}

impl DeepView for Record {
    type V = RecordV;

    open spec fn deep_view(&self) -> RecordV {
        rec_view(*self)
    }
}

/// Why a record failed to decode: it did not have the shape the decoder of
/// the requested type expects.
#[derive(Debug, Clone, PartialEq, Eq, Structural)]
pub enum DecodeError {
    Malformed,
}

/// True when two string slices hold the same characters.
pub fn str_eq(a: &str, b: &str) -> (r: bool)
    ensures
        r == (a@ == b@),
{
    let x: String = a.to_owned();
    let y: String = b.to_owned();
    x == y
}

// ---------------------------------------------------------------------------
// Scalar encodings
// ---------------------------------------------------------------------------

/// Decodes an `i64` scalar.
pub open spec fn dec_v_i64(r: RecordV) -> Option<i64> {
    match r {
        RecordV::Int(i) => Some(i),
        _ => None,
    }
}

/// Decodes an `i32` scalar, rejecting out-of-range values.
pub open spec fn dec_v_i32(r: RecordV) -> Option<i32> {
    match r {
        RecordV::Int(i) => if i32::MIN <= i <= i32::MAX {
            Some(i as i32)
        } else {
            None
        },
        _ => None,
    }
}

/// Decodes a `u32` scalar, rejecting out-of-range values.
pub open spec fn dec_v_u32(r: RecordV) -> Option<u32> {
    match r {
        RecordV::Int(i) => if 0 <= i <= u32::MAX {
            Some(i as u32)
        } else {
            None
        },
        _ => None,
    }
}

/// Decodes a `u8` scalar, rejecting out-of-range values.
pub open spec fn dec_v_u8(r: RecordV) -> Option<u8> {
    match r {
        RecordV::Int(i) => if 0 <= i <= u8::MAX {
            Some(i as u8)
        } else {
            None
        },
        _ => None,
    }
}

/// Decodes a `bool` scalar.
pub open spec fn dec_v_bool(r: RecordV) -> Option<bool> {
    match r {
        RecordV::Bool(b) => Some(b),
        _ => None,
    }
}

/// Decodes a string scalar.
pub open spec fn dec_v_str(r: RecordV) -> Option<Seq<char>> {
    match r {
        RecordV::Str(s) => Some(s),
        _ => None,
    }
}

/// Reads an `i64` scalar out of a record.
pub fn get_i64(r: &Record) -> (res: Result<i64, DecodeError>)
    ensures
        match res {
            Ok(n) => dec_v_i64(r.deep_view()) == Some(n),
            Err(_) => dec_v_i64(r.deep_view()) is None,
        },
{
    match r {
        Record::Int(i) => Ok(*i),
        _ => Err(DecodeError::Malformed),
    }
}

/// Reads an `i32` scalar out of a record.
pub fn get_i32(r: &Record) -> (res: Result<i32, DecodeError>)
    ensures
        match res {
            Ok(n) => dec_v_i32(r.deep_view()) == Some(n),
            Err(_) => dec_v_i32(r.deep_view()) is None,
        },
{
    match r {
        Record::Int(i) => if i32::MIN as i64 <= *i && *i <= i32::MAX as i64 {
            Ok(*i as i32)
        } else {
            Err(DecodeError::Malformed)
        },
        _ => Err(DecodeError::Malformed),
    }
}

/// Reads a `u32` scalar out of a record.
pub fn get_u32(r: &Record) -> (res: Result<u32, DecodeError>)
    ensures
        match res {
            Ok(n) => dec_v_u32(r.deep_view()) == Some(n),
            Err(_) => dec_v_u32(r.deep_view()) is None,
        },
{
    match r {
        Record::Int(i) => if 0 <= *i && *i <= u32::MAX as i64 {
            Ok(*i as u32)
        } else {
            Err(DecodeError::Malformed)
        },
        _ => Err(DecodeError::Malformed),
    }
}

/// Reads a `u8` scalar out of a record.
pub fn get_u8(r: &Record) -> (res: Result<u8, DecodeError>)
    ensures
        match res {
            Ok(n) => dec_v_u8(r.deep_view()) == Some(n),
            Err(_) => dec_v_u8(r.deep_view()) is None,
        },
{
    match r {
        Record::Int(i) => if 0 <= *i && *i <= u8::MAX as i64 {
            Ok(*i as u8)
        } else {
            Err(DecodeError::Malformed)
        },
        _ => Err(DecodeError::Malformed),
    }
}

/// Reads a `bool` scalar out of a record.
pub fn get_bool(r: &Record) -> (res: Result<bool, DecodeError>)
    ensures
        match res {
            Ok(b) => dec_v_bool(r.deep_view()) == Some(b),
            Err(_) => dec_v_bool(r.deep_view()) is None,
        },
{
    match r {
        Record::Bool(b) => Ok(*b),
        _ => Err(DecodeError::Malformed),
    }
}

/// Reads a string scalar out of a record.
pub fn get_str(r: &Record) -> (res: Result<String, DecodeError>)
    ensures
        match res {
            Ok(s) => dec_v_str(r.deep_view()) == Some(s@),
            Err(_) => dec_v_str(r.deep_view()) is None,
        },
{
    match r {
        Record::Str(s) => Ok(s.clone()),
        _ => Err(DecodeError::Malformed),
    }
}

// ---------------------------------------------------------------------------
// Sequence and option encodings
// ---------------------------------------------------------------------------

/// Encodes each element of a sequence with `ef`.
pub open spec fn enc_seq<A>(s: Seq<A>, ef: spec_fn(A) -> RecordV) -> Seq<RecordV> {
    Seq::new(s.len(), |i: int| ef(s[i]))
}

/// Decodes each element of a sequence with `df`; fails if any element fails.
pub open spec fn dec_seq<A>(s: Seq<RecordV>, df: spec_fn(RecordV) -> Option<A>) -> Option<
    Seq<A>,
> {
    if forall|i: int| 0 <= i < s.len() ==> (#[trigger] df(s[i])) is Some {
        Some(Seq::new(s.len(), |i: int| df(s[i]).unwrap()))
    } else {
        None
    }
}

/// Decoding inverts encoding, element by element.
pub proof fn lemma_dec_enc_seq<A>(
    s: Seq<A>,
    ef: spec_fn(A) -> RecordV,
    df: spec_fn(RecordV) -> Option<A>,
)
    requires
        forall|a: A| #[trigger] df(ef(a)) == Some(a),
    ensures
        dec_seq(enc_seq(s, ef), df) == Some(s),
{
    let e = enc_seq(s, ef);
    assert forall|i: int| 0 <= i < e.len() implies (#[trigger] df(e[i])) is Some by {
        assert(df(ef(s[i])) == Some(s[i]));
    }
    assert(Seq::new(e.len(), |i: int| df(e[i]).unwrap()) =~= s);
}

/// Encodes an optional value as a `Some` or `None` tagged variant.
pub open spec fn enc_opt<A>(o: Option<A>, ef: spec_fn(A) -> RecordV) -> RecordV {
    match o {
        Some(a) => RecordV::Tag("Some"@, seq![ef(a)]),
        None => RecordV::Tag("None"@, seq![]),
    }
}

/// Decodes an optional value from a `Some` or `None` tagged variant.
pub open spec fn dec_opt<A>(r: RecordV, df: spec_fn(RecordV) -> Option<A>) -> Option<
    Option<A>,
> {
    match r {
        RecordV::Tag(t, args) => if t == "Some"@ && args.len() == 1 {
            match df(args[0]) {
                Some(a) => Some(Some(a)),
                None => None,
            }
        } else if t == "None"@ && args.len() == 0 {
            Some(None)
        } else {
            None
        },
        _ => None,
    }
}

/// Decoding inverts encoding for optional values.
pub proof fn lemma_dec_enc_opt<A>(
    o: Option<A>,
    ef: spec_fn(A) -> RecordV,
    df: spec_fn(RecordV) -> Option<A>,
)
    requires
        forall|a: A| #[trigger] df(ef(a)) == Some(a),
    ensures
        dec_opt(enc_opt(o, ef), df) == Some(o),
{
    reveal_strlit("Some");
    reveal_strlit("None");
    match o {
        Some(a) => {
            assert(df(ef(a)) == Some(a));
        },
        None => {
        },
    }
}

/// Decodes a list record elementwise with `df`.
pub open spec fn dec_list<A>(r: RecordV, df: spec_fn(RecordV) -> Option<A>) -> Option<Seq<A>> {
    match r {
        RecordV::List(items) => dec_seq(items, df),
        _ => None,
    }
}

// ---------------------------------------------------------------------------
// The codec trait
// ---------------------------------------------------------------------------

/// A type that encodes to a [`Record`] and decodes back, with decoding proved
/// to invert encoding on the mathematical forms of its values.
pub trait Codec: DeepView + Sized {
    /// The record form of a value of this type.
    spec fn spec_enc(v: Self::V) -> RecordV;

    /// The value a record decodes to, when it has the shape this type's
    /// encoder produces.
    spec fn spec_dec(r: RecordV) -> Option<Self::V>;

    /// Encodes `self` as a record.
    fn to_record(&self) -> (r: Record)
        ensures
            r.deep_view() == Self::spec_enc(self.deep_view()),
    ;

    /// Decodes a value of this type from a record.
    fn from_record(r: &Record) -> (res: Result<Self, DecodeError>)
        ensures
            match res {
                Ok(x) => Self::spec_dec(r.deep_view()) == Some(x.deep_view()),
                Err(_) => Self::spec_dec(r.deep_view()) is None,
            },
    ;

    /// Decoding inverts encoding.
    proof fn lemma_round_trip(v: Self::V)
        ensures
            Self::spec_dec(Self::spec_enc(v)) == Some(v),
    ;
}

impl Codec for i64 {
    open spec fn spec_enc(v: i64) -> RecordV {
        RecordV::Int(v)
    }

    open spec fn spec_dec(r: RecordV) -> Option<i64> {
        dec_v_i64(r)
    }

    fn to_record(&self) -> (r: Record) {
        Record::Int(*self)
    }

    fn from_record(r: &Record) -> (res: Result<i64, DecodeError>) {
        get_i64(r)
    }

    proof fn lemma_round_trip(v: i64) {
    }
}

impl Codec for i32 {
    open spec fn spec_enc(v: i32) -> RecordV {
        RecordV::Int(v as i64)
    }

    open spec fn spec_dec(r: RecordV) -> Option<i32> {
        dec_v_i32(r)
    }

    fn to_record(&self) -> (r: Record) {
        Record::Int(*self as i64)
    }

    fn from_record(r: &Record) -> (res: Result<i32, DecodeError>) {
        get_i32(r)
    }

    proof fn lemma_round_trip(v: i32) {
    }
}

impl Codec for u32 {
    open spec fn spec_enc(v: u32) -> RecordV {
        RecordV::Int(v as i64)
    }

    open spec fn spec_dec(r: RecordV) -> Option<u32> {
        dec_v_u32(r)
    }

    fn to_record(&self) -> (r: Record) {
        Record::Int(*self as i64)
    }

    fn from_record(r: &Record) -> (res: Result<u32, DecodeError>) {
        get_u32(r)
    }

    proof fn lemma_round_trip(v: u32) {
    }
}

impl Codec for u8 {
    open spec fn spec_enc(v: u8) -> RecordV {
        RecordV::Int(v as i64)
    }

    open spec fn spec_dec(r: RecordV) -> Option<u8> {
        dec_v_u8(r)
    }

    fn to_record(&self) -> (r: Record) {
        Record::Int(*self as i64)
    }

    fn from_record(r: &Record) -> (res: Result<u8, DecodeError>) {
        get_u8(r)
    }

    proof fn lemma_round_trip(v: u8) {
    }
}

impl Codec for bool {
    open spec fn spec_enc(v: bool) -> RecordV {
        RecordV::Bool(v)
    }

    open spec fn spec_dec(r: RecordV) -> Option<bool> {
        dec_v_bool(r)
    }

    fn to_record(&self) -> (r: Record) {
        Record::Bool(*self)
    }

    fn from_record(r: &Record) -> (res: Result<bool, DecodeError>) {
        get_bool(r)
    }

    proof fn lemma_round_trip(v: bool) {
    }
}

impl Codec for String {
    open spec fn spec_enc(v: Seq<char>) -> RecordV {
        RecordV::Str(v)
    }

    open spec fn spec_dec(r: RecordV) -> Option<Seq<char>> {
        dec_v_str(r)
    }

    fn to_record(&self) -> (r: Record) {
        Record::Str(self.clone())
    }

    fn from_record(r: &Record) -> (res: Result<String, DecodeError>) {
        get_str(r)
    }

    proof fn lemma_round_trip(v: Seq<char>) {
    }
}

impl<T: Codec> Codec for Vec<T> {
    open spec fn spec_enc(v: Seq<T::V>) -> RecordV {
        RecordV::List(enc_seq(v, |x: T::V| T::spec_enc(x)))
    }

    open spec fn spec_dec(r: RecordV) -> Option<Seq<T::V>> {
        dec_list(r, |x: RecordV| T::spec_dec(x))
    }

    fn to_record(&self) -> (r: Record) {
        let mut items: Vec<Record> = Vec::new();
        let mut i: usize = 0;
        while i < self.len()
            invariant
                i <= self@.len(),
                items@.len() == i,
                forall|j: int|
                    0 <= j < i ==> rec_view(#[trigger] items@[j]) == T::spec_enc(
                        self@[j].deep_view(),
                    ),
            decreases self@.len() - i,
        {
            let rec = self[i].to_record();
            items.push(rec);
            i += 1;
        }
        let r = Record::List(items);
        proof {
            assert(rec_views(items@) =~= enc_seq(self.deep_view(), |x: T::V| T::spec_enc(x)));
        }
        r
    }

    fn from_record(r: &Record) -> (res: Result<Vec<T>, DecodeError>) {
        match r {
            Record::List(items) => {
                let ghost views = rec_views(items@);
                let mut out: Vec<T> = Vec::new();
                let mut i: usize = 0;
                while i < items.len()
                    invariant
                        i <= items@.len(),
                        out@.len() == i,
                        views == rec_views(items@),
                        r.deep_view() == RecordV::List(views),
                        forall|j: int|
                            0 <= j < i ==> T::spec_dec(#[trigger] views[j]) == Some(
                                out@[j].deep_view(),
                            ),
                    decreases items@.len() - i,
                {
                    match T::from_record(&items[i]) {
                        Ok(x) => {
                            out.push(x);
                        },
                        Err(e) => {
                            proof {
                                let df = |x: RecordV| T::spec_dec(x);
                                assert(df(views[i as int]) is None);
                                assert(dec_seq(views, df) is None);
                            }
                            return Err(e);
                        },
                    }
                    i += 1;
                }
                proof {
                    let df = |x: RecordV| T::spec_dec(x);
                    assert forall|j: int| 0 <= j < views.len() implies (#[trigger] df(
                        views[j],
                    )) is Some by {
                        assert(T::spec_dec(views[j]) == Some(out@[j].deep_view()));
                    }
                    assert(Seq::new(views.len(), |j: int| df(views[j]).unwrap())
                        =~= out.deep_view());
                }
                Ok(out)
            },
            _ => Err(DecodeError::Malformed),
        }
    }

    proof fn lemma_round_trip(v: Seq<T::V>) {
        assert forall|a: T::V| #[trigger] T::spec_dec(T::spec_enc(a)) == Some(a) by {
            T::lemma_round_trip(a);
        }
        lemma_dec_enc_seq(v, |x: T::V| T::spec_enc(x), |x: RecordV| T::spec_dec(x));
    }
}

impl<T: Codec> Codec for Option<T> {
    open spec fn spec_enc(v: Option<T::V>) -> RecordV {
        enc_opt(v, |x: T::V| T::spec_enc(x))
    }

    open spec fn spec_dec(r: RecordV) -> Option<Option<T::V>> {
        dec_opt(r, |x: RecordV| T::spec_dec(x))
    }

    fn to_record(&self) -> (r: Record) {
        match self {
            Some(x) => {
                let rec = x.to_record();
                let mut args: Vec<Record> = Vec::new();
                args.push(rec);
                let r = Record::Tag(String::from_str("Some"), args);
                proof {
                    assert(rec_views(args@) =~= seq![T::spec_enc(x.deep_view())]);
                }
                r
            },
            None => {
                let r = Record::Tag(String::from_str("None"), Vec::new());
                proof {
                    assert(rec_views(Seq::<Record>::empty()) =~= Seq::<RecordV>::empty());
                }
                r
            },
        }
    }

    fn from_record(r: &Record) -> (res: Result<Option<T>, DecodeError>) {
        proof {
            reveal_strlit("Some");
            reveal_strlit("None");
        }
        match r {
            Record::Tag(t, args) => {
                if str_eq(t.as_str(), "Some") && args.len() == 1 {
                    match T::from_record(&args[0]) {
                        Ok(x) => {
                            proof {
                                assert(rec_views(args@)[0] == rec_view(args@[0]));
                            }
                            Ok(Some(x))
                        },
                        Err(e) => Err(e),
                    }
                } else if str_eq(t.as_str(), "None") && args.len() == 0 {
                    Ok(None)
                } else {
                    Err(DecodeError::Malformed)
                }
            },
            _ => Err(DecodeError::Malformed),
        }
    }

    proof fn lemma_round_trip(v: Option<T::V>) {
        assert forall|a: T::V| #[trigger] T::spec_dec(T::spec_enc(a)) == Some(a) by {
            T::lemma_round_trip(a);
        }
        lemma_dec_enc_opt(v, |x: T::V| T::spec_enc(x), |x: RecordV| T::spec_dec(x));
    }
}

} // verus!
