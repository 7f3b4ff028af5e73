//! The contract that every stored record type meets, and the readers of
//! single fields that the record types decode with.

use crate::attr::{AttrMapModel, AttrModel, AttrValue, AttributeMap};
use crate::date::{date_text, parse_date, Date};
use crate::id::{format_id, id_parsed, id_text, parse_id};
use crate::timestamp::{parse_rfc3339, rfc3339_parsed, rfc3339_text, Timestamp};
use vstd::prelude::*;

verus! {

/// The address of one stored record: a partition value alone, or a
/// partition value and a sort value.
#[derive(Clone, Copy, Debug, PartialEq, Eq, Structural)]
pub enum Key {
    Simple(u128),
    Composite(u128, u128),
}

/// Why a stored item could not be decoded, as the contracts see it.
pub enum Fault {
    Missing(Seq<char>),
    Malformed(Seq<char>),
}

/// Why a stored item could not be decoded into a record.
#[derive(Debug, Clone, PartialEq)]
pub enum DecodeError {
    /// The named attribute is absent.
    Missing(String),
    /// The named attribute is present but does not hold a value of the
    /// field's type.
    Malformed(String),
}

impl View for DecodeError {
    type V = Fault;

    open spec fn view(&self) -> Fault {
        match self {
            DecodeError::Missing(f) => Fault::Missing(f@),
            DecodeError::Malformed(f) => Fault::Malformed(f@),
        }
    }
}

/// A record type that can be stored: it names its table and key attributes,
/// and converts itself to and from an attribute map.
pub trait Item: Sized + View {
    /// What a caller supplies to create a record: its fields without the
    /// identity.
    type Payload: View;

    /// The record's fields hold values that can be stored.
    spec fn valid(v: Self::V) -> bool;

    /// The payload's fields hold values that can be stored.
    spec fn payload_valid(p: <Self::Payload as View>::V) -> bool;

    spec fn table() -> Seq<char>;

    spec fn partition_key() -> Seq<char>;

    spec fn sort_key() -> Option<Seq<char>>;

    /// The names of the attributes that every stored item must hold.
    spec fn required() -> Set<Seq<char>>;

    /// The key under which a record is stored.
    spec fn key_of(v: Self::V) -> Key;

    /// The attribute map that a record is stored as.
    spec fn encode(v: Self::V) -> AttrMapModel;

    /// The record that an attribute map holds, or the first field that is
    /// missing or malformed.
    spec fn decode(m: AttrMapModel) -> Result<Self::V, Fault>;

    /// The record created from a payload under the identity `id`.
    spec fn built(id: u128, p: <Self::Payload as View>::V) -> Self::V;

    fn table_name() -> (r: &'static str)
        ensures
            r@ == Self::table(),
    ;

    fn partition_key_name() -> (r: &'static str)
        ensures
            r@ == Self::partition_key(),
    ;

    fn sort_key_name() -> (r: Option<&'static str>)
        ensures
            match r {
                Some(s) => Self::sort_key() == Some(s@),
                None => Self::sort_key() is None,
            },
    ;

    fn key(&self) -> (r: Key)
        ensures
            r == Self::key_of(self@),
    ;

    /// Encodes the record.
    fn into_hashmap(&self) -> (r: AttributeMap)
        requires
            Self::valid(self@),
        ensures
            r.wf(),
            r@ == Self::encode(self@),
    ;

    /// Decodes a stored item. An item that is the encoding of a valid record
    /// decodes to that record.
    fn from_hashmap(map: AttributeMap) -> (r: Result<Self, DecodeError>)
        requires
            map.wf(),
        ensures
            match r {
                Ok(x) => Self::decode(map@) == Ok::<Self::V, Fault>(x@) && Self::valid(x@),
                Err(e) => Self::decode(map@) == Err::<Self::V, Fault>(e@),
            },
            forall|v: Self::V| Self::valid(v) && map@ == Self::encode(v) ==> Self::decode(map@) == Ok::<Self::V, Fault>(v),
    ;

    /// The record created from a payload under the identity `id`.
    fn from_payload(id: u128, payload: Self::Payload) -> (r: Self)
        requires
            Self::payload_valid(payload@),
        ensures
            r@ == Self::built(id, payload@),
            Self::valid(r@),
    ;

    /// A record's key has the shape that the type declares, and its
    /// encoding holds the key's values under the key attribute names.
    proof fn lemma_key_encoded(v: Self::V)
        requires
            Self::valid(v),
        ensures
            (Self::key_of(v) is Simple) <==> (Self::sort_key() is None),
            Self::encode(v).contains_key(Self::partition_key()),
            Self::encode(v)[Self::partition_key()] == AttrModel::Text(
                id_text(partition_of(Self::key_of(v))),
            ),
            Self::sort_key() matches Some(sk) ==> {
                &&& sk != Self::partition_key()
                &&& Self::encode(v).contains_key(sk)
                &&& Self::encode(v)[sk] == AttrModel::Text(id_text(sort_of(Self::key_of(v))))
            },
    ;

    /// An item that lacks a required attribute does not decode.
    proof fn lemma_missing_field(m: AttrMapModel, f: Seq<char>)
        requires
            Self::required().contains(f),
            !m.contains_key(f),
        ensures
            Self::decode(m) is Err,
    ;
}

/// The partition value of a key.
pub open spec fn partition_of(k: Key) -> u128 {
    match k {
        Key::Simple(p) => p,
        Key::Composite(p, _) => p,
    }
}

/// The sort value of a composite key.
pub open spec fn sort_of(k: Key) -> u128 {
    match k {
        Key::Simple(_) => 0,
        Key::Composite(_, s) => s,
    }
}

/// The names of the key attributes of `T`.
pub open spec fn key_names<T: Item>() -> Set<Seq<char>> {
    match T::sort_key() {
        Some(s) => set![T::partition_key(), s],
        None => set![T::partition_key()],
    }
}

/// The key attributes that address `k` in the table of `T`, if `k` has the
/// shape of `T`'s keys.
pub open spec fn key_attrs<T: Item>(k: Key) -> Option<AttrMapModel> {
    match (k, T::sort_key()) {
        (Key::Simple(p), None) => Some(map![T::partition_key() => AttrModel::Text(id_text(p))]),
        (Key::Composite(p, s), Some(sk)) => Some(
            map![T::partition_key() => AttrModel::Text(id_text(p)), sk => AttrModel::Text(id_text(s))],
        ),
        _ => None,
    }
}

/// The key attributes of a valid record's encoding are those that address
/// its key.
pub proof fn lemma_key_attrs<T: Item>(v: T::V)
    requires
        T::valid(v),
    ensures
        key_attrs::<T>(T::key_of(v)) == Some(T::encode(v).restrict(key_names::<T>())),
{
    T::lemma_key_encoded(v);
    let m = T::encode(v);
    match T::sort_key() {
        Some(sk) => {
            assert(key_attrs::<T>(T::key_of(v))->0 =~= m.restrict(key_names::<T>()));
        },
        None => {
            assert(key_attrs::<T>(T::key_of(v))->0 =~= m.restrict(key_names::<T>()));
        },
    }
}

/// The string held by attribute `name`.
pub open spec fn text_field(m: AttrMapModel, name: Seq<char>) -> Result<Seq<char>, Fault> {
    if !m.contains_key(name) {
        Err(Fault::Missing(name))
    } else {
        match m[name] {
            AttrModel::Text(s) => Ok(s),
            _ => Err(Fault::Malformed(name)),
        }
    }
}

/// The identifier held by attribute `name`.
pub open spec fn id_field(m: AttrMapModel, name: Seq<char>) -> Result<u128, Fault> {
    match text_field(m, name) {
        Ok(s) => match id_parsed(s) {
            Some(v) => Ok(v),
            None => Err(Fault::Malformed(name)),
        },
        Err(e) => Err(e),
    }
}

/// The date held by attribute `name`.
pub open spec fn date_field(m: AttrMapModel, name: Seq<char>) -> Result<Date, Fault> {
    match text_field(m, name) {
        Ok(s) => match crate::date::date_parsed(s) {
            Some((y, mo, d)) => Ok(Date { year: y as i32, month: mo as u32, day: d as u32 }),
            None => Err(Fault::Malformed(name)),
        },
        Err(e) => Err(e),
    }
}

/// The timestamp held by attribute `name`: one that can be stored.
pub open spec fn timestamp_field(m: AttrMapModel, name: Seq<char>) -> Result<Timestamp, Fault> {
    match text_field(m, name) {
        Ok(s) => match rfc3339_parsed(s) {
            Some((secs, nanos)) => {
                let t = Timestamp { secs: secs as i64, nanos: nanos as u32 };
                if secs == t.secs && nanos == t.nanos && t.wf() {
                    Ok(t)
                } else {
                    Err(Fault::Malformed(name))
                }
            },
            None => Err(Fault::Malformed(name)),
        },
        Err(e) => Err(e),
    }
}

/// The identifiers that a sequence of texts denotes, if each denotes one.
pub open spec fn ids_parsed(ss: Seq<Seq<char>>) -> Option<Seq<u128>> {
    if forall|i: int| 0 <= i < ss.len() ==> #[trigger] id_parsed(ss[i]) is Some {
        Some(Seq::new(ss.len(), |i: int| id_parsed(ss[i])->0))
    } else {
        None
    }
}

/// The identifiers held by the string-set attribute `name`.
pub open spec fn id_set_field(m: AttrMapModel, name: Seq<char>) -> Result<Seq<u128>, Fault> {
    if !m.contains_key(name) {
        Err(Fault::Missing(name))
    } else {
        match m[name] {
            AttrModel::TextSet(ss) => match ids_parsed(ss) {
                Some(ids) => Ok(ids),
                None => Err(Fault::Malformed(name)),
            },
            _ => Err(Fault::Malformed(name)),
        }
    }
}

/// The texts of a sequence of identifiers.
pub open spec fn id_texts(ids: Seq<u128>) -> Seq<Seq<char>> {
    ids.map_values(|v: u128| id_text(v))
}

/// The texts of identifiers, in order.
pub fn write_ids(ids: &Vec<u128>) -> (r: Vec<String>)
    ensures
        crate::attr::texts_view(r@) == id_texts(ids@),
{
    let mut out: Vec<String> = Vec::new();
    let mut i: usize = 0;
    while i < ids.len()
        invariant
            i <= ids@.len(),
            out@.len() == i,
            crate::attr::texts_view(out@) == id_texts(ids@.take(i as int)),
        decreases ids@.len() - i,
    {
        let ghost before = out@;
        out.push(format_id(ids[i]));
        assert forall|j: int| 0 <= j <= i implies #[trigger] crate::attr::texts_view(out@)[j]
            == id_texts(ids@.take(i + 1))[j] by {
            if j < i {
                assert(crate::attr::texts_view(before)[j] == id_texts(ids@.take(i as int))[j]);
            }
        }
        assert(crate::attr::texts_view(out@) =~= id_texts(ids@.take(i + 1)));
        i += 1;
    }
    assert(ids@.take(ids@.len() as int) =~= ids@);
    out
}

/// Reads the string attribute `name`.
pub fn read_text(map: &AttributeMap, name: &str) -> (r: Result<String, DecodeError>)
    requires
        map.wf(),
    ensures
        match r {
            Ok(s) => text_field(map@, name@) == Ok::<Seq<char>, Fault>(s@),
            Err(e) => text_field(map@, name@) == Err::<Seq<char>, Fault>(e@),
        },
{
    match map.get(name) {
        Some(AttrValue::S(s)) => Ok(s.clone()),
        Some(_) => Err(DecodeError::Malformed(name.to_owned())),
        None => Err(DecodeError::Missing(name.to_owned())),
    }
}

/// Reads the identifier attribute `name`.
pub fn read_id(map: &AttributeMap, name: &str) -> (r: Result<u128, DecodeError>)
    requires
        map.wf(),
    ensures
        match r {
            Ok(v) => id_field(map@, name@) == Ok::<u128, Fault>(v),
            Err(e) => id_field(map@, name@) == Err::<u128, Fault>(e@),
        },
        forall|v: u128|
            map@.contains_key(name@) && map@[name@] == AttrModel::Text(id_text(v)) ==> r == Ok::<
                u128,
                DecodeError,
            >(v),
{
    let s = match read_text(map, name) {
        Ok(s) => s,
        Err(e) => return Err(e),
    };
    match parse_id(s.as_str()) {
        Some(v) => Ok(v),
        None => Err(DecodeError::Malformed(name.to_owned())),
    }
}

/// Reads the date attribute `name`.
pub fn read_date(map: &AttributeMap, name: &str) -> (r: Result<Date, DecodeError>)
    requires
        map.wf(),
    ensures
        match r {
            Ok(d) => date_field(map@, name@) == Ok::<Date, Fault>(d) && d.wf(),
            Err(e) => date_field(map@, name@) == Err::<Date, Fault>(e@),
        },
        forall|d: Date|
            d.wf() && map@.contains_key(name@) && map@[name@] == AttrModel::Text(date_text(d)) ==> r
                == Ok::<Date, DecodeError>(d),
{
    let s = match read_text(map, name) {
        Ok(s) => s,
        Err(e) => return Err(e),
    };
    match parse_date(s.as_str()) {
        Some(d) => Ok(d),
        None => Err(DecodeError::Malformed(name.to_owned())),
    }
}

/// Reads the timestamp attribute `name`.
pub fn read_timestamp(map: &AttributeMap, name: &str) -> (r: Result<Timestamp, DecodeError>)
    requires
        map.wf(),
    ensures
        match r {
            Ok(t) => timestamp_field(map@, name@) == Ok::<Timestamp, Fault>(t) && t.wf(),
            Err(e) => timestamp_field(map@, name@) == Err::<Timestamp, Fault>(e@),
        },
        forall|t: Timestamp|
            t.wf() && map@.contains_key(name@) && map@[name@] == AttrModel::Text(
                rfc3339_text(t.secs as int, t.nanos as int),
            ) ==> r == Ok::<Timestamp, DecodeError>(t),
{
    let s = match read_text(map, name) {
        Ok(s) => s,
        Err(e) => return Err(e),
    };
    match parse_rfc3339(s.as_str()) {
        Some((secs, nanos)) => match Timestamp::new(secs, nanos) {
            Some(t) => Ok(t),
            None => Err(DecodeError::Malformed(name.to_owned())),
        },
        None => Err(DecodeError::Malformed(name.to_owned())),
    }
}

/// Reads the string-set attribute `name` as identifiers.
pub fn read_id_set(map: &AttributeMap, name: &str) -> (r: Result<Vec<u128>, DecodeError>)
    requires
        map.wf(),
    ensures
        match r {
            Ok(v) => id_set_field(map@, name@) == Ok::<Seq<u128>, Fault>(v@),
            Err(e) => id_set_field(map@, name@) == Err::<Seq<u128>, Fault>(e@),
        },
        forall|ids: Seq<u128>|
            map@.contains_key(name@) && map@[name@] == AttrModel::TextSet(id_texts(ids)) ==> (
            r matches Ok(v) && v@ == ids),
{
    let texts = match map.get(name) {
        Some(AttrValue::Ss(v)) => v,
        Some(_) => return Err(DecodeError::Malformed(name.to_owned())),
        None => return Err(DecodeError::Missing(name.to_owned())),
    };
    let ghost ss = crate::attr::texts_view(texts@);
    assert(map@[name@] == AttrModel::TextSet(ss));
    let mut out: Vec<u128> = Vec::new();
    let mut i: usize = 0;
    while i < texts.len()
        invariant
            ss == crate::attr::texts_view(texts@),
            map@.contains_key(name@),
            map@[name@] == AttrModel::TextSet(ss),
            i <= texts@.len(),
            out@.len() == i,
            forall|j: int| 0 <= j < i ==> #[trigger] id_parsed(ss[j]) == Some(out@[j]),
            forall|ids: Seq<u128>|
                #[trigger] id_texts(ids) == ss ==> forall|j: int|
                    0 <= j < i ==> #[trigger] out@[j] == ids[j],
        decreases texts@.len() - i,
    {
        let parsed = parse_id(texts[i].as_str());
        assert(texts@[i as int]@ == ss[i as int]);
        match parsed {
            Some(v) => {
                proof {
                    assert forall|ids: Seq<u128>| #[trigger] id_texts(ids) == ss implies v == ids[i as int] by {
                        assert(ss[i as int] == id_text(ids[i as int]));
                    }
                }
                out.push(v);
            },
            None => {
                assert(!(id_parsed(ss[i as int]) is Some));
                assert(ids_parsed(ss) is None);
                return Err(DecodeError::Malformed(name.to_owned()));
            },
        }
        i += 1;
    }
    assert(ids_parsed(ss) == Some(out@));
    Ok(out)
}

} // verus!
