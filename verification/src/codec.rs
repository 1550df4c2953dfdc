//! Decoding values out of documents and encoding them back.
//!
//! A type says in a spec function which documents it decodes and to what,
//! and in another what document it is encoded as; the executable functions
//! are proved against these, and so is the law that decoding undoes
//! encoding.

use crate::error::{modelled, shaped, DecodeError};
use crate::json::{lemma_array_model, lemma_object_model, Json, JsonModel};
use vstd::prelude::*;
use vstd::string::StringExecFns;

verus! {

/// A value that can be read out of a document.
pub trait Decode: DeepView + Sized {
    /// What the document decodes to; `None` where it has not the shape of
    /// such a value.
    spec fn decoded(doc: JsonModel) -> Option<Self::V>;

    fn decode(doc: &Json) -> (r: Result<Self, DecodeError>)
        ensures
            modelled(r) == shaped(Self::decoded(doc.deep_view())),
    ;
}

/// A value that can be written as a document.
pub trait Encode: DeepView {
    /// The document that stands for the value.
    spec fn encoded(value: Self::V) -> JsonModel;

    fn encode(&self) -> (doc: Json)
        ensures
            doc.deep_view() == Self::encoded(self.deep_view()),
    ;
}

/// A value that comes back unchanged from its own encoding.
pub trait RoundTrip: Decode + Encode {
    /// The values that the type is meant to hold.
    spec fn valid(value: Self::V) -> bool;

    /// Decoding the encoding of a valid value gives the value back, and no
    /// valid value is encoded as `null`.
    proof fn lemma_round_trip(value: Self::V)
        requires
            Self::valid(value),
        ensures
            Self::decoded(Self::encoded(value)) == Some(value),
            !(Self::encoded(value) is Null),
    ;

    /// What a document decodes to is valid.
    proof fn lemma_decoded_valid(doc: JsonModel)
        ensures
            Self::decoded(doc) matches Some(value) ==> Self::valid(value),
    ;
}

/// What the member `key` of a document decodes to; `None` where it is
/// missing or has not the shape.
pub open spec fn member<T: Decode>(doc: JsonModel, key: Seq<char>) -> Option<T::V> {
    match doc.get(key) {
        Some(value) => T::decoded(value),
        None => None,
    }
}

/// What a member that may be left out decodes to: `Some(None)` where it is
/// missing or `null`, `None` where it is there and has not the shape.
pub open spec fn optional_member<T: Decode>(doc: JsonModel, key: Seq<char>) -> Option<
    Option<T::V>,
> {
    match doc.get(key) {
        None => Some(None),
        Some(JsonModel::Null) => Some(None),
        Some(value) => match T::decoded(value) {
            Some(inner) => Some(Some(inner)),
            None => None,
        },
    }
}

/// The items of a list, each decoded; `None` where one of them has not the
/// shape.
pub open spec fn all_decoded<T: Decode>(items: Seq<JsonModel>) -> Option<Seq<T::V>> {
    if forall|i: int| 0 <= i < items.len() ==> (#[trigger] T::decoded(items[i])) is Some {
        Some(Seq::new(items.len(), |i: int| T::decoded(items[i])->Some_0))
    } else {
        None
    }
}

/// The items of a list, each encoded.
pub open spec fn all_encoded<T: Encode>(values: Seq<T::V>) -> Seq<JsonModel> {
    Seq::new(values.len(), |i: int| T::encoded(values[i]))
}

/// Decodes the member `key`, which must be there.
pub fn required<T: Decode>(doc: &Json, key: &str) -> (r: Result<T, DecodeError>)
    ensures
        modelled(r) == shaped(member::<T>(doc.deep_view(), key@)),
{
    match doc.get(key) {
        Some(value) => T::decode(value),
        None => Err(DecodeError::Shape),
    }
}

/// Decodes the member `key`, which may be missing or `null`.
pub fn optional<T: Decode>(doc: &Json, key: &str) -> (r: Result<Option<T>, DecodeError>)
    ensures
        modelled(r) == shaped(optional_member::<T>(doc.deep_view(), key@)),
{
    match doc.get(key) {
        None => Ok(None),
        Some(value) => {
            if value.is_null() {
                Ok(None)
            } else {
                match T::decode(value) {
                    Ok(inner) => Ok(Some(inner)),
                    Err(e) => Err(e),
                }
            }
        },
    }
}

impl Decode for String {
    open spec fn decoded(doc: JsonModel) -> Option<Seq<char>> {
        doc.text()
    }

    fn decode(doc: &Json) -> (r: Result<String, DecodeError>) {
        match doc.as_text() {
            Some(text) => Ok(text.clone()),
            None => Err(DecodeError::Shape),
        }
    }
}

impl Encode for String {
    open spec fn encoded(value: Seq<char>) -> JsonModel {
        JsonModel::Text(value)
    }

    fn encode(&self) -> (doc: Json) {
        Json::Text(self.clone())
    }
}

impl RoundTrip for String {
    open spec fn valid(value: Seq<char>) -> bool {
        true
    }

    proof fn lemma_round_trip(value: Seq<char>) {
    }

    proof fn lemma_decoded_valid(doc: JsonModel) {
    }
}

impl Decode for bool {
    open spec fn decoded(doc: JsonModel) -> Option<bool> {
        doc.boolean()
    }

    fn decode(doc: &Json) -> (r: Result<bool, DecodeError>) {
        match doc.as_bool() {
            Some(value) => Ok(value),
            None => Err(DecodeError::Shape),
        }
    }
}

impl Encode for bool {
    open spec fn encoded(value: bool) -> JsonModel {
        JsonModel::Bool(value)
    }

    fn encode(&self) -> (doc: Json) {
        // Naming the spec function brings its definition into this proof.
        assert(bool::encoded(*self) == JsonModel::Bool(*self));
        Json::Bool(*self)
    }
}

impl RoundTrip for bool {
    open spec fn valid(value: bool) -> bool {
        true
    }

    proof fn lemma_round_trip(value: bool) {
    }

    proof fn lemma_decoded_valid(doc: JsonModel) {
    }
}

/// A document that is not `null` decodes to itself: this is how a part of
/// a value is kept as it came.
impl Decode for Json {
    open spec fn decoded(doc: JsonModel) -> Option<JsonModel> {
        if doc is Null {
            None
        } else {
            Some(doc)
        }
    }

    fn decode(doc: &Json) -> (r: Result<Json, DecodeError>) {
        if doc.is_null() {
            Err(DecodeError::Shape)
        } else {
            Ok(doc.deep_copy())
        }
    }
}

impl Encode for Json {
    open spec fn encoded(value: JsonModel) -> JsonModel {
        value
    }

    fn encode(&self) -> (doc: Json) {
        self.deep_copy()
    }
}

impl RoundTrip for Json {
    open spec fn valid(value: JsonModel) -> bool {
        !(value is Null)
    }

    proof fn lemma_round_trip(value: JsonModel) {
    }

    proof fn lemma_decoded_valid(doc: JsonModel) {
    }
}

impl<T: Decode> Decode for Vec<T> {
    open spec fn decoded(doc: JsonModel) -> Option<Seq<T::V>> {
        match doc {
            JsonModel::Array(items) => all_decoded::<T>(items),
            _ => None,
        }
    }

    fn decode(doc: &Json) -> (r: Result<Vec<T>, DecodeError>) {
        match doc.as_array() {
            None => Err(DecodeError::Shape),
            Some(items) => {
                let ghost models = items.deep_view();
                let mut out: Vec<T> = Vec::new();
                let mut i: usize = 0;
                while i < items.len()
                    invariant
                        i <= items@.len(),
                        out@.len() == i,
                        models == items.deep_view(),
                        doc.deep_view() == JsonModel::Array(models),
                        forall|k: int|
                            0 <= k < i ==> T::decoded(models[k]) == Some(
                                (#[trigger] out@[k]).deep_view(),
                            ),
                    decreases items@.len() - i,
                {
                    assert(models[i as int] == items@[i as int].deep_view());
                    match T::decode(&items[i]) {
                        Ok(value) => {
                            out.push(value);
                        },
                        Err(e) => {
                            assert(T::decoded(models[i as int]) is None);
                            return Err(e);
                        },
                    }
                    i += 1;
                }
                proof {
                    assert forall|k: int| 0 <= k < models.len() implies (#[trigger] T::decoded(
                        models[k],
                    )) is Some by {
                        assert(T::decoded(models[k]) == Some(out@[k].deep_view()));
                    }
                    assert(out.deep_view() =~= all_decoded::<T>(models)->Some_0);
                }
                Ok(out)
            },
        }
    }
}

impl<T: Encode> Encode for Vec<T> {
    open spec fn encoded(value: Seq<T::V>) -> JsonModel {
        JsonModel::Array(all_encoded::<T>(value))
    }

    fn encode(&self) -> (doc: Json) {
        let mut out: Vec<Json> = Vec::new();
        let mut i: usize = 0;
        while i < self.len()
            invariant
                i <= self@.len(),
                out@.len() == i,
                forall|k: int|
                    0 <= k < i ==> (#[trigger] out@[k]).deep_view() == T::encoded(
                        self@[k].deep_view(),
                    ),
            decreases self@.len() - i,
        {
            let item = self[i].encode();
            out.push(item);
            i += 1;
        }
        proof {
            lemma_array_model(out);
            assert(out.deep_view() =~= all_encoded::<T>(self.deep_view()));
        }
        Json::Array(out)
    }
}

impl<T: RoundTrip> RoundTrip for Vec<T> {
    open spec fn valid(value: Seq<T::V>) -> bool {
        forall|i: int| 0 <= i < value.len() ==> T::valid(#[trigger] value[i])
    }

    proof fn lemma_round_trip(value: Seq<T::V>) {
        let docs = all_encoded::<T>(value);
        assert forall|i: int| 0 <= i < docs.len() implies (#[trigger] T::decoded(docs[i]))
            == Some(value[i]) by {
            T::lemma_round_trip(value[i]);
        }
        assert(all_decoded::<T>(docs)->Some_0 =~= value);
    }

    proof fn lemma_decoded_valid(doc: JsonModel) {
        if Self::decoded(doc) is Some {
            let items = doc->Array_0;
            let values = Self::decoded(doc)->Some_0;
            assert forall|i: int| 0 <= i < values.len() implies T::valid(
                #[trigger] values[i],
            ) by {
                assert(T::decoded(items[i]) is Some);
                T::lemma_decoded_valid(items[i]);
            }
        }
    }
}

impl<T: Encode> Encode for Option<T> {
    open spec fn encoded(value: Option<T::V>) -> JsonModel {
        match value {
            Some(inner) => T::encoded(inner),
            None => JsonModel::Null,
        }
    }

    fn encode(&self) -> (doc: Json) {
        match self {
            Some(inner) => inner.encode(),
            None => Json::Null,
        }
    }
}

/// Adds a member at the end of the entries of an object.
pub fn put(entries: &mut Vec<(String, Json)>, key: &str, value: Json)
    ensures
        final(entries).deep_view() == old(entries).deep_view().push((key@, value.deep_view())),
{
    let ghost before = entries.deep_view();
    entries.push((String::from_str(key), value));
    assert(entries.deep_view() =~= before.push((key@, value.deep_view())));
}

/// The object with the given entries.
pub fn object(entries: Vec<(String, Json)>) -> (doc: Json)
    ensures
        doc.deep_view() == JsonModel::Object(entries.deep_view()),
{
    proof {
        lemma_object_model(entries);
    }
    Json::Object(entries)
}

/// No entries yet.
pub fn no_entries() -> (entries: Vec<(String, Json)>)
    ensures
        entries.deep_view() == Seq::<(Seq<char>, JsonModel)>::empty(),
{
    let entries: Vec<(String, Json)> = Vec::new();
    assert(entries.deep_view() =~= Seq::<(Seq<char>, JsonModel)>::empty());
    entries
}

/// Whether two texts hold the same characters.
pub fn same_text(a: &str, b: &str) -> (same: bool)
    ensures
        same == (a@ == b@),
{
    String::from_str(a) == String::from_str(b)
}

/// A member that holds the encoding of a valid value decodes to the value.
pub proof fn lemma_member_round_trip<T: RoundTrip>(doc: JsonModel, key: Seq<char>, value: T::V)
    requires
        doc.get(key) == Some(T::encoded(value)),
        T::valid(value),
    ensures
        member::<T>(doc, key) == Some(value),
{
    T::lemma_round_trip(value);
}

/// A member that holds the encoding of a valid value, or `null` for none,
/// decodes to what was encoded.
pub proof fn lemma_optional_round_trip<T: RoundTrip>(
    doc: JsonModel,
    key: Seq<char>,
    value: Option<T::V>,
)
    requires
        doc.get(key) == Some(Option::<T>::encoded(value)),
        value matches Some(inner) ==> T::valid(inner),
    ensures
        optional_member::<T>(doc, key) == Some(value),
{
    if value is Some {
        T::lemma_round_trip(value->Some_0);
    }
}

/// A value that can be copied with everything it holds.
pub trait DeepCopy: DeepView + Sized {
    fn deep_copy(&self) -> (copy: Self)
        ensures
            copy.deep_view() == self.deep_view(),
    ;
}

impl DeepCopy for String {
    fn deep_copy(&self) -> (copy: String) {
        self.clone()
    }
}

impl DeepCopy for bool {
    fn deep_copy(&self) -> (copy: bool) {
        *self
    }
}

impl DeepCopy for Json {
    fn deep_copy(&self) -> (copy: Json) {
        Json::deep_copy(self)
    }
}

impl<T: DeepCopy> DeepCopy for Option<T> {
    fn deep_copy(&self) -> (copy: Option<T>) {
        match self {
            Some(inner) => Some(inner.deep_copy()),
            None => None,
        }
    }
}

impl<T: DeepCopy> DeepCopy for Vec<T> {
    fn deep_copy(&self) -> (copy: Vec<T>) {
        let mut out: Vec<T> = Vec::new();
        let mut i: usize = 0;
        while i < self.len()
            invariant
                i <= self@.len(),
                out@.len() == i,
                forall|k: int|
                    0 <= k < i ==> (#[trigger] out@[k]).deep_view() == self@[k].deep_view(),
            decreases self@.len() - i,
        {
            let item = self[i].deep_copy();
            out.push(item);
            i += 1;
        }
        assert(out.deep_view() =~= self.deep_view());
        out
    }
}

/// The members of an object, each value decoded and kept under its name, in
/// the order of the document.
impl<T: Decode> Decode for Vec<(String, T)> {
    open spec fn decoded(doc: JsonModel) -> Option<Seq<(Seq<char>, T::V)>> {
        match doc {
            JsonModel::Object(entries) => if forall|i: int|
                0 <= i < entries.len() ==> (#[trigger] T::decoded(entries[i].1)) is Some {
                Some(
                    Seq::new(
                        entries.len(),
                        |i: int| (entries[i].0, T::decoded(entries[i].1)->Some_0),
                    ),
                )
            } else {
                None
            },
            _ => None,
        }
    }

    fn decode(doc: &Json) -> (r: Result<Vec<(String, T)>, DecodeError>) {
        match doc.as_object() {
            None => Err(DecodeError::Shape),
            Some(entries) => {
                let ghost models = entries.deep_view();
                let mut out: Vec<(String, T)> = Vec::new();
                let mut i: usize = 0;
                while i < entries.len()
                    invariant
                        i <= entries@.len(),
                        out@.len() == i,
                        models == entries.deep_view(),
                        doc.deep_view() == JsonModel::Object(models),
                        forall|k: int|
                            0 <= k < i ==> {
                                &&& T::decoded(models[k].1) == Some(
                                    (#[trigger] out@[k]).1.deep_view(),
                                )
                                &&& out@[k].0@ == models[k].0
                            },
                    decreases entries@.len() - i,
                {
                    assert(models[i as int] == entries@[i as int].deep_view());
                    match T::decode(&entries[i].1) {
                        Ok(value) => {
                            out.push((entries[i].0.clone(), value));
                        },
                        Err(e) => {
                            assert(T::decoded(models[i as int].1) is None);
                            return Err(e);
                        },
                    }
                    i += 1;
                }
                proof {
                    assert forall|k: int| 0 <= k < models.len() implies (#[trigger] T::decoded(
                        models[k].1,
                    )) is Some by {
                        assert(T::decoded(models[k].1) == Some(out@[k].1.deep_view()));
                    }
                    let expected = Self::decoded(doc.deep_view())->Some_0;
                    assert forall|k: int| 0 <= k < expected.len() implies out.deep_view()[k]
                        == expected[k] by {
                        assert(out.deep_view()[k] == out@[k].deep_view());
                    }
                    assert(out.deep_view() =~= expected);
                }
                Ok(out)
            },
        }
    }
}

/// The encoding of a value that may be unset.
pub open spec fn encoded_option<T: Encode>(value: Option<T::V>) -> Option<JsonModel> {
    match value {
        Some(inner) => Some(T::encoded(inner)),
        None => None,
    }
}

/// The entries with one member more, where there is a value for it; the
/// entries as they are, where there is none.
pub open spec fn with_member(
    entries: Seq<(Seq<char>, JsonModel)>,
    key: Seq<char>,
    value: Option<JsonModel>,
) -> Seq<(Seq<char>, JsonModel)> {
    match value {
        Some(doc) => entries.push((key, doc)),
        None => entries,
    }
}

/// Adds a member for a value that is set, and nothing for one that is not.
pub fn put_optional<T: Encode>(entries: &mut Vec<(String, Json)>, key: &str, value: &Option<T>)
    ensures
        final(entries).deep_view() == with_member(
            old(entries).deep_view(),
            key@,
            encoded_option::<T>(value.deep_view()),
        ),
{
    match value {
        Some(inner) => {
            put(entries, key, inner.encode());
        },
        None => {},
    }
}

} // verus!
