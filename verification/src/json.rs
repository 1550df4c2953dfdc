//! The document model that every decoder reads and every encoder writes.

use vstd::prelude::*;
use vstd::string::StringExecFns;

verus! {

/// A JSON document held as a tree of plain values.
///
/// A number keeps its decimal text; an object keeps its entries in document
/// order and may name a key more than once, in which case the last entry is
/// the one that lookups see.
#[derive(Debug, PartialEq)]
pub enum Json {
    Null,
    Bool(bool),
    Number(String),
    Text(String),
    Array(Vec<Json>),
    Object(Vec<(String, Json)>),
}

/// The mathematical value of a [`Json`] document.
pub enum JsonModel {
    Null,
    Bool(bool),
    Number(Seq<char>),
    Text(Seq<char>),
    Array(Seq<JsonModel>),
    Object(Seq<(Seq<char>, JsonModel)>),
}

/// The index of the last of the first `n` entries that is named `key`.
pub open spec fn find<T>(entries: Seq<(Seq<char>, T)>, key: Seq<char>, n: nat) -> Option<int>
    decreases n,
{
    if n == 0 {
        None
    } else if entries[n - 1].0 == key {
        Some(n - 1)
    } else {
        find(entries, key, (n - 1) as nat)
    }
}

impl JsonModel {
    /// The member named `key`; `None` where there is none or the document
    /// is not an object.
    pub open spec fn get(self, key: Seq<char>) -> Option<JsonModel> {
        match self {
            JsonModel::Object(entries) => match find(entries, key, entries.len()) {
                Some(i) => Some(entries[i].1),
                None => None,
            },
            _ => None,
        }
    }

    /// The characters of a string; `None` for any other document.
    pub open spec fn text(self) -> Option<Seq<char>> {
        match self {
            JsonModel::Text(t) => Some(t),
            _ => None,
        }
    }

    /// The decimal text of a number; `None` for any other document.
    pub open spec fn number(self) -> Option<Seq<char>> {
        match self {
            JsonModel::Number(t) => Some(t),
            _ => None,
        }
    }

    /// The value of a boolean; `None` for any other document.
    pub open spec fn boolean(self) -> Option<bool> {
        match self {
            JsonModel::Bool(b) => Some(b),
            _ => None,
        }
    }

    /// The items of a list; `None` for any other document.
    pub open spec fn array(self) -> Option<Seq<JsonModel>> {
        match self {
            JsonModel::Array(items) => Some(items),
            _ => None,
        }
    }

    /// The entries of an object; `None` for any other document.
    pub open spec fn object(self) -> Option<Seq<(Seq<char>, JsonModel)>> {
        match self {
            JsonModel::Object(entries) => Some(entries),
            _ => None,
        }
    }
}

impl Json {
    /// The mathematical value of the document.
    pub open spec fn model(&self) -> JsonModel
        decreases self,
    {
        match self {
            Json::Null => JsonModel::Null,
            Json::Bool(b) => JsonModel::Bool(*b),
            Json::Number(t) => JsonModel::Number(t@),
            Json::Text(t) => JsonModel::Text(t@),
            Json::Array(items) => JsonModel::Array(
                Seq::new(
                    items@.len(),
                    |i: int|
                        if 0 <= i < items@.len() {
                            items@[i].model()
                        } else {
                            JsonModel::Null
                        },
                ),
            ),
            Json::Object(entries) => JsonModel::Object(
                Seq::new(
                    entries@.len(),
                    |i: int|
                        if 0 <= i < entries@.len() {
                            (entries@[i].0@, entries@[i].1.model())
                        } else {
                            (Seq::empty(), JsonModel::Null)
                        },
                ),
            ),
        }
    }
}

impl DeepView for Json {
    type V = JsonModel;

    open spec fn deep_view(&self) -> JsonModel {
        self.model()
    }
}

impl Clone for Json {
    fn clone(&self) -> (copy: Json)
        ensures
            copy.deep_view() == self.deep_view(),
    {
        self.deep_copy()
    }
}

/// The model of an array is the sequence of its items' models.
pub proof fn lemma_array_model(items: Vec<Json>)
    ensures
        Json::Array(items).deep_view() == JsonModel::Array(items.deep_view()),
{
    assert(Json::Array(items).deep_view()->Array_0 =~= items.deep_view());
}

/// The model of an object is the sequence of its entries' models.
pub proof fn lemma_object_model(entries: Vec<(String, Json)>)
    ensures
        Json::Object(entries).deep_view() == JsonModel::Object(entries.deep_view()),
{
    assert(Json::Object(entries).deep_view()->Object_0 =~= entries.deep_view());
}

/// An entry added at the end is not among the entries before it.
pub proof fn lemma_find_push<T>(
    entries: Seq<(Seq<char>, T)>,
    last: (Seq<char>, T),
    key: Seq<char>,
    n: nat,
)
    requires
        n <= entries.len(),
    ensures
        find(entries.push(last), key, n) == find(entries, key, n),
        find(entries, key, n) matches Some(i) ==> 0 <= i < n && entries[i].0 == key,
    decreases n,
{
    if n > 0 {
        lemma_find_push(entries, last, key, (n - 1) as nat);
    }
}

/// A lookup in an object sees its last entry first, and the entries before
/// it where that one has another name.
pub broadcast proof fn lemma_get_push(
    entries: Seq<(Seq<char>, JsonModel)>,
    name: Seq<char>,
    value: JsonModel,
    key: Seq<char>,
)
    ensures
        #[trigger] JsonModel::Object(entries.push((name, value))).get(key) == if name == key {
            Some(value)
        } else {
            JsonModel::Object(entries).get(key)
        },
{
    let longer = entries.push((name, value));
    lemma_find_push(entries, (name, value), key, entries.len());
    assert(longer[entries.len() as int] == (name, value));
    if name != key {
        assert(find(longer, key, longer.len()) == find(entries, key, entries.len()));
    }
}

/// An object without entries has no member.
pub broadcast proof fn lemma_get_empty(key: Seq<char>)
    ensures
        #[trigger] JsonModel::Object(Seq::empty()).get(key) is None,
{
}

/// The place of the last entry named `key`.
pub fn position<T: DeepView>(entries: &Vec<(String, T)>, key: &str) -> (place: Option<usize>)
    ensures
        match place {
            Some(i) => find(entries.deep_view(), key@, entries@.len()) == Some(i as int)
                && i < entries@.len(),
            None => find(entries.deep_view(), key@, entries@.len()) is None,
        },
{
    let ghost models = entries.deep_view();
    let wanted = String::from_str(key);
    let mut i: usize = entries.len();
    while i > 0
        invariant
            i <= entries@.len(),
            wanted@ == key@,
            models == entries.deep_view(),
            find(models, key@, models.len()) == find(models, key@, i as nat),
        decreases i,
    {
        assert(models[i - 1] == entries@[i - 1].deep_view());
        if entries[i - 1].0 == wanted {
            return Some(i - 1);
        }
        i -= 1;
    }
    None
}

impl Json {
    /// The member named `key`, where this is an object that has one.
    pub fn get(&self, key: &str) -> (member: Option<&Json>)
        ensures
            member.deep_view() == self.deep_view().get(key@),
    {
        match self {
            Json::Object(entries) => {
                proof {
                    lemma_object_model(*entries);
                }
                match position(entries, key) {
                    Some(i) => {
                        assert(entries.deep_view()[i as int] == entries@[i as int].deep_view());
                        Some(&entries[i].1)
                    },
                    None => None,
                }
            },
            _ => None,
        }
    }

    /// Whether this is `null`.
    pub fn is_null(&self) -> (yes: bool)
        ensures
            yes == (self.deep_view() is Null),
    {
        match self {
            Json::Null => true,
            _ => false,
        }
    }

    /// The string, where this is one.
    pub fn as_text(&self) -> (text: Option<&String>)
        ensures
            text.deep_view() == self.deep_view().text(),
    {
        match self {
            Json::Text(t) => Some(t),
            _ => None,
        }
    }

    /// The decimal text of the number, where this is one.
    pub fn as_number(&self) -> (text: Option<&String>)
        ensures
            text.deep_view() == self.deep_view().number(),
    {
        match self {
            Json::Number(t) => Some(t),
            _ => None,
        }
    }

    /// The boolean, where this is one.
    pub fn as_bool(&self) -> (value: Option<bool>)
        ensures
            value == self.deep_view().boolean(),
    {
        match self {
            Json::Bool(b) => Some(*b),
            _ => None,
        }
    }

    /// The items, where this is a list.
    pub fn as_array(&self) -> (items: Option<&Vec<Json>>)
        ensures
            items.deep_view() == self.deep_view().array(),
    {
        match self {
            Json::Array(items) => {
                proof {
                    lemma_array_model(*items);
                }
                Some(items)
            },
            _ => None,
        }
    }

    /// The entries, where this is an object.
    pub fn as_object(&self) -> (entries: Option<&Vec<(String, Json)>>)
        ensures
            entries.deep_view() == self.deep_view().object(),
    {
        match self {
            Json::Object(entries) => {
                proof {
                    lemma_object_model(*entries);
                }
                Some(entries)
            },
            _ => None,
        }
    }

    /// A copy of the whole tree.
    pub fn deep_copy(&self) -> (copy: Json)
        ensures
            copy.deep_view() == self.deep_view(),
        decreases self,
    {
        match self {
            Json::Null => Json::Null,
            Json::Bool(b) => Json::Bool(*b),
            Json::Number(t) => Json::Number(t.clone()),
            Json::Text(t) => Json::Text(t.clone()),
            Json::Array(items) => {
                let mut out: Vec<Json> = Vec::new();
                let mut i: usize = 0;
                while i < items.len()
                    invariant
                        i <= items@.len(),
                        out@.len() == i,
                        self == Json::Array(*items),
                        forall|k: int|
                            0 <= k < i ==> (#[trigger] out@[k]).deep_view()
                                == items@[k].deep_view(),
                    decreases items@.len() - i,
                {
                    proof {
                        assert(decreases_to!(*self => self->Array_0));
                        assert(decreases_to!(self->Array_0 => self->Array_0[i as int]));
                    }
                    let child = items[i].deep_copy();
                    out.push(child);
                    i += 1;
                }
                proof {
                    lemma_array_model(*items);
                    lemma_array_model(out);
                    assert(out.deep_view() =~= items.deep_view());
                }
                Json::Array(out)
            },
            Json::Object(entries) => {
                let mut out: Vec<(String, Json)> = Vec::new();
                let mut i: usize = 0;
                while i < entries.len()
                    invariant
                        i <= entries@.len(),
                        out@.len() == i,
                        self == Json::Object(*entries),
                        forall|k: int|
                            0 <= k < i ==> (#[trigger] out@[k]).deep_view()
                                == entries@[k].deep_view(),
                    decreases entries@.len() - i,
                {
                    let key = entries[i].0.clone();
                    proof {
                        assert(decreases_to!(*self => self->Object_0));
                        assert(decreases_to!(self->Object_0 => self->Object_0[i as int]));
                        let entry = self->Object_0[i as int];
                        assert(decreases_to!(self->Object_0[i as int] => entry.1));
                    }
                    let child = entries[i].1.deep_copy();
                    out.push((key, child));
                    i += 1;
                }
                proof {
                    lemma_object_model(*entries);
                    lemma_object_model(out);
                    assert(out.deep_view() =~= entries.deep_view());
                }
                Json::Object(out)
            },
        }
    }
}

} // verus!
