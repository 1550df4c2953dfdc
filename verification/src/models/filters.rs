//! Filter expressions over the columns of a database, and their wire form.

use crate::codec::{
    encoded_option, no_entries, object, put, put_optional, same_text, with_member, Encode,
};
use crate::json::{
    find, lemma_array_model, lemma_get_empty, lemma_get_push, position, Json, JsonModel,
};
use crate::models::blocks::lemma_kinds_distinct;
use crate::wire::{entries_text, escaped, items_text, quoted, text_of};
use vstd::prelude::*;
use vstd::string::StringExecFns;

verus! {

/// The comparisons that a filter can make, each with the kind of value it
/// takes.
pub open spec fn filter_conditions() -> Seq<(Seq<char>, Seq<char>)> {
    Seq::empty().push(("contains"@, "String or i32 (context dependent)"@)).push(
        ("does_not_contain"@, "String or i32 (context dependent)"@),
    ).push(("is_empty"@, "bool"@)).push(("is_not_empty"@, "bool"@)).push(
        ("starts_with"@, "String"@),
    ).push(("ends_with"@, "String"@)).push(
        ("equals"@, "String, i32 or bool (context dependent)"@),
    ).push(("does_not_equal"@, "String, i32, or bool (context dependent)"@))
}

fn condition(name: &str, takes: &str) -> (pair: (String, String))
    ensures
        pair.deep_view() == (name@, takes@),
{
    (String::from_str(name), String::from_str(takes))
}

/// The comparisons that a filter can make, each with the kind of value it
/// takes. No comparison is named twice.
pub fn get_filter_conditions() -> (conditions: Vec<(String, String)>)
    ensures
        conditions.deep_view() == filter_conditions(),
        forall|i: int, j: int|
            0 <= i < j < conditions@.len() ==> conditions@[i].0@ != conditions@[j].0@,
{
    let mut conditions: Vec<(String, String)> = Vec::new();
    conditions.push(condition("contains", "String or i32 (context dependent)"));
    conditions.push(condition("does_not_contain", "String or i32 (context dependent)"));
    conditions.push(condition("is_empty", "bool"));
    conditions.push(condition("is_not_empty", "bool"));
    conditions.push(condition("starts_with", "String"));
    conditions.push(condition("ends_with", "String"));
    conditions.push(condition("equals", "String, i32 or bool (context dependent)"));
    conditions.push(condition("does_not_equal", "String, i32, or bool (context dependent)"));
    proof {
        assert(conditions.deep_view() =~= filter_conditions());
        reveal_strlit("contains");
        reveal_strlit("does_not_contain");
        reveal_strlit("is_empty");
        reveal_strlit("is_not_empty");
        reveal_strlit("starts_with");
        reveal_strlit("ends_with");
        reveal_strlit("equals");
        reveal_strlit("does_not_equal");
        assert("contains"@.len() == 8 && "contains"@[0] == 'c');
        assert("is_empty"@.len() == 8 && "is_empty"@[0] == 'i');
        assert("does_not_contain"@.len() == 16 && "is_not_empty"@.len() == 12);
        assert("starts_with"@.len() == 11 && "ends_with"@.len() == 9);
        assert("equals"@.len() == 6 && "does_not_equal"@.len() == 14);
        assert forall|i: int| 0 <= i < conditions@.len() implies (#[trigger] conditions@[i]).0@
            == filter_conditions()[i].0 by {
            assert(conditions.deep_view()[i] == conditions@[i].deep_view());
        }
    }
    conditions
}

/// Comparisons on a column of text. A comparison that is `None` is not
/// made.
#[derive(Debug, PartialEq)]
pub struct RichTextColumnFilter {
    pub contains: Option<String>,
    pub does_not_contain: Option<String>,
    pub is_empty: Option<bool>,
    pub is_not_empty: Option<bool>,
    pub starts_with: Option<String>,
    pub ends_with: Option<String>,
    pub equals: Option<String>,
    pub does_not_equal: Option<String>,
}

/// The mathematical value of a [`RichTextColumnFilter`].
pub struct RichTextColumnFilterModel {
    pub contains: Option<Seq<char>>,
    pub does_not_contain: Option<Seq<char>>,
    pub is_empty: Option<bool>,
    pub is_not_empty: Option<bool>,
    pub starts_with: Option<Seq<char>>,
    pub ends_with: Option<Seq<char>>,
    pub equals: Option<Seq<char>>,
    pub does_not_equal: Option<Seq<char>>,
}

impl DeepView for RichTextColumnFilter {
    type V = RichTextColumnFilterModel;

    open spec fn deep_view(&self) -> RichTextColumnFilterModel {
        RichTextColumnFilterModel {
            contains: self.contains.deep_view(),
            does_not_contain: self.does_not_contain.deep_view(),
            is_empty: self.is_empty.deep_view(),
            is_not_empty: self.is_not_empty.deep_view(),
            starts_with: self.starts_with.deep_view(),
            ends_with: self.ends_with.deep_view(),
            equals: self.equals.deep_view(),
            does_not_equal: self.does_not_equal.deep_view(),
        }
    }
}

impl Default for RichTextColumnFilter {
    fn default() -> (filter: RichTextColumnFilter)
        ensures
            filter.deep_view() == (RichTextColumnFilterModel {
                contains: None,
                does_not_contain: None,
                is_empty: None,
                is_not_empty: None,
                starts_with: None,
                ends_with: None,
                equals: None,
                does_not_equal: None,
            }),
    {
        RichTextColumnFilter {
            contains: None,
            does_not_contain: None,
            is_empty: None,
            is_not_empty: None,
            starts_with: None,
            ends_with: None,
            equals: None,
            does_not_equal: None,
        }
    }
}

impl RichTextColumnFilterModel {
    /// The members of the wire form: one for each comparison that is made,
    /// in the order of the fields.
    pub open spec fn members(self) -> Seq<(Seq<char>, JsonModel)> {
        let e = Seq::empty();
        let e = with_member(e, "contains"@, encoded_option::<String>(self.contains));
        let e = with_member(
            e,
            "does_not_contain"@,
            encoded_option::<String>(self.does_not_contain),
        );
        let e = with_member(e, "is_empty"@, encoded_option::<bool>(self.is_empty));
        let e = with_member(e, "is_not_empty"@, encoded_option::<bool>(self.is_not_empty));
        let e = with_member(e, "starts_with"@, encoded_option::<String>(self.starts_with));
        let e = with_member(e, "ends_with"@, encoded_option::<String>(self.ends_with));
        let e = with_member(e, "equals"@, encoded_option::<String>(self.equals));
        with_member(e, "does_not_equal"@, encoded_option::<String>(self.does_not_equal))
    }
}

impl Encode for RichTextColumnFilter {
    open spec fn encoded(value: RichTextColumnFilterModel) -> JsonModel {
        JsonModel::Object(value.members())
    }

    fn encode(&self) -> (doc: Json) {
        let mut entries = no_entries();
        put_optional(&mut entries, "contains", &self.contains);
        put_optional(&mut entries, "does_not_contain", &self.does_not_contain);
        put_optional(&mut entries, "is_empty", &self.is_empty);
        put_optional(&mut entries, "is_not_empty", &self.is_not_empty);
        put_optional(&mut entries, "starts_with", &self.starts_with);
        put_optional(&mut entries, "ends_with", &self.ends_with);
        put_optional(&mut entries, "equals", &self.equals);
        put_optional(&mut entries, "does_not_equal", &self.does_not_equal);
        object(entries)
    }
}

/// Comparisons on a checkbox column.
#[derive(Debug, PartialEq)]
pub struct CheckboxColumnFilter {
    pub equals: Option<bool>,
    pub does_not_equal: Option<bool>,
}

/// The mathematical value of a [`CheckboxColumnFilter`].
pub struct CheckboxColumnFilterModel {
    pub equals: Option<bool>,
    pub does_not_equal: Option<bool>,
}

impl DeepView for CheckboxColumnFilter {
    type V = CheckboxColumnFilterModel;

    open spec fn deep_view(&self) -> CheckboxColumnFilterModel {
        CheckboxColumnFilterModel {
            equals: self.equals.deep_view(),
            does_not_equal: self.does_not_equal.deep_view(),
        }
    }
}

impl Default for CheckboxColumnFilter {
    fn default() -> (filter: CheckboxColumnFilter)
        ensures
            filter.deep_view() == (CheckboxColumnFilterModel {
                equals: None,
                does_not_equal: None,
            }),
    {
        CheckboxColumnFilter { equals: None, does_not_equal: None }
    }
}

impl CheckboxColumnFilterModel {
    /// The members of the wire form: one for each comparison that is made,
    /// in the order of the fields.
    pub open spec fn members(self) -> Seq<(Seq<char>, JsonModel)> {
        let e = Seq::empty();
        let e = with_member(e, "equals"@, encoded_option::<bool>(self.equals));
        with_member(e, "does_not_equal"@, encoded_option::<bool>(self.does_not_equal))
    }
}

impl Encode for CheckboxColumnFilter {
    open spec fn encoded(value: CheckboxColumnFilterModel) -> JsonModel {
        JsonModel::Object(value.members())
    }

    fn encode(&self) -> (doc: Json) {
        let mut entries = no_entries();
        put_optional(&mut entries, "equals", &self.equals);
        put_optional(&mut entries, "does_not_equal", &self.does_not_equal);
        object(entries)
    }
}

/// Comparisons on a relation column.
#[derive(Debug, PartialEq)]
pub struct RelationColumnFilter {
    pub contains: Option<String>,
    pub does_not_contain: Option<String>,
    pub is_empty: Option<bool>,
    pub is_not_empty: Option<bool>,
}

/// The mathematical value of a [`RelationColumnFilter`].
pub struct RelationColumnFilterModel {
    pub contains: Option<Seq<char>>,
    pub does_not_contain: Option<Seq<char>>,
    pub is_empty: Option<bool>,
    pub is_not_empty: Option<bool>,
}

impl DeepView for RelationColumnFilter {
    type V = RelationColumnFilterModel;

    open spec fn deep_view(&self) -> RelationColumnFilterModel {
        RelationColumnFilterModel {
            contains: self.contains.deep_view(),
            does_not_contain: self.does_not_contain.deep_view(),
            is_empty: self.is_empty.deep_view(),
            is_not_empty: self.is_not_empty.deep_view(),
        }
    }
}

impl Default for RelationColumnFilter {
    fn default() -> (filter: RelationColumnFilter)
        ensures
            filter.deep_view() == (RelationColumnFilterModel {
                contains: None,
                does_not_contain: None,
                is_empty: None,
                is_not_empty: None,
            }),
    {
        RelationColumnFilter {
            contains: None,
            does_not_contain: None,
            is_empty: None,
            is_not_empty: None,
        }
    }
}

impl RelationColumnFilterModel {
    /// The members of the wire form: one for each comparison that is made,
    /// in the order of the fields.
    pub open spec fn members(self) -> Seq<(Seq<char>, JsonModel)> {
        let e = Seq::empty();
        let e = with_member(e, "contains"@, encoded_option::<String>(self.contains));
        let e = with_member(
            e,
            "does_not_contain"@,
            encoded_option::<String>(self.does_not_contain),
        );
        let e = with_member(e, "is_empty"@, encoded_option::<bool>(self.is_empty));
        with_member(e, "is_not_empty"@, encoded_option::<bool>(self.is_not_empty))
    }
}

impl Encode for RelationColumnFilter {
    open spec fn encoded(value: RelationColumnFilterModel) -> JsonModel {
        JsonModel::Object(value.members())
    }

    fn encode(&self) -> (doc: Json) {
        let mut entries = no_entries();
        put_optional(&mut entries, "contains", &self.contains);
        put_optional(&mut entries, "does_not_contain", &self.does_not_contain);
        put_optional(&mut entries, "is_empty", &self.is_empty);
        put_optional(&mut entries, "is_not_empty", &self.is_not_empty);
        object(entries)
    }
}

/// The comparisons made on one column. The predicate that is set says what
/// kind of column it is for.
#[derive(Debug, PartialEq)]
pub struct ColumnFilter {
    /// The name of the column.
    pub property: String,
    pub rich_text: Option<RichTextColumnFilter>,
    pub checkbox: Option<CheckboxColumnFilter>,
    pub relation: Option<RelationColumnFilter>,
}

/// The mathematical value of a [`ColumnFilter`].
pub struct ColumnFilterModel {
    pub property: Seq<char>,
    pub rich_text: Option<RichTextColumnFilterModel>,
    pub checkbox: Option<CheckboxColumnFilterModel>,
    pub relation: Option<RelationColumnFilterModel>,
}

impl DeepView for ColumnFilter {
    type V = ColumnFilterModel;

    open spec fn deep_view(&self) -> ColumnFilterModel {
        ColumnFilterModel {
            property: self.property@,
            rich_text: self.rich_text.deep_view(),
            checkbox: self.checkbox.deep_view(),
            relation: self.relation.deep_view(),
        }
    }
}

impl Default for ColumnFilter {
    fn default() -> (filter: ColumnFilter)
        ensures
            filter.deep_view() == (ColumnFilterModel {
                property: Seq::empty(),
                rich_text: None,
                checkbox: None,
                relation: None,
            }),
    {
        ColumnFilter { property: String::new(), rich_text: None, checkbox: None, relation: None }
    }
}

impl ColumnFilterModel {
    /// How many predicates are set. The service takes a filter with
    /// exactly one.
    pub open spec fn predicates(self) -> nat {
        let rich_text: nat = if self.rich_text is Some {
            1
        } else {
            0
        };
        let checkbox: nat = if self.checkbox is Some {
            1
        } else {
            0
        };
        let relation: nat = if self.relation is Some {
            1
        } else {
            0
        };
        rich_text + checkbox + relation
    }

    /// Whether the filter is one that the service takes: exactly one
    /// predicate is set.
    pub open spec fn well_formed(self) -> bool {
        self.predicates() == 1
    }

    /// `property`, then one member for each predicate that is set, under
    /// the name of its kind.
    pub open spec fn members(self) -> Seq<(Seq<char>, JsonModel)> {
        let e = Seq::empty().push(("property"@, JsonModel::Text(self.property)));
        let e = with_member(
            e,
            "rich_text"@,
            encoded_option::<RichTextColumnFilter>(self.rich_text),
        );
        let e = with_member(e, "checkbox"@, encoded_option::<CheckboxColumnFilter>(self.checkbox));
        with_member(e, "relation"@, encoded_option::<RelationColumnFilter>(self.relation))
    }
}

impl Encode for ColumnFilter {
    open spec fn encoded(value: ColumnFilterModel) -> JsonModel {
        JsonModel::Object(value.members())
    }

    fn encode(&self) -> (doc: Json) {
        let mut entries = no_entries();
        put(&mut entries, "property", self.property.encode());
        put_optional(&mut entries, "rich_text", &self.rich_text);
        put_optional(&mut entries, "checkbox", &self.checkbox);
        put_optional(&mut entries, "relation", &self.relation);
        object(entries)
    }
}

impl ColumnFilter {
    /// Whether exactly one predicate is set.
    pub fn has_single_predicate(&self) -> (yes: bool)
        ensures
            yes == self.deep_view().well_formed(),
    {
        let mut count: u8 = 0;
        if self.rich_text.is_some() {
            count += 1;
        }
        if self.checkbox.is_some() {
            count += 1;
        }
        if self.relation.is_some() {
            count += 1;
        }
        count == 1
    }
}

/// A tree of comparisons joined by `and` and `or`.
#[derive(Debug, PartialEq)]
pub enum QueryFilter {
    And(Box<QueryFilter>, Box<QueryFilter>),
    Or(Box<QueryFilter>, Box<QueryFilter>),
    ColumnFilter(Box<ColumnFilter>),
}

/// The mathematical value of a [`QueryFilter`].
pub enum QueryFilterModel {
    And(Box<QueryFilterModel>, Box<QueryFilterModel>),
    Or(Box<QueryFilterModel>, Box<QueryFilterModel>),
    ColumnFilter(ColumnFilterModel),
}

impl QueryFilterModel {
    /// Whether every leaf of the tree has exactly one predicate set.
    pub open spec fn well_formed(self) -> bool
        decreases self,
    {
        match self {
            QueryFilterModel::And(left, right) => left.well_formed() && right.well_formed(),
            QueryFilterModel::Or(left, right) => left.well_formed() && right.well_formed(),
            QueryFilterModel::ColumnFilter(leaf) => leaf.well_formed(),
        }
    }
}

impl QueryFilter {
    /// Whether every leaf of the tree has exactly one predicate set.
    pub fn is_well_formed(&self) -> (yes: bool)
        ensures
            yes == self.deep_view().well_formed(),
        decreases self,
    {
        match self {
            QueryFilter::And(left, right) => left.is_well_formed() && right.is_well_formed(),
            QueryFilter::Or(left, right) => left.is_well_formed() && right.is_well_formed(),
            QueryFilter::ColumnFilter(leaf) => leaf.has_single_predicate(),
        }
    }

    /// The mathematical value of the tree.
    pub open spec fn model(&self) -> QueryFilterModel
        decreases self,
    {
        match self {
            QueryFilter::And(left, right) => QueryFilterModel::And(
                Box::new(left.model()),
                Box::new(right.model()),
            ),
            QueryFilter::Or(left, right) => QueryFilterModel::Or(
                Box::new(left.model()),
                Box::new(right.model()),
            ),
            QueryFilter::ColumnFilter(filter) => QueryFilterModel::ColumnFilter(filter.deep_view()),
        }
    }
}

impl DeepView for QueryFilter {
    type V = QueryFilterModel;

    open spec fn deep_view(&self) -> QueryFilterModel {
        self.model()
    }
}

/// The object with the one member `key`, which holds the two documents as a
/// list.
pub open spec fn combined(key: Seq<char>, left: JsonModel, right: JsonModel) -> JsonModel {
    JsonModel::Object(
        Seq::empty().push((key, JsonModel::Array(Seq::empty().push(left).push(right)))),
    )
}

/// The wire form of a filter: a leaf as its column filter, a node as an
/// object with the one member `and` or `or`, which holds the wire forms of
/// the two sides.
pub open spec fn serialized(filter: QueryFilterModel) -> JsonModel
    decreases filter,
{
    match filter {
        QueryFilterModel::And(left, right) => combined(
            "and"@,
            serialized(*left),
            serialized(*right),
        ),
        QueryFilterModel::Or(left, right) => combined(
            "or"@,
            serialized(*left),
            serialized(*right),
        ),
        QueryFilterModel::ColumnFilter(leaf) => ColumnFilter::encoded(leaf),
    }
}

fn combine(key: &str, left: Json, right: Json) -> (doc: Json)
    ensures
        doc.deep_view() == combined(key@, left.deep_view(), right.deep_view()),
{
    let mut sides: Vec<Json> = Vec::new();
    sides.push(left);
    sides.push(right);
    proof {
        lemma_array_model(sides);
        assert(sides.deep_view() =~= Seq::empty().push(left.deep_view()).push(right.deep_view()));
    }
    let mut entries = no_entries();
    put(&mut entries, key, Json::Array(sides));
    object(entries)
}

/// Writes a filter in its wire form.
pub fn serialize(filter: &QueryFilter) -> (doc: Json)
    ensures
        doc.deep_view() == serialized(filter.deep_view()),
    decreases filter,
{
    match filter {
        QueryFilter::And(left, right) => combine("and", serialize(left), serialize(right)),
        QueryFilter::Or(left, right) => combine("or", serialize(left), serialize(right)),
        QueryFilter::ColumnFilter(leaf) => leaf.encode(),
    }
}

impl Encode for QueryFilter {
    open spec fn encoded(value: QueryFilterModel) -> JsonModel {
        serialized(value)
    }

    fn encode(&self) -> (doc: Json) {
        serialize(self)
    }
}

/// The names of the comparisons on a column of text, in the order of the
/// fields.
pub open spec fn rich_text_fields() -> Seq<Seq<char>> {
    Seq::empty().push("contains"@).push("does_not_contain"@).push("is_empty"@).push(
        "is_not_empty"@,
    ).push("starts_with"@).push("ends_with"@).push("equals"@).push("does_not_equal"@)
}

/// The names of the comparisons on a checkbox column.
pub open spec fn checkbox_fields() -> Seq<Seq<char>> {
    Seq::empty().push("equals"@).push("does_not_equal"@)
}

/// The names of the comparisons on a relation column.
pub open spec fn relation_fields() -> Seq<Seq<char>> {
    Seq::empty().push("contains"@).push("does_not_contain"@).push("is_empty"@).push(
        "is_not_empty"@,
    )
}

impl RichTextColumnFilter {
    /// The names of the comparisons, in the order of the fields.
    pub fn field_names() -> (names: Vec<String>)
        ensures
            names.deep_view() == rich_text_fields(),
    {
        let mut names: Vec<String> = Vec::new();
        names.push(String::from_str("contains"));
        names.push(String::from_str("does_not_contain"));
        names.push(String::from_str("is_empty"));
        names.push(String::from_str("is_not_empty"));
        names.push(String::from_str("starts_with"));
        names.push(String::from_str("ends_with"));
        names.push(String::from_str("equals"));
        names.push(String::from_str("does_not_equal"));
        assert(names.deep_view() =~= rich_text_fields());
        names
    }
}

impl CheckboxColumnFilter {
    /// The names of the comparisons, in the order of the fields.
    pub fn field_names() -> (names: Vec<String>)
        ensures
            names.deep_view() == checkbox_fields(),
    {
        let mut names: Vec<String> = Vec::new();
        names.push(String::from_str("equals"));
        names.push(String::from_str("does_not_equal"));
        assert(names.deep_view() =~= checkbox_fields());
        names
    }
}

impl RelationColumnFilter {
    /// The names of the comparisons, in the order of the fields.
    pub fn field_names() -> (names: Vec<String>)
        ensures
            names.deep_view() == relation_fields(),
    {
        let mut names: Vec<String> = Vec::new();
        names.push(String::from_str("contains"));
        names.push(String::from_str("does_not_contain"));
        names.push(String::from_str("is_empty"));
        names.push(String::from_str("is_not_empty"));
        assert(names.deep_view() =~= relation_fields());
        names
    }
}

/// The comparisons that can be asked for on a column of the given type:
/// those of text and of checkboxes; `None` for a type that cannot be
/// queried.
pub open spec fn fields_of(column_type: Seq<char>) -> Option<Seq<Seq<char>>> {
    if column_type == "checkbox"@ {
        Some(checkbox_fields())
    } else if column_type == "rich_text"@ {
        Some(rich_text_fields())
    } else {
        None
    }
}

/// The comparisons that can be asked for on a column of the given type.
pub fn filter_fields(column_type: &str) -> (names: Option<Vec<String>>)
    ensures
        names.deep_view() == fields_of(column_type@),
{
    if same_text(column_type, "checkbox") {
        Some(CheckboxColumnFilter::field_names())
    } else if same_text(column_type, "rich_text") {
        Some(RichTextColumnFilter::field_names())
    } else {
        None
    }
}

/// The value that was given for a condition; where it was given more than
/// once, the last one.
pub open spec fn setting(conditions: Seq<(Seq<char>, Seq<char>)>, name: Seq<char>) -> Option<
    Seq<char>,
> {
    match find(conditions, name, conditions.len()) {
        Some(i) => Some(conditions[i].1),
        None => None,
    }
}

/// Whether the value that was given for a condition is `true`.
pub open spec fn flag(conditions: Seq<(Seq<char>, Seq<char>)>, name: Seq<char>) -> Option<bool> {
    match setting(conditions, name) {
        Some(value) => Some(value == "true"@),
        None => None,
    }
}

/// `flag`, with `false` for a condition that was not given.
pub open spec fn flag_or_false(
    conditions: Seq<(Seq<char>, Seq<char>)>,
    name: Seq<char>,
) -> Option<bool> {
    match flag(conditions, name) {
        Some(value) => Some(value),
        None => Some(false),
    }
}

/// The filter on a column that a set of conditions asks for.
///
/// The type of the column says which predicate is set; for a type without
/// predicates none is. A filter on text always says whether it asks for
/// empty and for non-empty cells. A filter on a relation asks for
/// non-empty cells where the condition `follow` is given.
pub open spec fn filter_from(
    name: Seq<char>,
    column_type: Seq<char>,
    conditions: Seq<(Seq<char>, Seq<char>)>,
) -> ColumnFilterModel {
    ColumnFilterModel {
        property: name,
        rich_text: if column_type == "rich_text"@ {
            Some(
                RichTextColumnFilterModel {
                    contains: setting(conditions, "contains"@),
                    does_not_contain: setting(conditions, "does_not_contain"@),
                    is_empty: flag_or_false(conditions, "is_empty"@),
                    is_not_empty: flag_or_false(conditions, "is_not_empty"@),
                    starts_with: setting(conditions, "starts_with"@),
                    ends_with: setting(conditions, "ends_with"@),
                    equals: setting(conditions, "equals"@),
                    does_not_equal: setting(conditions, "does_not_equal"@),
                },
            )
        } else {
            None
        },
        checkbox: if column_type == "checkbox"@ {
            Some(
                CheckboxColumnFilterModel {
                    equals: flag(conditions, "equals"@),
                    does_not_equal: flag(conditions, "does_not_equal"@),
                },
            )
        } else {
            None
        },
        relation: if column_type == "relation"@ {
            Some(
                RelationColumnFilterModel {
                    contains: setting(conditions, "contains"@),
                    does_not_contain: setting(conditions, "does_not_contain"@),
                    is_empty: flag(conditions, "is_empty"@),
                    is_not_empty: if setting(conditions, "follow"@) is Some {
                        Some(true)
                    } else {
                        flag(conditions, "is_not_empty"@)
                    },
                },
            )
        } else {
            None
        },
    }
}

fn setting_of(conditions: &Vec<(String, String)>, name: &str) -> (value: Option<String>)
    ensures
        value.deep_view() == setting(conditions.deep_view(), name@),
{
    match position(conditions, name) {
        Some(i) => {
            assert(conditions.deep_view()[i as int] == conditions@[i as int].deep_view());
            Some(conditions[i].1.clone())
        },
        None => None,
    }
}

fn flag_of(conditions: &Vec<(String, String)>, name: &str) -> (value: Option<bool>)
    ensures
        value == flag(conditions.deep_view(), name@),
{
    match position(conditions, name) {
        Some(i) => {
            assert(conditions.deep_view()[i as int] == conditions@[i as int].deep_view());
            Some(same_text(conditions[i].1.as_str(), "true"))
        },
        None => None,
    }
}

fn flag_or_false_of(conditions: &Vec<(String, String)>, name: &str) -> (value: Option<bool>)
    ensures
        value == flag_or_false(conditions.deep_view(), name@),
{
    match flag_of(conditions, name) {
        Some(value) => Some(value),
        None => Some(false),
    }
}

impl ColumnFilter {
    /// The filter on the column `name` of type `column_type` that the
    /// conditions ask for, each condition a name and the value given for
    /// it.
    pub fn from_conditions(
        name: &str,
        column_type: &str,
        conditions: &Vec<(String, String)>,
    ) -> (filter: ColumnFilter)
        ensures
            filter.deep_view() == filter_from(name@, column_type@, conditions.deep_view()),
            filter.deep_view().well_formed() <==> column_type@ == "rich_text"@ || column_type@
                == "checkbox"@ || column_type@ == "relation"@,
    {
        proof {
            lemma_kinds_distinct();
        }
        let mut filter = ColumnFilter {
            property: String::from_str(name),
            rich_text: None,
            checkbox: None,
            relation: None,
        };
        if same_text(column_type, "rich_text") {
            filter.rich_text = Some(
                RichTextColumnFilter {
                    contains: setting_of(conditions, "contains"),
                    does_not_contain: setting_of(conditions, "does_not_contain"),
                    is_empty: flag_or_false_of(conditions, "is_empty"),
                    is_not_empty: flag_or_false_of(conditions, "is_not_empty"),
                    starts_with: setting_of(conditions, "starts_with"),
                    ends_with: setting_of(conditions, "ends_with"),
                    equals: setting_of(conditions, "equals"),
                    does_not_equal: setting_of(conditions, "does_not_equal"),
                },
            );
        } else if same_text(column_type, "checkbox") {
            filter.checkbox = Some(
                CheckboxColumnFilter {
                    equals: flag_of(conditions, "equals"),
                    does_not_equal: flag_of(conditions, "does_not_equal"),
                },
            );
        } else if same_text(column_type, "relation") {
            let follow = setting_of(conditions, "follow");
            let is_not_empty = if follow.is_some() {
                Some(true)
            } else {
                flag_of(conditions, "is_not_empty")
            };
            filter.relation = Some(
                RelationColumnFilter {
                    contains: setting_of(conditions, "contains"),
                    does_not_contain: setting_of(conditions, "does_not_contain"),
                    is_empty: flag_of(conditions, "is_empty"),
                    is_not_empty,
                },
            );
        }
        filter
    }
}

/// The kind of value that a comparison takes; `None` for a name that is no
/// comparison.
pub fn condition_type(name: &str) -> (takes: Option<String>)
    ensures
        takes.deep_view() == setting(filter_conditions(), name@),
{
    let conditions = get_filter_conditions();
    setting_of(&conditions, name)
}

/// The names of the comparisons differ from one another.
pub proof fn lemma_fields_distinct()
    ensures
        "contains"@.len() == 8 && "contains"@[0] == 'c',
        "is_empty"@.len() == 8 && "is_empty"@[0] == 'i',
        "does_not_contain"@.len() == 16,
        "is_not_empty"@.len() == 12,
        "starts_with"@.len() == 11,
        "ends_with"@.len() == 9,
        "equals"@.len() == 6,
        "does_not_equal"@.len() == 14,
{
    reveal_strlit("contains");
    reveal_strlit("does_not_contain");
    reveal_strlit("is_empty");
    reveal_strlit("is_not_empty");
    reveal_strlit("starts_with");
    reveal_strlit("ends_with");
    reveal_strlit("equals");
    reveal_strlit("does_not_equal");
}

/// A comparison that is not made is left out of the wire form, and one
/// that is made stands there with its value: for each comparison on text,
/// the member of its name is there exactly where the comparison is set.
pub proof fn lemma_rich_text_members(filter: RichTextColumnFilterModel)
    ensures
        ({
            let doc = RichTextColumnFilter::encoded(filter);
            &&& doc.get("contains"@) == encoded_option::<String>(filter.contains)
            &&& doc.get("does_not_contain"@) == encoded_option::<String>(filter.does_not_contain)
            &&& doc.get("is_empty"@) == encoded_option::<bool>(filter.is_empty)
            &&& doc.get("is_not_empty"@) == encoded_option::<bool>(filter.is_not_empty)
            &&& doc.get("starts_with"@) == encoded_option::<String>(filter.starts_with)
            &&& doc.get("ends_with"@) == encoded_option::<String>(filter.ends_with)
            &&& doc.get("equals"@) == encoded_option::<String>(filter.equals)
            &&& doc.get("does_not_equal"@) == encoded_option::<String>(filter.does_not_equal)
        }),
{
    broadcast use {lemma_get_push, lemma_get_empty};

    lemma_fields_distinct();
}

/// The same for the comparisons on a checkbox.
pub proof fn lemma_checkbox_members(filter: CheckboxColumnFilterModel)
    ensures
        ({
            let doc = CheckboxColumnFilter::encoded(filter);
            &&& doc.get("equals"@) == encoded_option::<bool>(filter.equals)
            &&& doc.get("does_not_equal"@) == encoded_option::<bool>(filter.does_not_equal)
        }),
{
    broadcast use {lemma_get_push, lemma_get_empty};

    lemma_fields_distinct();
}

/// The same for the comparisons on a relation.
pub proof fn lemma_relation_members(filter: RelationColumnFilterModel)
    ensures
        ({
            let doc = RelationColumnFilter::encoded(filter);
            &&& doc.get("contains"@) == encoded_option::<String>(filter.contains)
            &&& doc.get("does_not_contain"@) == encoded_option::<String>(filter.does_not_contain)
            &&& doc.get("is_empty"@) == encoded_option::<bool>(filter.is_empty)
            &&& doc.get("is_not_empty"@) == encoded_option::<bool>(filter.is_not_empty)
        }),
{
    broadcast use {lemma_get_push, lemma_get_empty};

    lemma_fields_distinct();
}

/// The wire form of a leaf names its column under `property` and holds one
/// member for each predicate that is set, under the name of its kind, and
/// none for the others.
pub proof fn lemma_column_filter_members(filter: ColumnFilterModel)
    ensures
        ({
            let doc = serialized(QueryFilterModel::ColumnFilter(filter));
            &&& doc.get("property"@) == Some(JsonModel::Text(filter.property))
            &&& doc.get("rich_text"@) == encoded_option::<RichTextColumnFilter>(filter.rich_text)
            &&& doc.get("checkbox"@) == encoded_option::<CheckboxColumnFilter>(filter.checkbox)
            &&& doc.get("relation"@) == encoded_option::<RelationColumnFilter>(filter.relation)
        }),
{
    broadcast use {lemma_get_push, lemma_get_empty};

    lemma_kinds_distinct();
    reveal_strlit("property");
    assert("property"@.len() == 8 && "property"@[0] == 'p');
}

/// The wire form of a leaf with exactly one predicate has two members: the
/// name of the column, and the predicate under the name of its kind.
pub proof fn lemma_well_formed_leaf_has_two_members(filter: ColumnFilterModel)
    requires
        filter.well_formed(),
    ensures
        serialized(QueryFilterModel::ColumnFilter(filter)) matches JsonModel::Object(members)
            && members.len() == 2 && members[0] == ("property"@, JsonModel::Text(filter.property))
            && (members[1].0 == "rich_text"@ || members[1].0 == "checkbox"@ || members[1].0
            == "relation"@),
{
}

/// A node is written as an object with the one member `and` or `or`, which
/// lists the wire forms of its two sides, each written by the same rule;
/// so nodes nest to any depth.
pub proof fn lemma_combinators_serialized(left: QueryFilterModel, right: QueryFilterModel)
    ensures
        serialized(QueryFilterModel::And(Box::new(left), Box::new(right))) == JsonModel::Object(
            seq![("and"@, JsonModel::Array(seq![serialized(left), serialized(right)]))],
        ),
        serialized(QueryFilterModel::Or(Box::new(left), Box::new(right))) == JsonModel::Object(
            seq![("or"@, JsonModel::Array(seq![serialized(left), serialized(right)]))],
        ),
{
    let sides = Seq::empty().push(serialized(left)).push(serialized(right));
    assert(sides =~= seq![serialized(left), serialized(right)]);
    assert(Seq::empty().push(("and"@, JsonModel::Array(sides))) =~= seq![
        ("and"@, JsonModel::Array(sides)),
    ]);
    assert(Seq::empty().push(("or"@, JsonModel::Array(sides))) =~= seq![
        ("or"@, JsonModel::Array(sides)),
    ]);
}

/// The text of a node: the texts of its two sides in a list, under the
/// quoted name of the node.
pub proof fn lemma_node_text(key: Seq<char>, left: JsonModel, right: JsonModel)
    ensures
        text_of(combined(key, left, right)) == "{"@ + quoted(key) + ":["@ + text_of(left) + ","@
            + text_of(right) + "]}"@,
{
    reveal_strlit("{");
    reveal_strlit("}");
    reveal_strlit("[");
    reveal_strlit("]");
    reveal_strlit(":");
    reveal_strlit(":[");
    reveal_strlit("]}");
    reveal_with_fuel(items_text, 3);
    reveal_with_fuel(entries_text, 2);
    let sides = Seq::empty().push(left).push(right);
    let list = JsonModel::Array(sides);
    assert(items_text(sides, 2) =~= text_of(left) + ","@ + text_of(right));
    assert(text_of(list) == "["@ + items_text(sides, 2) + "]"@);
    let entries = Seq::empty().push((key, list));
    assert(entries_text(entries, 1) =~= quoted(key) + ":"@ + text_of(list));
    assert(text_of(combined(key, left, right)) == "{"@ + entries_text(entries, 1) + "}"@);
    assert(":["@ =~= ":"@ + "["@);
    assert("]}"@ =~= "]"@ + "}"@);
    assert("{"@ + (quoted(key) + ":"@ + ("["@ + (text_of(left) + ","@ + text_of(right)) + "]"@))
        + "}"@ =~= "{"@ + quoted(key) + (":"@ + "["@) + text_of(left) + ","@ + text_of(right) + (
    "]"@ + "}"@));
}

/// The names of the two kinds of node need no escaping.
pub proof fn lemma_node_names_quoted()
    ensures
        quoted("and"@) == "\"and\""@,
        quoted("or"@) == "\"or\""@,
{
    reveal_strlit("and");
    reveal_strlit("or");
    reveal_strlit("\"and\"");
    reveal_strlit("\"or\"");
    reveal_with_fuel(escaped, 4);
    let a = "and"@;
    assert(a.drop_last() =~= seq!['a', 'n']);
    assert(a.drop_last().drop_last() =~= seq!['a']);
    assert(a.drop_last().drop_last().drop_last() =~= Seq::<char>::empty());
    assert(escaped(a) =~= seq!['a', 'n', 'd']);
    assert(quoted(a) =~= "\"and\""@);
    let o = "or"@;
    assert(o.drop_last() =~= seq!['o']);
    assert(o.drop_last().drop_last() =~= Seq::<char>::empty());
    assert(escaped(o) =~= seq!['o', 'r']);
    assert(quoted(o) =~= "\"or\""@);
}

/// The text of a conjunction and of a disjunction, whatever stands on
/// their two sides.
pub proof fn lemma_combinators_text(left: QueryFilterModel, right: QueryFilterModel)
    ensures
        text_of(serialized(QueryFilterModel::And(Box::new(left), Box::new(right)))) == "{"@
            + "\"and\""@ + ":["@ + text_of(serialized(left)) + ","@ + text_of(serialized(right))
            + "]}"@,
        text_of(serialized(QueryFilterModel::Or(Box::new(left), Box::new(right)))) == "{"@
            + "\"or\""@ + ":["@ + text_of(serialized(left)) + ","@ + text_of(serialized(right))
            + "]}"@,
{
    lemma_node_names_quoted();
    lemma_node_text("and"@, serialized(left), serialized(right));
    lemma_node_text("or"@, serialized(left), serialized(right));
}

} // verus!
