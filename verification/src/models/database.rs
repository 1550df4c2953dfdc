//! Databases: their columns, their rows and the cells in them.

use crate::codec::{
    all_decoded, member, no_entries, object, optional, optional_member, put, required, same_text,
    Decode, DeepCopy, Encode, RoundTrip,
};
use crate::error::{modelled, shaped, DecodeError, ProjectionFault};
use crate::json::{lemma_get_empty, lemma_get_push, Json, JsonModel};
use crate::models::blocks::{
    from_payload, is_kind, lemma_decoded_kind, lemma_decoded_payload_valid, lemma_kinds_distinct,
    lemma_payload_round_trip, Blocks, BlocksModel,
};
use crate::models::users::{User, UserModel};
pub use crate::request::{fetch_notion_database, follow_relation};
use vstd::prelude::*;

verus! {

/// What is needed to reach one database.
#[derive(Debug, PartialEq)]
pub struct DatabaseCredentials {
    pub id: String,
    pub token: String,
}

/// The mathematical value of a [`DatabaseCredentials`].
pub struct DatabaseCredentialsModel {
    pub id: Seq<char>,
    pub token: Seq<char>,
}

impl DeepView for DatabaseCredentials {
    type V = DatabaseCredentialsModel;

    open spec fn deep_view(&self) -> DatabaseCredentialsModel {
        DatabaseCredentialsModel { id: self.id@, token: self.token@ }
    }
}

/// Where the rows that a relation column points at live.
#[derive(Debug, Hash, PartialEq, Eq)]
pub struct Relation {
    pub database_id: String,
    pub synced_property_id: Option<String>,
    pub synced_property_name: Option<String>,
}

/// The mathematical value of a [`Relation`].
pub struct RelationModel {
    pub database_id: Seq<char>,
    pub synced_property_id: Option<Seq<char>>,
    pub synced_property_name: Option<Seq<char>>,
}

impl DeepView for Relation {
    type V = RelationModel;

    open spec fn deep_view(&self) -> RelationModel {
        RelationModel {
            database_id: self.database_id@,
            synced_property_id: self.synced_property_id.deep_view(),
            synced_property_name: self.synced_property_name.deep_view(),
        }
    }
}

impl DeepCopy for Relation {
    fn deep_copy(&self) -> (copy: Relation) {
        Relation {
            database_id: self.database_id.deep_copy(),
            synced_property_id: self.synced_property_id.deep_copy(),
            synced_property_name: self.synced_property_name.deep_copy(),
        }
    }
}

impl Decode for Relation {
    open spec fn decoded(doc: JsonModel) -> Option<RelationModel> {
        match (
            member::<String>(doc, "database_id"@),
            optional_member::<String>(doc, "synced_property_id"@),
            optional_member::<String>(doc, "synced_property_name"@),
        ) {
            (Some(database_id), Some(synced_property_id), Some(synced_property_name)) => Some(
                RelationModel { database_id, synced_property_id, synced_property_name },
            ),
            _ => None,
        }
    }

    fn decode(doc: &Json) -> (r: Result<Relation, DecodeError>) {
        let database_id = required::<String>(doc, "database_id")?;
        let synced_property_id = optional::<String>(doc, "synced_property_id")?;
        let synced_property_name = optional::<String>(doc, "synced_property_name")?;
        Ok(Relation { database_id, synced_property_id, synced_property_name })
    }
}

/// A named, typed slot of a database's schema.
#[derive(Debug, Hash, PartialEq, Eq)]
pub struct Column {
    pub id: String,
    pub name: String,
    pub column_type: String,
    /// Where the column points, for a column of type `relation`.
    pub relation: Option<Relation>,
}

/// The mathematical value of a [`Column`].
pub struct ColumnModel {
    pub id: Seq<char>,
    pub name: Seq<char>,
    pub column_type: Seq<char>,
    pub relation: Option<RelationModel>,
}

impl DeepView for Column {
    type V = ColumnModel;

    open spec fn deep_view(&self) -> ColumnModel {
        ColumnModel {
            id: self.id@,
            name: self.name@,
            column_type: self.column_type@,
            relation: self.relation.deep_view(),
        }
    }
}

impl DeepCopy for Column {
    fn deep_copy(&self) -> (copy: Column) {
        Column {
            id: self.id.deep_copy(),
            name: self.name.deep_copy(),
            column_type: self.column_type.deep_copy(),
            relation: self.relation.deep_copy(),
        }
    }
}

impl Decode for Column {
    /// A column needs `id`, `name` and `type`; one of type `relation` needs
    /// its link too, and no other column has one.
    open spec fn decoded(doc: JsonModel) -> Option<ColumnModel> {
        match (
            member::<String>(doc, "id"@),
            member::<String>(doc, "name"@),
            member::<String>(doc, "type"@),
        ) {
            (Some(id), Some(name), Some(column_type)) => if column_type == "relation"@ {
                match member::<Relation>(doc, "relation"@) {
                    Some(relation) => Some(
                        ColumnModel { id, name, column_type, relation: Some(relation) },
                    ),
                    None => None,
                }
            } else {
                Some(ColumnModel { id, name, column_type, relation: None })
            },
            _ => None,
        }
    }

    fn decode(doc: &Json) -> (r: Result<Column, DecodeError>) {
        let id = required::<String>(doc, "id")?;
        let name = required::<String>(doc, "name")?;
        let column_type = required::<String>(doc, "type")?;
        let relation = if same_text(column_type.as_str(), "relation") {
            Some(required::<Relation>(doc, "relation")?)
        } else {
            None
        };
        Ok(Column { id, name, column_type, relation })
    }
}

/// The place of the first of the first `n` columns that has the name.
pub open spec fn column_named(columns: Seq<ColumnModel>, name: Seq<char>, n: nat) -> Option<int>
    decreases n,
{
    if n == 0 {
        None
    } else {
        match column_named(columns, name, (n - 1) as nat) {
            Some(i) => Some(i),
            None => if columns[n - 1].name == name {
                Some(n - 1)
            } else {
                None
            },
        }
    }
}

/// A column that is the first of its name among `n` columns is the first
/// among more.
pub proof fn lemma_column_named_stays(columns: Seq<ColumnModel>, name: Seq<char>, n: nat, m: nat)
    requires
        n <= m,
        column_named(columns, name, n) is Some,
    ensures
        column_named(columns, name, m) == column_named(columns, name, n),
    decreases m,
{
    if n < m {
        lemma_column_named_stays(columns, name, n, (m - 1) as nat);
    }
}

/// The place of the first column that has the name.
pub fn find_column(columns: &Vec<Column>, name: &str) -> (place: Option<usize>)
    ensures
        match place {
            Some(i) => column_named(columns.deep_view(), name@, columns@.len()) == Some(i as int)
                && i < columns@.len(),
            None => column_named(columns.deep_view(), name@, columns@.len()) is None,
        },
{
    let ghost models = columns.deep_view();
    let mut i: usize = 0;
    while i < columns.len()
        invariant
            i <= columns@.len(),
            models == columns.deep_view(),
            column_named(models, name@, i as nat) is None,
        decreases columns@.len() - i,
    {
        assert(models[i as int] == columns@[i as int].deep_view());
        if same_text(columns[i].name.as_str(), name) {
            proof {
                assert(column_named(models, name@, (i + 1) as nat) == Some(i as int));
                lemma_column_named_stays(models, name@, (i + 1) as nat, columns@.len());
            }
            return Some(i);
        }
        i += 1;
    }
    None
}

/// The values of the entries of an object, without their names.
pub open spec fn values(entries: Seq<(Seq<char>, JsonModel)>) -> Seq<JsonModel> {
    Seq::new(entries.len(), |i: int| entries[i].1)
}

/// The columns that a schema document describes: `Some(None)` where it has
/// no `properties` member, the columns in document order where that member
/// is an object whose every value is a column, and `None`, for a document
/// that cannot be decoded, otherwise.
pub open spec fn schema_of(doc: JsonModel) -> Option<Option<Seq<ColumnModel>>> {
    match doc.get("properties"@) {
        None => Some(None),
        Some(JsonModel::Object(entries)) => match all_decoded::<Column>(values(entries)) {
            Some(columns) => Some(Some(columns)),
            None => None,
        },
        Some(_) => None,
    }
}

/// Decodes the columns of a database out of its schema document.
pub fn decode_schema(doc: &Json) -> (r: Result<Option<Vec<Column>>, DecodeError>)
    ensures
        modelled(r) == shaped(schema_of(doc.deep_view())),
{
    match doc.get("properties") {
        None => Ok(None),
        Some(properties) => match properties.as_object() {
            None => Err(DecodeError::Shape),
            Some(entries) => {
                let ghost models = entries.deep_view();
                let ghost docs = values(models);
                let mut columns: Vec<Column> = Vec::new();
                let mut i: usize = 0;
                while i < entries.len()
                    invariant
                        i <= entries@.len(),
                        columns@.len() == i,
                        models == entries.deep_view(),
                        docs == values(models),
                        doc.deep_view().get("properties"@) == Some(JsonModel::Object(models)),
                        forall|k: int|
                            0 <= k < i ==> Column::decoded(docs[k]) == Some(
                                (#[trigger] columns@[k]).deep_view(),
                            ),
                    decreases entries@.len() - i,
                {
                    assert(models[i as int] == entries@[i as int].deep_view());
                    match Column::decode(&entries[i].1) {
                        Ok(column) => {
                            columns.push(column);
                        },
                        Err(e) => {
                            assert(Column::decoded(docs[i as int]) is None);
                            return Err(e);
                        },
                    }
                    i += 1;
                }
                proof {
                    assert forall|k: int| 0 <= k < docs.len() implies (
                    #[trigger] Column::decoded(docs[k])) is Some by {
                        assert(Column::decoded(docs[k]) == Some(columns@[k].deep_view()));
                    }
                    assert(columns.deep_view() =~= all_decoded::<Column>(docs)->Some_0);
                }
                Ok(Some(columns))
            },
        },
    }
}

/// A schema document without a `properties` member has no columns at all.
pub proof fn lemma_schema_without_properties(doc: JsonModel)
    requires
        doc.get("properties"@) is None,
    ensures
        schema_of(doc) == Some(None::<Seq<ColumnModel>>),
{
}

/// A schema document whose `properties` member is an empty object has a
/// set of columns, which is empty: not the same as having none.
pub proof fn lemma_schema_with_empty_properties(doc: JsonModel)
    requires
        doc.get("properties"@) == Some(JsonModel::Object(Seq::empty())),
    ensures
        schema_of(doc) == Some(Some(Seq::<ColumnModel>::empty())),
        schema_of(doc) != Some(None::<Seq<ColumnModel>>),
{
    let docs = values(Seq::<(Seq<char>, JsonModel)>::empty());
    assert(all_decoded::<Column>(docs)->Some_0 =~= Seq::<ColumnModel>::empty());
}

/// One row's value for one column.
#[derive(Debug, PartialEq)]
pub struct Cell {
    pub id: String,
    /// The declared type of the column.
    pub cell_type: String,
    /// The value, absent where the type is not modelled or the cell is
    /// empty.
    pub block: Option<Blocks>,
}

/// The mathematical value of a [`Cell`].
pub struct CellModel {
    pub id: Seq<char>,
    pub cell_type: Seq<char>,
    pub block: Option<BlocksModel>,
}

impl CellModel {
    /// A value is of the kind that the cell declares.
    pub open spec fn well_formed(self) -> bool {
        self.block matches Some(block) ==> block.kind() == self.cell_type
    }
}

impl DeepView for Cell {
    type V = CellModel;

    open spec fn deep_view(&self) -> CellModel {
        CellModel { id: self.id@, cell_type: self.cell_type@, block: self.block.deep_view() }
    }
}

impl DeepCopy for Cell {
    fn deep_copy(&self) -> (copy: Cell) {
        Cell {
            id: self.id.deep_copy(),
            cell_type: self.cell_type.deep_copy(),
            block: self.block.deep_copy(),
        }
    }
}

/// The value of a cell of the given declared type: absent where the type is
/// not modelled or the member named like the type is `null`; `None`, for a
/// document that cannot be decoded, where the type is modelled and that
/// member is missing or has not the shape of the type.
pub open spec fn value_of(doc: JsonModel, kind: Seq<char>) -> Option<Option<BlocksModel>> {
    if !is_kind(kind) {
        Some(None)
    } else {
        match doc.get(kind) {
            None => None,
            Some(JsonModel::Null) => Some(None),
            Some(payload) => match from_payload(kind, payload) {
                Some(block) => Some(Some(block)),
                None => None,
            },
        }
    }
}

impl Decode for Cell {
    open spec fn decoded(doc: JsonModel) -> Option<CellModel> {
        match (member::<String>(doc, "id"@), member::<String>(doc, "type"@)) {
            (Some(id), Some(cell_type)) => match value_of(doc, cell_type) {
                Some(block) => Some(CellModel { id, cell_type, block }),
                None => None,
            },
            _ => None,
        }
    }

    fn decode(doc: &Json) -> (r: Result<Cell, DecodeError>) {
        let id = required::<String>(doc, "id")?;
        let cell_type = required::<String>(doc, "type")?;
        let block = if Blocks::is_modelled(cell_type.as_str()) {
            match doc.get(cell_type.as_str()) {
                None => {
                    return Err(DecodeError::Shape);
                },
                Some(payload) => {
                    if payload.is_null() {
                        None
                    } else {
                        Some(Blocks::decode_as(cell_type.as_str(), payload)?)
                    }
                },
            }
        } else {
            None
        };
        Ok(Cell { id, cell_type, block })
    }
}

impl Encode for Cell {
    /// `id`, `type` and, under the name of the type, the value; `null`
    /// where a cell of a modelled type has none.
    open spec fn encoded(value: CellModel) -> JsonModel {
        let base = Seq::empty().push(("id"@, JsonModel::Text(value.id))).push(
            ("type"@, JsonModel::Text(value.cell_type)),
        );
        JsonModel::Object(
            match value.block {
                Some(block) => base.push((block.kind(), block.payload())),
                None => if is_kind(value.cell_type) {
                    base.push((value.cell_type, JsonModel::Null))
                } else {
                    base
                },
            },
        )
    }

    fn encode(&self) -> (doc: Json) {
        let mut entries = no_entries();
        put(&mut entries, "id", self.id.encode());
        put(&mut entries, "type", self.cell_type.encode());
        match &self.block {
            Some(block) => {
                put(&mut entries, block.kind(), block.encode_payload());
            },
            None => {
                if Blocks::is_modelled(self.cell_type.as_str()) {
                    put(&mut entries, self.cell_type.as_str(), Json::Null);
                }
            },
        }
        object(entries)
    }
}

impl RoundTrip for Cell {
    open spec fn valid(value: CellModel) -> bool {
        &&& value.well_formed()
        &&& value.block matches Some(block) ==> block.valid()
    }

    proof fn lemma_round_trip(value: CellModel) {
        broadcast use {lemma_get_push, lemma_get_empty};

        lemma_kinds_distinct();
        reveal_strlit("id");
        reveal_strlit("type");
        assert("id"@.len() == 2 && "type"@.len() == 4);
        if value.block is Some {
            lemma_payload_round_trip(value.block->Some_0);
        }
    }

    proof fn lemma_decoded_valid(doc: JsonModel) {
        if Cell::decoded(doc) is Some {
            let kind = doc.get("type"@)->Some_0->Text_0;
            if is_kind(kind) && doc.get(kind) is Some {
                let payload = doc.get(kind)->Some_0;
                lemma_decoded_kind(kind, payload);
                lemma_decoded_payload_valid(kind, payload);
            }
        }
    }
}

impl CellModel {
    /// The value as a reader sees it; a cell without value has no text.
    pub open spec fn text(self) -> Result<Seq<char>, ProjectionFault> {
        match self.block {
            Some(block) => Ok(block.text()),
            None => Err(ProjectionFault::AbsentValue),
        }
    }
}

impl Cell {
    /// The value as a reader sees it. A cell without value is refused, not
    /// shown as empty.
    pub fn to_text(&self) -> (r: Result<String, ProjectionFault>)
        ensures
            modelled(r) == self.deep_view().text(),
    {
        match &self.block {
            Some(block) => Ok(block.to_string()),
            None => Err(ProjectionFault::AbsentValue),
        }
    }
}

/// Decodes one cell out of its document. The value of a decoded cell is of
/// the kind that the cell declares.
pub fn decode_cell(doc: &Json) -> (r: Result<Cell, DecodeError>)
    ensures
        modelled(r) == shaped(Cell::decoded(doc.deep_view())),
        r matches Ok(cell) ==> cell.deep_view().well_formed() && Cell::valid(cell.deep_view()),
{
    proof {
        Cell::lemma_decoded_valid(doc.deep_view());
    }
    Cell::decode(doc)
}

/// A cell of a type that is not modelled decodes, and has no value.
pub proof fn lemma_unmodelled_cell(doc: JsonModel, id: Seq<char>, kind: Seq<char>)
    requires
        doc.get("id"@) == Some(JsonModel::Text(id)),
        doc.get("type"@) == Some(JsonModel::Text(kind)),
        !is_kind(kind),
    ensures
        Cell::decoded(doc) == Some(CellModel { id, cell_type: kind, block: None }),
{
}

/// A cell of type `checkbox` whose value is neither a boolean nor `null`
/// does not decode.
pub proof fn lemma_checkbox_needs_boolean(doc: JsonModel, payload: JsonModel)
    requires
        doc.get("type"@) == Some(JsonModel::Text("checkbox"@)),
        doc.get("checkbox"@) == Some(payload),
        !(payload is Bool),
        !(payload is Null),
    ensures
        Cell::decoded(doc) is None,
{
    lemma_kinds_distinct();
}

/// One row of a database.
#[derive(Debug, PartialEq)]
pub struct Row {
    pub id: String,
    /// The cells of the row under the names of their columns, in document
    /// order.
    pub properties: Option<Vec<(String, Cell)>>,
    pub archived: Option<bool>,
    pub cover: Option<Json>,
    pub created_by: Option<User>,
    pub created_time: Option<String>,
    pub icon: Option<Json>,
    pub in_trash: Option<bool>,
    pub last_edited_by: Option<Json>,
    pub last_edited_time: Option<String>,
    pub object: Option<String>,
    pub parent: Option<Json>,
    pub url: Option<String>,
}

/// The mathematical value of a [`Row`].
pub struct RowModel {
    pub id: Seq<char>,
    pub properties: Option<Seq<(Seq<char>, CellModel)>>,
    pub archived: Option<bool>,
    pub cover: Option<JsonModel>,
    pub created_by: Option<UserModel>,
    pub created_time: Option<Seq<char>>,
    pub icon: Option<JsonModel>,
    pub in_trash: Option<bool>,
    pub last_edited_by: Option<JsonModel>,
    pub last_edited_time: Option<Seq<char>>,
    pub object: Option<Seq<char>>,
    pub parent: Option<JsonModel>,
    pub url: Option<Seq<char>>,
}

impl DeepView for Row {
    type V = RowModel;

    open spec fn deep_view(&self) -> RowModel {
        RowModel {
            id: self.id@,
            properties: self.properties.deep_view(),
            archived: self.archived.deep_view(),
            cover: self.cover.deep_view(),
            created_by: self.created_by.deep_view(),
            created_time: self.created_time.deep_view(),
            icon: self.icon.deep_view(),
            in_trash: self.in_trash.deep_view(),
            last_edited_by: self.last_edited_by.deep_view(),
            last_edited_time: self.last_edited_time.deep_view(),
            object: self.object.deep_view(),
            parent: self.parent.deep_view(),
            url: self.url.deep_view(),
        }
    }
}

impl Decode for Row {
    /// A row needs its `id`. Its cells and what else the service says of
    /// it may be missing, but not misshapen.
    open spec fn decoded(doc: JsonModel) -> Option<RowModel> {
        match (
            member::<String>(doc, "id"@),
            optional_member::<Vec<(String, Cell)>>(doc, "properties"@),
            optional_member::<bool>(doc, "archived"@),
            optional_member::<Json>(doc, "cover"@),
            optional_member::<User>(doc, "created_by"@),
            optional_member::<String>(doc, "created_time"@),
        ) {
            (
                Some(id),
                Some(properties),
                Some(archived),
                Some(cover),
                Some(created_by),
                Some(created_time),
            ) => match (
                optional_member::<Json>(doc, "icon"@),
                optional_member::<bool>(doc, "in_trash"@),
                optional_member::<Json>(doc, "last_edited_by"@),
                optional_member::<String>(doc, "last_edited_time"@),
                optional_member::<String>(doc, "object"@),
                optional_member::<Json>(doc, "parent"@),
                optional_member::<String>(doc, "url"@),
            ) {
                (
                    Some(icon),
                    Some(in_trash),
                    Some(last_edited_by),
                    Some(last_edited_time),
                    Some(object),
                    Some(parent),
                    Some(url),
                ) => Some(
                    RowModel {
                        id,
                        properties,
                        archived,
                        cover,
                        created_by,
                        created_time,
                        icon,
                        in_trash,
                        last_edited_by,
                        last_edited_time,
                        object,
                        parent,
                        url,
                    },
                ),
                _ => None,
            },
            _ => None,
        }
    }

    fn decode(doc: &Json) -> (r: Result<Row, DecodeError>) {
        let id = required::<String>(doc, "id")?;
        let properties = optional::<Vec<(String, Cell)>>(doc, "properties")?;
        let archived = optional::<bool>(doc, "archived")?;
        let cover = optional::<Json>(doc, "cover")?;
        let created_by = optional::<User>(doc, "created_by")?;
        let created_time = optional::<String>(doc, "created_time")?;
        let icon = optional::<Json>(doc, "icon")?;
        let in_trash = optional::<bool>(doc, "in_trash")?;
        let last_edited_by = optional::<Json>(doc, "last_edited_by")?;
        let last_edited_time = optional::<String>(doc, "last_edited_time")?;
        let object = optional::<String>(doc, "object")?;
        let parent = optional::<Json>(doc, "parent")?;
        let url = optional::<String>(doc, "url")?;
        Ok(
            Row {
                id,
                properties,
                archived,
                cover,
                created_by,
                created_time,
                icon,
                in_trash,
                last_edited_by,
                last_edited_time,
                object,
                parent,
                url,
            },
        )
    }
}

/// What the service answers to a query.
#[derive(Debug, PartialEq)]
pub struct DatabaseQueryResponse {
    pub object: Option<String>,
    pub results: Vec<Row>,
}

/// The mathematical value of a [`DatabaseQueryResponse`].
pub struct DatabaseQueryResponseModel {
    pub object: Option<Seq<char>>,
    pub results: Seq<RowModel>,
}

impl DeepView for DatabaseQueryResponse {
    type V = DatabaseQueryResponseModel;

    open spec fn deep_view(&self) -> DatabaseQueryResponseModel {
        DatabaseQueryResponseModel {
            object: self.object.deep_view(),
            results: self.results.deep_view(),
        }
    }
}

impl Decode for DatabaseQueryResponse {
    open spec fn decoded(doc: JsonModel) -> Option<DatabaseQueryResponseModel> {
        match (optional_member::<String>(doc, "object"@), member::<Vec<Row>>(doc, "results"@)) {
            (Some(object), Some(results)) => Some(DatabaseQueryResponseModel { object, results }),
            _ => None,
        }
    }

    fn decode(doc: &Json) -> (r: Result<DatabaseQueryResponse, DecodeError>) {
        let object = optional::<String>(doc, "object")?;
        let results = required::<Vec<Row>>(doc, "results")?;
        Ok(DatabaseQueryResponse { object, results })
    }
}

} // verus!
