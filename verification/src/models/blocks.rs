//! The values that a cell can hold, and the parts they are made of.

use crate::codec::{
    lemma_member_round_trip, lemma_optional_round_trip, member, no_entries, object, optional,
    optional_member, put, required, same_text, Decode, DeepCopy, Encode, RoundTrip,
};
use crate::error::{modelled, shaped, DecodeError};
use crate::json::{lemma_get_empty, lemma_get_push, Json, JsonModel};
use crate::models::users::{debug_text, User, UserModel};
use crate::text::{bool_text, bool_to_string, join, joined};
use vstd::prelude::*;
use vstd::string::StringExecFns;

verus! {

/// How a span of text is styled.
#[derive(Debug, Clone, PartialEq)]
pub struct RichTextAnnotations {
    pub bold: bool,
    pub code: bool,
    pub color: String,
    pub italic: bool,
    pub strikethrough: bool,
    pub underline: bool,
}

/// The mathematical value of a [`RichTextAnnotations`].
pub struct RichTextAnnotationsModel {
    pub bold: bool,
    pub code: bool,
    pub color: Seq<char>,
    pub italic: bool,
    pub strikethrough: bool,
    pub underline: bool,
}

impl DeepView for RichTextAnnotations {
    type V = RichTextAnnotationsModel;

    open spec fn deep_view(&self) -> RichTextAnnotationsModel {
        RichTextAnnotationsModel {
            bold: self.bold,
            code: self.code,
            color: self.color@,
            italic: self.italic,
            strikethrough: self.strikethrough,
            underline: self.underline,
        }
    }
}

impl DeepCopy for RichTextAnnotations {
    fn deep_copy(&self) -> (copy: RichTextAnnotations) {
        RichTextAnnotations {
            bold: self.bold,
            code: self.code,
            color: self.color.deep_copy(),
            italic: self.italic,
            strikethrough: self.strikethrough,
            underline: self.underline,
        }
    }
}

impl Decode for RichTextAnnotations {
    open spec fn decoded(doc: JsonModel) -> Option<RichTextAnnotationsModel> {
        match (
            member::<bool>(doc, "bold"@),
            member::<bool>(doc, "code"@),
            member::<String>(doc, "color"@),
            member::<bool>(doc, "italic"@),
            member::<bool>(doc, "strikethrough"@),
            member::<bool>(doc, "underline"@),
        ) {
            (
                Some(bold),
                Some(code),
                Some(color),
                Some(italic),
                Some(strikethrough),
                Some(underline),
            ) => Some(
                RichTextAnnotationsModel {
                    bold,
                    code,
                    color,
                    italic,
                    strikethrough,
                    underline,
                },
            ),
            _ => None,
        }
    }

    fn decode(doc: &Json) -> (r: Result<RichTextAnnotations, DecodeError>) {
        let bold = required::<bool>(doc, "bold")?;
        let code = required::<bool>(doc, "code")?;
        let color = required::<String>(doc, "color")?;
        let italic = required::<bool>(doc, "italic")?;
        let strikethrough = required::<bool>(doc, "strikethrough")?;
        let underline = required::<bool>(doc, "underline")?;
        Ok(RichTextAnnotations { bold, code, color, italic, strikethrough, underline })
    }
}

impl Encode for RichTextAnnotations {
    open spec fn encoded(value: RichTextAnnotationsModel) -> JsonModel {
        JsonModel::Object(
            Seq::empty().push(("bold"@, JsonModel::Bool(value.bold))).push(
                ("code"@, JsonModel::Bool(value.code)),
            ).push(("color"@, JsonModel::Text(value.color))).push(
                ("italic"@, JsonModel::Bool(value.italic)),
            ).push(("strikethrough"@, JsonModel::Bool(value.strikethrough))).push(
                ("underline"@, JsonModel::Bool(value.underline)),
            ),
        )
    }

    fn encode(&self) -> (doc: Json) {
        let mut entries = no_entries();
        put(&mut entries, "bold", self.bold.encode());
        put(&mut entries, "code", self.code.encode());
        put(&mut entries, "color", self.color.encode());
        put(&mut entries, "italic", self.italic.encode());
        put(&mut entries, "strikethrough", self.strikethrough.encode());
        put(&mut entries, "underline", self.underline.encode());
        object(entries)
    }
}

impl RoundTrip for RichTextAnnotations {
    open spec fn valid(value: RichTextAnnotationsModel) -> bool {
        true
    }

    proof fn lemma_round_trip(value: RichTextAnnotationsModel) {
        broadcast use {lemma_get_push, lemma_get_empty};

        reveal_strlit("bold");
        reveal_strlit("code");
        reveal_strlit("color");
        reveal_strlit("italic");
        reveal_strlit("strikethrough");
        reveal_strlit("underline");
        assert("bold"@.len() == 4 && "bold"@[0] == 'b');
        assert("code"@.len() == 4 && "code"@[0] == 'c');
        assert("color"@.len() == 5 && "italic"@.len() == 6);
        assert("strikethrough"@.len() == 13 && "underline"@.len() == 9);
    }

    proof fn lemma_decoded_valid(doc: JsonModel) {
    }
}

/// The content of a span that holds plain text.
#[derive(Debug, Clone, PartialEq)]
pub struct Text {
    pub content: String,
    pub link: Option<String>,
}

/// The mathematical value of a [`Text`].
pub struct TextModel {
    pub content: Seq<char>,
    pub link: Option<Seq<char>>,
}

impl DeepView for Text {
    type V = TextModel;

    open spec fn deep_view(&self) -> TextModel {
        TextModel { content: self.content@, link: self.link.deep_view() }
    }
}

impl DeepCopy for Text {
    fn deep_copy(&self) -> (copy: Text) {
        Text { content: self.content.deep_copy(), link: self.link.deep_copy() }
    }
}

impl Decode for Text {
    open spec fn decoded(doc: JsonModel) -> Option<TextModel> {
        match (member::<String>(doc, "content"@), optional_member::<String>(doc, "link"@)) {
            (Some(content), Some(link)) => Some(TextModel { content, link }),
            _ => None,
        }
    }

    fn decode(doc: &Json) -> (r: Result<Text, DecodeError>) {
        let content = required::<String>(doc, "content")?;
        let link = optional::<String>(doc, "link")?;
        Ok(Text { content, link })
    }
}

impl Encode for Text {
    open spec fn encoded(value: TextModel) -> JsonModel {
        JsonModel::Object(
            Seq::empty().push(("content"@, JsonModel::Text(value.content))).push(
                ("link"@, Option::<String>::encoded(value.link)),
            ),
        )
    }

    fn encode(&self) -> (doc: Json) {
        let mut entries = no_entries();
        put(&mut entries, "content", self.content.encode());
        put(&mut entries, "link", self.link.encode());
        object(entries)
    }
}

impl RoundTrip for Text {
    open spec fn valid(value: TextModel) -> bool {
        true
    }

    proof fn lemma_round_trip(value: TextModel) {
        broadcast use {lemma_get_push, lemma_get_empty};

        reveal_strlit("content");
        reveal_strlit("link");
        assert("content"@.len() == 7 && "link"@.len() == 4);
    }

    proof fn lemma_decoded_valid(doc: JsonModel) {
    }
}

/// What a span of text holds.
#[derive(Debug, Clone, Copy, PartialEq, Eq)]
pub enum TextTypes {
    Text,
    Equation,
    Mention,
}

impl DeepView for TextTypes {
    type V = TextTypes;

    open spec fn deep_view(&self) -> TextTypes {
        *self
    }
}

impl TextTypes {
    /// The name of the kind on the wire.
    pub open spec fn name(self) -> Seq<char> {
        match self {
            TextTypes::Text => "text"@,
            TextTypes::Equation => "equation"@,
            TextTypes::Mention => "mention"@,
        }
    }
}

impl DeepCopy for TextTypes {
    fn deep_copy(&self) -> (copy: TextTypes) {
        *self
    }
}

impl Decode for TextTypes {
    open spec fn decoded(doc: JsonModel) -> Option<TextTypes> {
        match doc {
            JsonModel::Text(name) => if name == "text"@ {
                Some(TextTypes::Text)
            } else if name == "equation"@ {
                Some(TextTypes::Equation)
            } else if name == "mention"@ {
                Some(TextTypes::Mention)
            } else {
                None
            },
            _ => None,
        }
    }

    fn decode(doc: &Json) -> (r: Result<TextTypes, DecodeError>) {
        match doc.as_text() {
            None => Err(DecodeError::Shape),
            Some(name) => {
                if same_text(name.as_str(), "text") {
                    Ok(TextTypes::Text)
                } else if same_text(name.as_str(), "equation") {
                    Ok(TextTypes::Equation)
                } else if same_text(name.as_str(), "mention") {
                    Ok(TextTypes::Mention)
                } else {
                    Err(DecodeError::Shape)
                }
            },
        }
    }
}

impl Encode for TextTypes {
    open spec fn encoded(value: TextTypes) -> JsonModel {
        JsonModel::Text(value.name())
    }

    fn encode(&self) -> (doc: Json) {
        match self {
            TextTypes::Text => Json::Text(String::from_str("text")),
            TextTypes::Equation => Json::Text(String::from_str("equation")),
            TextTypes::Mention => Json::Text(String::from_str("mention")),
        }
    }
}

impl RoundTrip for TextTypes {
    open spec fn valid(value: TextTypes) -> bool {
        true
    }

    proof fn lemma_round_trip(value: TextTypes) {
        reveal_strlit("text");
        reveal_strlit("equation");
        reveal_strlit("mention");
        assert("text"@.len() == 4 && "equation"@.len() == 8 && "mention"@.len() == 7);
    }

    proof fn lemma_decoded_valid(doc: JsonModel) {
    }
}

/// The content of a span that holds a formula.
#[derive(Debug, Clone, PartialEq)]
pub struct Expression {
    pub expression: String,
}

/// The mathematical value of an [`Expression`].
pub struct ExpressionModel {
    pub expression: Seq<char>,
}

impl DeepView for Expression {
    type V = ExpressionModel;

    open spec fn deep_view(&self) -> ExpressionModel {
        ExpressionModel { expression: self.expression@ }
    }
}

impl DeepCopy for Expression {
    fn deep_copy(&self) -> (copy: Expression) {
        Expression { expression: self.expression.deep_copy() }
    }
}

impl Decode for Expression {
    open spec fn decoded(doc: JsonModel) -> Option<ExpressionModel> {
        match member::<String>(doc, "expression"@) {
            Some(expression) => Some(ExpressionModel { expression }),
            None => None,
        }
    }

    fn decode(doc: &Json) -> (r: Result<Expression, DecodeError>) {
        let expression = required::<String>(doc, "expression")?;
        Ok(Expression { expression })
    }
}

impl Encode for Expression {
    open spec fn encoded(value: ExpressionModel) -> JsonModel {
        JsonModel::Object(Seq::empty().push(("expression"@, JsonModel::Text(value.expression))))
    }

    fn encode(&self) -> (doc: Json) {
        let mut entries = no_entries();
        put(&mut entries, "expression", self.expression.encode());
        object(entries)
    }
}

impl RoundTrip for Expression {
    open spec fn valid(value: ExpressionModel) -> bool {
        true
    }

    proof fn lemma_round_trip(value: ExpressionModel) {
        broadcast use {lemma_get_push, lemma_get_empty};

    }

    proof fn lemma_decoded_valid(doc: JsonModel) {
    }
}

/// One choice of a multiple-choice column.
#[derive(Debug, Clone, PartialEq)]
pub struct MultiSelectSelection {
    pub color: String,
    pub id: String,
    pub name: String,
}

/// The mathematical value of a [`MultiSelectSelection`].
pub struct MultiSelectSelectionModel {
    pub color: Seq<char>,
    pub id: Seq<char>,
    pub name: Seq<char>,
}

impl DeepView for MultiSelectSelection {
    type V = MultiSelectSelectionModel;

    open spec fn deep_view(&self) -> MultiSelectSelectionModel {
        MultiSelectSelectionModel { color: self.color@, id: self.id@, name: self.name@ }
    }
}

impl DeepCopy for MultiSelectSelection {
    fn deep_copy(&self) -> (copy: MultiSelectSelection) {
        MultiSelectSelection {
            color: self.color.deep_copy(),
            id: self.id.deep_copy(),
            name: self.name.deep_copy(),
        }
    }
}

impl Decode for MultiSelectSelection {
    open spec fn decoded(doc: JsonModel) -> Option<MultiSelectSelectionModel> {
        match (
            member::<String>(doc, "color"@),
            member::<String>(doc, "id"@),
            member::<String>(doc, "name"@),
        ) {
            (Some(color), Some(id), Some(name)) => Some(
                MultiSelectSelectionModel { color, id, name },
            ),
            _ => None,
        }
    }

    fn decode(doc: &Json) -> (r: Result<MultiSelectSelection, DecodeError>) {
        let color = required::<String>(doc, "color")?;
        let id = required::<String>(doc, "id")?;
        let name = required::<String>(doc, "name")?;
        Ok(MultiSelectSelection { color, id, name })
    }
}

impl Encode for MultiSelectSelection {
    open spec fn encoded(value: MultiSelectSelectionModel) -> JsonModel {
        JsonModel::Object(
            Seq::empty().push(("color"@, JsonModel::Text(value.color))).push(
                ("id"@, JsonModel::Text(value.id)),
            ).push(("name"@, JsonModel::Text(value.name))),
        )
    }

    fn encode(&self) -> (doc: Json) {
        let mut entries = no_entries();
        put(&mut entries, "color", self.color.encode());
        put(&mut entries, "id", self.id.encode());
        put(&mut entries, "name", self.name.encode());
        object(entries)
    }
}

impl RoundTrip for MultiSelectSelection {
    open spec fn valid(value: MultiSelectSelectionModel) -> bool {
        true
    }

    proof fn lemma_round_trip(value: MultiSelectSelectionModel) {
        broadcast use {lemma_get_push, lemma_get_empty};

        reveal_strlit("color");
        reveal_strlit("id");
        reveal_strlit("name");
        assert("color"@.len() == 5 && "id"@.len() == 2 && "name"@.len() == 4);
    }

    proof fn lemma_decoded_valid(doc: JsonModel) {
    }
}

/// A reference to a row of another database.
#[derive(Debug, Clone, PartialEq)]
pub struct RelationBlock {
    pub id: String,
}

/// The mathematical value of a [`RelationBlock`].
pub struct RelationBlockModel {
    pub id: Seq<char>,
}

impl DeepView for RelationBlock {
    type V = RelationBlockModel;

    open spec fn deep_view(&self) -> RelationBlockModel {
        RelationBlockModel { id: self.id@ }
    }
}

impl DeepCopy for RelationBlock {
    fn deep_copy(&self) -> (copy: RelationBlock) {
        RelationBlock { id: self.id.deep_copy() }
    }
}

impl Decode for RelationBlock {
    open spec fn decoded(doc: JsonModel) -> Option<RelationBlockModel> {
        match member::<String>(doc, "id"@) {
            Some(id) => Some(RelationBlockModel { id }),
            None => None,
        }
    }

    fn decode(doc: &Json) -> (r: Result<RelationBlock, DecodeError>) {
        let id = required::<String>(doc, "id")?;
        Ok(RelationBlock { id })
    }
}

impl Encode for RelationBlock {
    open spec fn encoded(value: RelationBlockModel) -> JsonModel {
        JsonModel::Object(Seq::empty().push(("id"@, JsonModel::Text(value.id))))
    }

    fn encode(&self) -> (doc: Json) {
        let mut entries = no_entries();
        put(&mut entries, "id", self.id.encode());
        object(entries)
    }
}

impl RoundTrip for RelationBlock {
    open spec fn valid(value: RelationBlockModel) -> bool {
        true
    }

    proof fn lemma_round_trip(value: RelationBlockModel) {
        broadcast use {lemma_get_push, lemma_get_empty};

    }

    proof fn lemma_decoded_valid(doc: JsonModel) {
    }
}

/// A span of styled text.
#[derive(Debug, Clone, PartialEq)]
pub struct RichText {
    pub block_type: TextTypes,
    pub text: Option<Text>,
    /// What the span mentions, kept as it came.
    pub mention: Option<Json>,
    pub equation: Option<Expression>,
    pub annotations: RichTextAnnotations,
    pub plain_text: String,
    pub href: Option<String>,
}

/// The mathematical value of a [`RichText`].
pub struct RichTextModel {
    pub block_type: TextTypes,
    pub text: Option<TextModel>,
    pub mention: Option<JsonModel>,
    pub equation: Option<ExpressionModel>,
    pub annotations: RichTextAnnotationsModel,
    pub plain_text: Seq<char>,
    pub href: Option<Seq<char>>,
}

impl DeepView for RichText {
    type V = RichTextModel;

    open spec fn deep_view(&self) -> RichTextModel {
        RichTextModel {
            block_type: self.block_type,
            text: self.text.deep_view(),
            mention: self.mention.deep_view(),
            equation: self.equation.deep_view(),
            annotations: self.annotations.deep_view(),
            plain_text: self.plain_text@,
            href: self.href.deep_view(),
        }
    }
}

impl DeepCopy for RichText {
    fn deep_copy(&self) -> (copy: RichText) {
        RichText {
            block_type: self.block_type,
            text: self.text.deep_copy(),
            mention: self.mention.deep_copy(),
            equation: self.equation.deep_copy(),
            annotations: self.annotations.deep_copy(),
            plain_text: self.plain_text.deep_copy(),
            href: self.href.deep_copy(),
        }
    }
}

impl Decode for RichText {
    open spec fn decoded(doc: JsonModel) -> Option<RichTextModel> {
        match (
            member::<TextTypes>(doc, "type"@),
            optional_member::<Text>(doc, "text"@),
            optional_member::<Json>(doc, "mention"@),
            optional_member::<Expression>(doc, "equation"@),
            member::<RichTextAnnotations>(doc, "annotations"@),
            member::<String>(doc, "plain_text"@),
            optional_member::<String>(doc, "href"@),
        ) {
            (
                Some(block_type),
                Some(text),
                Some(mention),
                Some(equation),
                Some(annotations),
                Some(plain_text),
                Some(href),
            ) => Some(
                RichTextModel {
                    block_type,
                    text,
                    mention,
                    equation,
                    annotations,
                    plain_text,
                    href,
                },
            ),
            _ => None,
        }
    }

    fn decode(doc: &Json) -> (r: Result<RichText, DecodeError>) {
        let block_type = required::<TextTypes>(doc, "type")?;
        let text = optional::<Text>(doc, "text")?;
        let mention = optional::<Json>(doc, "mention")?;
        let equation = optional::<Expression>(doc, "equation")?;
        let annotations = required::<RichTextAnnotations>(doc, "annotations")?;
        let plain_text = required::<String>(doc, "plain_text")?;
        let href = optional::<String>(doc, "href")?;
        Ok(RichText { block_type, text, mention, equation, annotations, plain_text, href })
    }
}

impl Encode for RichText {
    open spec fn encoded(value: RichTextModel) -> JsonModel {
        JsonModel::Object(
            Seq::empty().push(("type"@, TextTypes::encoded(value.block_type))).push(
                ("text"@, Option::<Text>::encoded(value.text)),
            ).push(("mention"@, Option::<Json>::encoded(value.mention))).push(
                ("equation"@, Option::<Expression>::encoded(value.equation)),
            ).push(("annotations"@, RichTextAnnotations::encoded(value.annotations))).push(
                ("plain_text"@, JsonModel::Text(value.plain_text)),
            ).push(("href"@, Option::<String>::encoded(value.href))),
        )
    }

    fn encode(&self) -> (doc: Json) {
        let mut entries = no_entries();
        put(&mut entries, "type", self.block_type.encode());
        put(&mut entries, "text", self.text.encode());
        put(&mut entries, "mention", self.mention.encode());
        put(&mut entries, "equation", self.equation.encode());
        put(&mut entries, "annotations", self.annotations.encode());
        put(&mut entries, "plain_text", self.plain_text.encode());
        put(&mut entries, "href", self.href.encode());
        object(entries)
    }
}

impl RoundTrip for RichText {
    open spec fn valid(value: RichTextModel) -> bool {
        value.mention matches Some(mention) ==> !(mention is Null)
    }

    proof fn lemma_round_trip(value: RichTextModel) {
        broadcast use {lemma_get_push, lemma_get_empty};

        reveal_strlit("type");
        reveal_strlit("text");
        reveal_strlit("mention");
        reveal_strlit("equation");
        reveal_strlit("annotations");
        reveal_strlit("plain_text");
        reveal_strlit("href");
        assert("type"@.len() == 4 && "type"@[1] == 'y');
        assert("text"@.len() == 4 && "text"@[1] == 'e');
        assert("href"@.len() == 4 && "href"@[1] == 'r');
        assert("mention"@.len() == 7 && "equation"@.len() == 8);
        assert("annotations"@.len() == 11 && "plain_text"@.len() == 10);
        let doc = RichText::encoded(value);
        lemma_member_round_trip::<TextTypes>(doc, "type"@, value.block_type);
        lemma_optional_round_trip::<Text>(doc, "text"@, value.text);
        lemma_optional_round_trip::<Json>(doc, "mention"@, value.mention);
        lemma_optional_round_trip::<Expression>(doc, "equation"@, value.equation);
        lemma_member_round_trip::<RichTextAnnotations>(doc, "annotations"@, value.annotations);
        lemma_member_round_trip::<String>(doc, "plain_text"@, value.plain_text);
        lemma_optional_round_trip::<String>(doc, "href"@, value.href);
    }

    proof fn lemma_decoded_valid(doc: JsonModel) {
    }
}

/// The plain text of each span.
pub open spec fn plain_texts(texts: Seq<RichTextModel>) -> Seq<Seq<char>> {
    Seq::new(texts.len(), |i: int| texts[i].plain_text)
}

/// The name of each choice.
pub open spec fn selection_names(selections: Seq<MultiSelectSelectionModel>) -> Seq<Seq<char>> {
    Seq::new(selections.len(), |i: int| selections[i].name)
}

/// The id of each reference.
pub open spec fn relation_ids(relations: Seq<RelationBlockModel>) -> Seq<Seq<char>> {
    Seq::new(relations.len(), |i: int| relations[i].id)
}

fn plain_text_parts(texts: &Vec<RichText>) -> (parts: Vec<String>)
    ensures
        parts.deep_view() == plain_texts(texts.deep_view()),
{
    let mut parts: Vec<String> = Vec::new();
    let mut i: usize = 0;
    while i < texts.len()
        invariant
            i <= texts@.len(),
            parts@.len() == i,
            forall|k: int| 0 <= k < i ==> (#[trigger] parts@[k])@ == texts@[k].plain_text@,
        decreases texts@.len() - i,
    {
        parts.push(texts[i].plain_text.clone());
        i += 1;
    }
    assert(parts.deep_view() =~= plain_texts(texts.deep_view()));
    parts
}

fn selection_name_parts(selections: &Vec<MultiSelectSelection>) -> (parts: Vec<String>)
    ensures
        parts.deep_view() == selection_names(selections.deep_view()),
{
    let mut parts: Vec<String> = Vec::new();
    let mut i: usize = 0;
    while i < selections.len()
        invariant
            i <= selections@.len(),
            parts@.len() == i,
            forall|k: int| 0 <= k < i ==> (#[trigger] parts@[k])@ == selections@[k].name@,
        decreases selections@.len() - i,
    {
        parts.push(selections[i].name.clone());
        i += 1;
    }
    assert(parts.deep_view() =~= selection_names(selections.deep_view()));
    parts
}

fn relation_id_parts(relations: &Vec<RelationBlock>) -> (parts: Vec<String>)
    ensures
        parts.deep_view() == relation_ids(relations.deep_view()),
{
    let mut parts: Vec<String> = Vec::new();
    let mut i: usize = 0;
    while i < relations.len()
        invariant
            i <= relations@.len(),
            parts@.len() == i,
            forall|k: int| 0 <= k < i ==> (#[trigger] parts@[k])@ == relations@[k].id@,
        decreases relations@.len() - i,
    {
        parts.push(relations[i].id.clone());
        i += 1;
    }
    assert(parts.deep_view() =~= relation_ids(relations.deep_view()));
    parts
}

/// The value of a cell. A number is held as its decimal text.
#[derive(Debug, Clone, PartialEq)]
pub enum Blocks {
    RichText(Vec<RichText>),
    Checkbox(bool),
    Email(String),
    Title(Vec<RichText>),
    MultiSelect(Vec<MultiSelectSelection>),
    CreatedBy(User),
    CreatedTime(String),
    Number(String),
    Relation(Vec<RelationBlock>),
}

/// The mathematical value of a [`Blocks`].
pub enum BlocksModel {
    RichText(Seq<RichTextModel>),
    Checkbox(bool),
    Email(Seq<char>),
    Title(Seq<RichTextModel>),
    MultiSelect(Seq<MultiSelectSelectionModel>),
    CreatedBy(UserModel),
    CreatedTime(Seq<char>),
    Number(Seq<char>),
    Relation(Seq<RelationBlockModel>),
}

impl DeepView for Blocks {
    type V = BlocksModel;

    open spec fn deep_view(&self) -> BlocksModel {
        match self {
            Blocks::RichText(texts) => BlocksModel::RichText(texts.deep_view()),
            Blocks::Checkbox(value) => BlocksModel::Checkbox(*value),
            Blocks::Email(value) => BlocksModel::Email(value@),
            Blocks::Title(texts) => BlocksModel::Title(texts.deep_view()),
            Blocks::MultiSelect(selections) => BlocksModel::MultiSelect(selections.deep_view()),
            Blocks::CreatedBy(user) => BlocksModel::CreatedBy(user.deep_view()),
            Blocks::CreatedTime(value) => BlocksModel::CreatedTime(value@),
            Blocks::Number(value) => BlocksModel::Number(value@),
            Blocks::Relation(relations) => BlocksModel::Relation(relations.deep_view()),
        }
    }
}

impl DeepCopy for Blocks {
    fn deep_copy(&self) -> (copy: Blocks) {
        match self {
            Blocks::RichText(texts) => Blocks::RichText(texts.deep_copy()),
            Blocks::Checkbox(value) => Blocks::Checkbox(*value),
            Blocks::Email(value) => Blocks::Email(value.deep_copy()),
            Blocks::Title(texts) => Blocks::Title(texts.deep_copy()),
            Blocks::MultiSelect(selections) => Blocks::MultiSelect(selections.deep_copy()),
            Blocks::CreatedBy(user) => Blocks::CreatedBy(user.deep_copy()),
            Blocks::CreatedTime(value) => Blocks::CreatedTime(value.deep_copy()),
            Blocks::Number(value) => Blocks::Number(value.deep_copy()),
            Blocks::Relation(relations) => Blocks::Relation(relations.deep_copy()),
        }
    }
}

impl BlocksModel {
    /// The name of the kind of value, which is also the name of the member
    /// that holds it in a cell.
    pub open spec fn kind(self) -> Seq<char> {
        match self {
            BlocksModel::RichText(_) => "rich_text"@,
            BlocksModel::Checkbox(_) => "checkbox"@,
            BlocksModel::Email(_) => "email"@,
            BlocksModel::Title(_) => "title"@,
            BlocksModel::MultiSelect(_) => "multi_select"@,
            BlocksModel::CreatedBy(_) => "created_by"@,
            BlocksModel::CreatedTime(_) => "created_time"@,
            BlocksModel::Number(_) => "number"@,
            BlocksModel::Relation(_) => "relation"@,
        }
    }

    /// The document that stands for the value under the name of its kind.
    pub open spec fn payload(self) -> JsonModel {
        match self {
            BlocksModel::RichText(texts) => Vec::<RichText>::encoded(texts),
            BlocksModel::Checkbox(value) => JsonModel::Bool(value),
            BlocksModel::Email(value) => JsonModel::Text(value),
            BlocksModel::Title(texts) => Vec::<RichText>::encoded(texts),
            BlocksModel::MultiSelect(selections) => Vec::<MultiSelectSelection>::encoded(
                selections,
            ),
            BlocksModel::CreatedBy(user) => User::encoded(user),
            BlocksModel::CreatedTime(value) => JsonModel::Text(value),
            BlocksModel::Number(value) => JsonModel::Number(value),
            BlocksModel::Relation(relations) => Vec::<RelationBlock>::encoded(relations),
        }
    }

    /// The values that come back unchanged from their own payload.
    pub open spec fn valid(self) -> bool {
        match self {
            BlocksModel::RichText(texts) => Vec::<RichText>::valid(texts),
            BlocksModel::Title(texts) => Vec::<RichText>::valid(texts),
            _ => true,
        }
    }

    /// The value as a reader sees it: spans line by line, choices and
    /// references with commas between them.
    pub open spec fn text(self) -> Seq<char> {
        match self {
            BlocksModel::RichText(texts) => joined(plain_texts(texts), "\n"@, texts.len()),
            BlocksModel::Checkbox(value) => bool_text(value),
            BlocksModel::Email(value) => value,
            BlocksModel::Title(texts) => joined(plain_texts(texts), "\n"@, texts.len()),
            BlocksModel::MultiSelect(selections) => joined(
                selection_names(selections),
                ", "@,
                selections.len(),
            ),
            BlocksModel::CreatedBy(user) => debug_text(user),
            BlocksModel::CreatedTime(value) => value,
            BlocksModel::Number(value) => value,
            BlocksModel::Relation(relations) => joined(
                relation_ids(relations),
                ", "@,
                relations.len(),
            ),
        }
    }
}

/// Whether values of the kind with this name are modelled.
pub open spec fn is_kind(name: Seq<char>) -> bool {
    ||| name == "rich_text"@
    ||| name == "checkbox"@
    ||| name == "email"@
    ||| name == "title"@
    ||| name == "multi_select"@
    ||| name == "created_by"@
    ||| name == "created_time"@
    ||| name == "number"@
    ||| name == "relation"@
}

/// The value of the named kind that a payload decodes to; `None` where the
/// payload has not the shape of the kind, or the kind is not modelled.
pub open spec fn from_payload(kind: Seq<char>, doc: JsonModel) -> Option<BlocksModel> {
    if kind == "rich_text"@ {
        match Vec::<RichText>::decoded(doc) {
            Some(texts) => Some(BlocksModel::RichText(texts)),
            None => None,
        }
    } else if kind == "checkbox"@ {
        match doc.boolean() {
            Some(value) => Some(BlocksModel::Checkbox(value)),
            None => None,
        }
    } else if kind == "email"@ {
        match doc.text() {
            Some(value) => Some(BlocksModel::Email(value)),
            None => None,
        }
    } else if kind == "title"@ {
        match Vec::<RichText>::decoded(doc) {
            Some(texts) => Some(BlocksModel::Title(texts)),
            None => None,
        }
    } else if kind == "multi_select"@ {
        match Vec::<MultiSelectSelection>::decoded(doc) {
            Some(selections) => Some(BlocksModel::MultiSelect(selections)),
            None => None,
        }
    } else if kind == "created_by"@ {
        match User::decoded(doc) {
            Some(user) => Some(BlocksModel::CreatedBy(user)),
            None => None,
        }
    } else if kind == "created_time"@ {
        match doc.text() {
            Some(value) => Some(BlocksModel::CreatedTime(value)),
            None => None,
        }
    } else if kind == "number"@ {
        match doc.number() {
            Some(value) => Some(BlocksModel::Number(value)),
            None => None,
        }
    } else if kind == "relation"@ {
        match Vec::<RelationBlock>::decoded(doc) {
            Some(relations) => Some(BlocksModel::Relation(relations)),
            None => None,
        }
    } else {
        None
    }
}

impl Blocks {
    /// Whether values of the kind with this name are modelled.
    pub fn is_modelled(kind: &str) -> (yes: bool)
        ensures
            yes == is_kind(kind@),
    {
        same_text(kind, "rich_text") || same_text(kind, "checkbox") || same_text(kind, "email")
            || same_text(kind, "title") || same_text(kind, "multi_select") || same_text(
            kind,
            "created_by",
        ) || same_text(kind, "created_time") || same_text(kind, "number") || same_text(
            kind,
            "relation",
        )
    }

    /// Decodes the payload of a cell whose declared type is `kind`.
    pub fn decode_as(kind: &str, doc: &Json) -> (r: Result<Blocks, DecodeError>)
        ensures
            modelled(r) == shaped(from_payload(kind@, doc.deep_view())),
    {
        if same_text(kind, "rich_text") {
            Ok(Blocks::RichText(Vec::<RichText>::decode(doc)?))
        } else if same_text(kind, "checkbox") {
            Ok(Blocks::Checkbox(bool::decode(doc)?))
        } else if same_text(kind, "email") {
            Ok(Blocks::Email(String::decode(doc)?))
        } else if same_text(kind, "title") {
            Ok(Blocks::Title(Vec::<RichText>::decode(doc)?))
        } else if same_text(kind, "multi_select") {
            Ok(Blocks::MultiSelect(Vec::<MultiSelectSelection>::decode(doc)?))
        } else if same_text(kind, "created_by") {
            Ok(Blocks::CreatedBy(User::decode(doc)?))
        } else if same_text(kind, "created_time") {
            Ok(Blocks::CreatedTime(String::decode(doc)?))
        } else if same_text(kind, "number") {
            match doc.as_number() {
                Some(value) => Ok(Blocks::Number(value.clone())),
                None => Err(DecodeError::Shape),
            }
        } else if same_text(kind, "relation") {
            Ok(Blocks::Relation(Vec::<RelationBlock>::decode(doc)?))
        } else {
            Err(DecodeError::Shape)
        }
    }

    /// The name of the kind of the value.
    pub fn kind(&self) -> (name: &'static str)
        ensures
            name@ == self.deep_view().kind(),
    {
        match self {
            Blocks::RichText(_) => "rich_text",
            Blocks::Checkbox(_) => "checkbox",
            Blocks::Email(_) => "email",
            Blocks::Title(_) => "title",
            Blocks::MultiSelect(_) => "multi_select",
            Blocks::CreatedBy(_) => "created_by",
            Blocks::CreatedTime(_) => "created_time",
            Blocks::Number(_) => "number",
            Blocks::Relation(_) => "relation",
        }
    }

    /// The document that stands for the value under the name of its kind.
    pub fn encode_payload(&self) -> (doc: Json)
        ensures
            doc.deep_view() == self.deep_view().payload(),
    {
        match self {
            Blocks::RichText(texts) => texts.encode(),
            Blocks::Checkbox(value) => value.encode(),
            Blocks::Email(value) => value.encode(),
            Blocks::Title(texts) => texts.encode(),
            Blocks::MultiSelect(selections) => selections.encode(),
            Blocks::CreatedBy(user) => user.encode(),
            Blocks::CreatedTime(value) => value.encode(),
            Blocks::Number(value) => Json::Number(value.clone()),
            Blocks::Relation(relations) => relations.encode(),
        }
    }

    /// The value as a reader sees it.
    pub fn to_string(&self) -> (text: String)
        ensures
            text@ == self.deep_view().text(),
    {
        match self {
            Blocks::RichText(texts) => join(&plain_text_parts(texts), "\n"),
            Blocks::Checkbox(value) => bool_to_string(*value),
            Blocks::Email(value) => value.clone(),
            Blocks::Title(texts) => join(&plain_text_parts(texts), "\n"),
            Blocks::MultiSelect(selections) => join(&selection_name_parts(selections), ", "),
            Blocks::CreatedBy(user) => user.to_string(),
            Blocks::CreatedTime(value) => value.clone(),
            Blocks::Number(value) => value.clone(),
            Blocks::Relation(relations) => join(&relation_id_parts(relations), ", "),
        }
    }
}

/// The names of the kinds differ from one another.
pub proof fn lemma_kinds_distinct()
    ensures
        "rich_text"@.len() == 9,
        "checkbox"@.len() == 8 && "checkbox"@[0] == 'c',
        "relation"@.len() == 8 && "relation"@[0] == 'r',
        "email"@.len() == 5 && "email"@[0] == 'e',
        "title"@.len() == 5 && "title"@[0] == 't',
        "multi_select"@.len() == 12 && "multi_select"@[0] == 'm',
        "created_time"@.len() == 12 && "created_time"@[0] == 'c',
        "created_by"@.len() == 10,
        "number"@.len() == 6,
{
    reveal_strlit("rich_text");
    reveal_strlit("checkbox");
    reveal_strlit("relation");
    reveal_strlit("email");
    reveal_strlit("title");
    reveal_strlit("multi_select");
    reveal_strlit("created_time");
    reveal_strlit("created_by");
    reveal_strlit("number");
}

/// A decoded value is of the kind that it was decoded as.
pub proof fn lemma_decoded_kind(kind: Seq<char>, doc: JsonModel)
    ensures
        from_payload(kind, doc) matches Some(value) ==> value.kind() == kind,
        from_payload(kind, doc) is Some ==> is_kind(kind),
{
}

/// What a payload decodes to is valid.
pub proof fn lemma_decoded_payload_valid(kind: Seq<char>, doc: JsonModel)
    ensures
        from_payload(kind, doc) matches Some(value) ==> value.valid(),
{
    Vec::<RichText>::lemma_decoded_valid(doc);
}

/// Every valid value comes back unchanged from its payload, decoded as its
/// own kind; and no payload is `null`.
pub proof fn lemma_payload_round_trip(value: BlocksModel)
    requires
        value.valid(),
    ensures
        from_payload(value.kind(), value.payload()) == Some(value),
        is_kind(value.kind()),
        !(value.payload() is Null),
{
    lemma_kinds_distinct();
    match value {
        BlocksModel::RichText(texts) => {
            Vec::<RichText>::lemma_round_trip(texts);
        },
        BlocksModel::Title(texts) => {
            Vec::<RichText>::lemma_round_trip(texts);
        },
        BlocksModel::MultiSelect(selections) => {
            Vec::<MultiSelectSelection>::lemma_round_trip(selections);
        },
        BlocksModel::CreatedBy(user) => {
            User::lemma_round_trip(user);
        },
        BlocksModel::Relation(relations) => {
            Vec::<RelationBlock>::lemma_round_trip(relations);
        },
        _ => {},
    }
}

} // verus!
