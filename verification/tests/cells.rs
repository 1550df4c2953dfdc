use margaret::codec::{Decode, DeepCopy, Encode};
use margaret::error::{DecodeError, ProjectionFault};
use margaret::json::Json;
use margaret::models::blocks::{
    Blocks, Expression, MultiSelectSelection, RelationBlock, RichText, RichTextAnnotations, Text,
    TextTypes,
};
use margaret::models::database::{decode_cell, Cell, Row};
use margaret::models::users::{User, UserEmail};
use margaret::wire::{parse, render};

fn text(value: &str) -> Json {
    Json::Text(value.to_string())
}

fn object(entries: Vec<(&str, Json)>) -> Json {
    Json::Object(entries.into_iter().map(|(key, value)| (key.to_string(), value)).collect())
}

fn plain() -> RichTextAnnotations {
    RichTextAnnotations {
        bold: false,
        code: false,
        color: "default".to_string(),
        italic: true,
        strikethrough: false,
        underline: false,
    }
}

fn span(content: &str) -> RichText {
    RichText {
        block_type: TextTypes::Text,
        text: Some(Text { content: content.to_string(), link: None }),
        mention: None,
        equation: None,
        annotations: plain(),
        plain_text: content.to_string(),
        href: None,
    }
}

fn user() -> User {
    User {
        avatar_url: None,
        id: "u-1".to_string(),
        name: Some("Ada".to_string()),
        object: "user".to_string(),
        person: Some(UserEmail { email: "ada@example.com".to_string() }),
        user_type: Some("person".to_string()),
    }
}

fn cell(kind: &str, block: Blocks) -> Cell {
    Cell { id: "c-1".to_string(), cell_type: kind.to_string(), block: Some(block) }
}

fn nine_cells() -> Vec<Cell> {
    vec![
        cell("rich_text", Blocks::RichText(vec![span("one"), span("two")])),
        cell("checkbox", Blocks::Checkbox(true)),
        cell("email", Blocks::Email("ada@example.com".to_string())),
        cell("title", Blocks::Title(vec![span("Heading")])),
        cell(
            "multi_select",
            Blocks::MultiSelect(vec![
                MultiSelectSelection {
                    color: "red".to_string(),
                    id: "s1".to_string(),
                    name: "Urgent".to_string(),
                },
                MultiSelectSelection {
                    color: "blue".to_string(),
                    id: "s2".to_string(),
                    name: "Later".to_string(),
                },
            ]),
        ),
        cell("created_by", Blocks::CreatedBy(user())),
        cell("created_time", Blocks::CreatedTime("2024-05-01T10:00:00.000Z".to_string())),
        cell("number", Blocks::Number("12.5".to_string())),
        cell(
            "relation",
            Blocks::Relation(vec![
                RelationBlock { id: "db-1".to_string() },
                RelationBlock { id: "db-2".to_string() },
            ]),
        ),
    ]
}

#[test]
fn every_kind_of_cell_comes_back_from_its_document() {
    for cell in nine_cells() {
        assert_eq!(decode_cell(&cell.encode()), Ok(cell.deep_copy()));
        assert_eq!(Cell::decode(&cell.encode()), Ok(cell));
    }
}

#[test]
fn every_kind_of_cell_comes_back_from_its_text() {
    for cell in nine_cells() {
        let written = render(&cell.encode());
        let read = parse(&written).unwrap();
        assert_eq!(decode_cell(&read), Ok(cell));
    }
}

#[test]
fn every_kind_of_value_names_its_kind() {
    let kinds: Vec<&str> = nine_cells().iter().map(|c| c.block.as_ref().unwrap().kind()).collect();
    assert_eq!(
        kinds,
        vec![
            "rich_text",
            "checkbox",
            "email",
            "title",
            "multi_select",
            "created_by",
            "created_time",
            "number",
            "relation"
        ]
    );
    for cell in nine_cells() {
        assert_eq!(cell.block.as_ref().unwrap().kind(), cell.cell_type);
        assert!(Blocks::is_modelled(&cell.cell_type));
    }
    assert!(!Blocks::is_modelled("formula"));
    assert!(!Blocks::is_modelled(""));
}

#[test]
fn cell_wire_shape_is_flat() {
    let doc = cell("checkbox", Blocks::Checkbox(false)).encode();
    assert_eq!(render(&doc), "{\"id\":\"c-1\",\"type\":\"checkbox\",\"checkbox\":false}");
    let doc = cell("number", Blocks::Number("3".to_string())).encode();
    assert_eq!(render(&doc), "{\"id\":\"c-1\",\"type\":\"number\",\"number\":3}");
}

#[test]
fn cell_of_an_unsupported_kind_has_no_value() {
    let doc = parse("{\"id\":\"x\",\"type\":\"unsupported_kind\",\"unsupported_kind\":{\"a\":1}}")
        .unwrap();
    assert_eq!(
        decode_cell(&doc),
        Ok(Cell { id: "x".to_string(), cell_type: "unsupported_kind".to_string(), block: None })
    );
    let bare = parse("{\"id\":\"x\",\"type\":\"formula\"}").unwrap();
    assert_eq!(
        decode_cell(&bare),
        Ok(Cell { id: "x".to_string(), cell_type: "formula".to_string(), block: None })
    );
}

#[test]
fn cell_checkbox_with_a_value_that_is_no_boolean_is_a_decode_error() {
    let doc = parse("{\"id\":\"x\",\"type\":\"checkbox\",\"checkbox\":\"yes\"}").unwrap();
    assert_eq!(decode_cell(&doc), Err(DecodeError::Shape));
    let doc = parse("{\"id\":\"x\",\"type\":\"checkbox\",\"checkbox\":1}").unwrap();
    assert_eq!(decode_cell(&doc), Err(DecodeError::Shape));
}

#[test]
fn cell_that_is_empty_upstream_has_no_value() {
    let doc = parse("{\"id\":\"x\",\"type\":\"email\",\"email\":null}").unwrap();
    let decoded = decode_cell(&doc).unwrap();
    assert_eq!(decoded.block, None);
    assert_eq!(decoded.cell_type, "email");
    assert_eq!(render(&decoded.encode()), "{\"id\":\"x\",\"type\":\"email\",\"email\":null}");
    assert_eq!(decode_cell(&decoded.encode()), Ok(decoded));
}

#[test]
fn cell_whose_value_is_missing_or_of_another_kind_is_a_decode_error() {
    let doc = parse("{\"id\":\"x\",\"type\":\"email\"}").unwrap();
    assert_eq!(decode_cell(&doc), Err(DecodeError::Shape));
    let doc = parse("{\"id\":\"x\",\"type\":\"email\",\"checkbox\":true}").unwrap();
    assert_eq!(decode_cell(&doc), Err(DecodeError::Shape));
    let doc = parse("{\"id\":\"x\",\"type\":\"number\",\"number\":\"12\"}").unwrap();
    assert_eq!(decode_cell(&doc), Err(DecodeError::Shape));
    let doc = parse("{\"id\":\"x\",\"type\":\"relation\",\"relation\":[{\"id\":1}]}").unwrap();
    assert_eq!(decode_cell(&doc), Err(DecodeError::Shape));
    let doc = parse("{\"id\":\"x\",\"type\":\"title\",\"title\":{}}").unwrap();
    assert_eq!(decode_cell(&doc), Err(DecodeError::Shape));
}

#[test]
fn cell_needs_id_and_type() {
    assert_eq!(decode_cell(&parse("{\"type\":\"email\",\"email\":\"a\"}").unwrap()), Err(DecodeError::Shape));
    assert_eq!(decode_cell(&parse("{\"id\":\"x\",\"email\":\"a\"}").unwrap()), Err(DecodeError::Shape));
    assert_eq!(decode_cell(&parse("{\"id\":1,\"type\":\"zzz\"}").unwrap()), Err(DecodeError::Shape));
    assert_eq!(decode_cell(&parse("[]").unwrap()), Err(DecodeError::Shape));
}

#[test]
fn number_cell_keeps_the_number_as_text() {
    let doc = parse("{\"id\":\"x\",\"type\":\"number\",\"number\":42}").unwrap();
    assert_eq!(decode_cell(&doc).unwrap().block, Some(Blocks::Number("42".to_string())));
    let doc = parse("{\"id\":\"x\",\"type\":\"number\",\"number\":-0.25}").unwrap();
    assert_eq!(decode_cell(&doc).unwrap().block, Some(Blocks::Number("-0.25".to_string())));
}

#[test]
fn rich_text_span_is_decoded_from_the_service_shape() {
    let doc = parse(
        "{\"type\":\"text\",\"text\":{\"content\":\"Hi\",\"link\":null},\
         \"annotations\":{\"bold\":false,\"code\":false,\"color\":\"default\",\"italic\":true,\
         \"strikethrough\":false,\"underline\":false},\"plain_text\":\"Hi\",\"href\":null}",
    )
    .unwrap();
    assert_eq!(RichText::decode(&doc), Ok(span("Hi")));
}

#[test]
fn rich_text_span_keeps_a_mention_as_it_came() {
    let doc = parse(
        "{\"type\":\"mention\",\"mention\":{\"user\":{\"id\":\"u\"}},\
         \"annotations\":{\"bold\":true,\"code\":false,\"color\":\"red\",\"italic\":false,\
         \"strikethrough\":false,\"underline\":true},\"plain_text\":\"@u\",\"href\":\"h\"}",
    )
    .unwrap();
    let decoded = RichText::decode(&doc).unwrap();
    assert_eq!(decoded.block_type, TextTypes::Mention);
    assert_eq!(decoded.mention, Some(object(vec![("user", object(vec![("id", text("u"))]))])));
    assert_eq!(decoded.href, Some("h".to_string()));
    assert_eq!(decoded.text, None);
    assert_eq!(RichText::decode(&decoded.encode()), Ok(decoded));
}

#[test]
fn rich_text_span_with_an_equation() {
    let doc = parse(
        "{\"type\":\"equation\",\"equation\":{\"expression\":\"x^2\"},\
         \"annotations\":{\"bold\":false,\"code\":false,\"color\":\"default\",\"italic\":false,\
         \"strikethrough\":false,\"underline\":false},\"plain_text\":\"x^2\"}",
    )
    .unwrap();
    let decoded = RichText::decode(&doc).unwrap();
    assert_eq!(decoded.block_type, TextTypes::Equation);
    assert_eq!(decoded.equation, Some(Expression { expression: "x^2".to_string() }));
}

#[test]
fn rich_text_span_of_an_unknown_type_is_a_decode_error() {
    let doc = parse(
        "{\"type\":\"sound\",\"annotations\":{\"bold\":false,\"code\":false,\"color\":\"default\",\
         \"italic\":false,\"strikethrough\":false,\"underline\":false},\"plain_text\":\"x\"}",
    )
    .unwrap();
    assert_eq!(RichText::decode(&doc), Err(DecodeError::Shape));
    assert_eq!(TextTypes::decode(&text("text")), Ok(TextTypes::Text));
    assert_eq!(TextTypes::decode(&text("Text")), Err(DecodeError::Shape));
    assert_eq!(TextTypes::decode(&Json::Null), Err(DecodeError::Shape));
}

#[test]
fn user_needs_id_and_object() {
    assert_eq!(User::decode(&parse("{\"id\":\"u\",\"object\":\"user\"}").unwrap()), Ok(User {
        avatar_url: None,
        id: "u".to_string(),
        name: None,
        object: "user".to_string(),
        person: None,
        user_type: None,
    }));
    assert_eq!(User::decode(&parse("{\"id\":\"u\"}").unwrap()), Err(DecodeError::Shape));
    assert_eq!(User::decode(&parse("{\"object\":\"user\"}").unwrap()), Err(DecodeError::Shape));
    assert_eq!(
        User::decode(&parse("{\"id\":\"u\",\"object\":\"user\",\"person\":{}}").unwrap()),
        Err(DecodeError::Shape)
    );
    assert_eq!(User::decode(&user().encode()), Ok(user()));
}

#[test]
fn values_read_as_text() {
    assert_eq!(Blocks::RichText(vec![span("one"), span("two")]).to_string(), "one\ntwo");
    assert_eq!(Blocks::RichText(vec![]).to_string(), "");
    assert_eq!(Blocks::Title(vec![span("Heading")]).to_string(), "Heading");
    assert_eq!(Blocks::Checkbox(true).to_string(), "true");
    assert_eq!(Blocks::Checkbox(false).to_string(), "false");
    assert_eq!(Blocks::Email("a@b.c".to_string()).to_string(), "a@b.c");
    assert_eq!(Blocks::CreatedTime("2024-05-01".to_string()).to_string(), "2024-05-01");
    assert_eq!(Blocks::Number("12.5".to_string()).to_string(), "12.5");
    assert_eq!(
        Blocks::Relation(vec![
            RelationBlock { id: "db-1".to_string() },
            RelationBlock { id: "db-2".to_string() }
        ])
        .to_string(),
        "db-1, db-2"
    );
    assert_eq!(
        Blocks::MultiSelect(vec![
            MultiSelectSelection {
                color: "red".to_string(),
                id: "1".to_string(),
                name: "Urgent".to_string()
            },
            MultiSelectSelection {
                color: "red".to_string(),
                id: "2".to_string(),
                name: "Later".to_string()
            },
            MultiSelectSelection {
                color: "red".to_string(),
                id: "3".to_string(),
                name: "Maybe".to_string()
            },
        ])
        .to_string(),
        "Urgent, Later, Maybe"
    );
}

#[test]
fn user_reads_as_its_debug_text() {
    let expected = "User { avatar_url: None, id: \"u-1\", name: Some(\"Ada\"), object: \"user\", \
                    person: Some(UserEmail { email: \"ada@example.com\" }), \
                    user_type: Some(\"person\") }";
    assert_eq!(user().to_string(), expected);
    assert_eq!(user().to_string(), format!("{:?}", user()));
    assert_eq!(Blocks::CreatedBy(user()).to_string(), expected);
}

#[test]
fn row_needs_only_its_id() {
    let row = Row::decode(&parse("{\"id\":\"r\"}").unwrap()).unwrap();
    assert_eq!(row.id, "r");
    assert_eq!(row.properties, None);
    assert_eq!(row.url, None);
    assert_eq!(Row::decode(&parse("{\"properties\":{}}").unwrap()), Err(DecodeError::Shape));
    assert_eq!(Row::decode(&parse("{\"id\":\"r\",\"archived\":\"no\"}").unwrap()), Err(DecodeError::Shape));
    assert_eq!(Row::decode(&parse("{\"id\":\"r\",\"properties\":[]}").unwrap()), Err(DecodeError::Shape));
}

#[test]
fn row_keeps_what_the_service_says_of_it() {
    let row = Row::decode(
        &parse(
            "{\"object\":\"page\",\"id\":\"r\",\"archived\":false,\"in_trash\":true,\
             \"created_time\":\"t0\",\"last_edited_time\":\"t1\",\"url\":\"https://x\",\
             \"created_by\":{\"object\":\"user\",\"id\":\"u\"},\
             \"last_edited_by\":{\"object\":\"user\",\"id\":\"v\"},\
             \"cover\":null,\"icon\":{\"emoji\":\"x\"},\"parent\":{\"database_id\":\"d\"},\
             \"properties\":{\"Done\":{\"id\":\"p\",\"type\":\"checkbox\",\"checkbox\":true}}}",
        )
        .unwrap(),
    )
    .unwrap();
    assert_eq!(row.object, Some("page".to_string()));
    assert_eq!(row.archived, Some(false));
    assert_eq!(row.in_trash, Some(true));
    assert_eq!(row.created_time, Some("t0".to_string()));
    assert_eq!(row.last_edited_time, Some("t1".to_string()));
    assert_eq!(row.url, Some("https://x".to_string()));
    assert_eq!(row.created_by.unwrap().id, "u");
    assert_eq!(row.last_edited_by, Some(object(vec![("id", text("v")), ("object", text("user"))])));
    assert_eq!(row.cover, None);
    assert_eq!(row.icon, Some(object(vec![("emoji", text("x"))])));
    assert_eq!(row.parent, Some(object(vec![("database_id", text("d"))])));
    assert_eq!(
        row.properties,
        Some(vec![(
            "Done".to_string(),
            Cell {
                id: "p".to_string(),
                cell_type: "checkbox".to_string(),
                block: Some(Blocks::Checkbox(true))
            }
        )])
    );
}

#[test]
fn copies_are_equal_to_what_was_copied() {
    for cell in nine_cells() {
        assert_eq!(cell.deep_copy(), cell);
    }
    let doc = parse("{\"a\":[1,{\"b\":null}],\"c\":\"d\"}").unwrap();
    assert_eq!(doc.deep_copy(), doc);
    assert_eq!(user().deep_copy(), user());
}

#[test]
fn cell_without_value_has_no_text() {
    let empty = Cell { id: "x".to_string(), cell_type: "email".to_string(), block: None };
    assert_eq!(empty.to_text(), Err(ProjectionFault::AbsentValue));
    let unsupported = Cell { id: "x".to_string(), cell_type: "formula".to_string(), block: None };
    assert_eq!(unsupported.to_text(), Err(ProjectionFault::AbsentValue));
    assert_eq!(cell("checkbox", Blocks::Checkbox(true)).to_text(), Ok("true".to_string()));
    assert_eq!(
        cell("rich_text", Blocks::RichText(vec![span("a"), span("b")])).to_text(),
        Ok("a\nb".to_string())
    );
}

#[test]
fn documents_are_written_as_serde_json_writes_them() {
    let sources = [
        "null",
        "[]",
        "{}",
        "[1,2.5,-3,1e300,0.1,\"x\",null,true,false]",
        "{\"a\":[1,{\"b\":\"\\u00e9\\n\"}],\"c\":{\"d\":{\"e\":[[],{}]}}}",
        " { \"z\" : 1 , \"a\" : [ 2 , 3 ] } ",
        "\"\\ud83c\\udf89 / \\/ \\u0000\"",
        "18446744073709551615",
        "-9223372036854775808",
        "123456789012345678901234567890",
    ];
    for source in sources {
        let value: serde_json::Value = serde_json::from_str(source).unwrap();
        let doc = parse(source).unwrap();
        assert_eq!(render(&doc), serde_json::to_string(&value).unwrap());
        assert_eq!(parse(&render(&doc)), Ok(doc.clone()));
    }
}
