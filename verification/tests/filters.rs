use margaret::codec::Encode;
use margaret::json::Json;
use margaret::models::database::{fetch_notion_database, DatabaseCredentials};
use margaret::models::filters::{
    condition_type, filter_fields, get_filter_conditions, serialize, CheckboxColumnFilter,
    ColumnFilter, QueryFilter, RelationColumnFilter, RichTextColumnFilter,
};
use margaret::request::{query_body, query_request, Method};
use margaret::wire::render;

fn leaf(filter: ColumnFilter) -> QueryFilter {
    QueryFilter::ColumnFilter(Box::new(filter))
}

fn email_is_not_empty() -> ColumnFilter {
    ColumnFilter {
        property: "Email".to_string(),
        rich_text: Some(RichTextColumnFilter {
            is_not_empty: Some(true),
            ..RichTextColumnFilter::default()
        }),
        ..ColumnFilter::default()
    }
}

fn done_is(value: bool) -> ColumnFilter {
    ColumnFilter {
        property: "Done".to_string(),
        checkbox: Some(CheckboxColumnFilter { equals: Some(value), does_not_equal: None }),
        ..ColumnFilter::default()
    }
}

fn pairs(list: &[(&str, &str)]) -> Vec<(String, String)> {
    list.iter().map(|(a, b)| (a.to_string(), b.to_string())).collect()
}

#[test]
fn leaf_is_written_without_the_comparisons_that_are_not_made() {
    let text = render(&serialize(&leaf(email_is_not_empty())));
    assert_eq!(text, "{\"property\":\"Email\",\"rich_text\":{\"is_not_empty\":true}}");
    assert!(!text.contains("is_empty"));
    assert!(!text.contains("null"));
    assert!(!text.contains("checkbox"));
    assert!(!text.contains("relation"));
}

#[test]
fn leaf_agrees_with_serde_json_on_its_meaning() {
    let text = render(&serialize(&leaf(email_is_not_empty())));
    let value: serde_json::Value = serde_json::from_str(&text).unwrap();
    assert_eq!(value["property"], "Email");
    assert_eq!(value["rich_text"]["is_not_empty"], true);
    assert_eq!(value.as_object().unwrap().len(), 2);
    assert_eq!(value["rich_text"].as_object().unwrap().len(), 1);
}

#[test]
fn conjunction_lists_its_two_sides() {
    let filter = QueryFilter::And(
        Box::new(leaf(email_is_not_empty())),
        Box::new(leaf(done_is(true))),
    );
    assert_eq!(
        render(&serialize(&filter)),
        "{\"and\":[{\"property\":\"Email\",\"rich_text\":{\"is_not_empty\":true}},\
         {\"property\":\"Done\",\"checkbox\":{\"equals\":true}}]}"
    );
}

#[test]
fn disjunction_lists_its_two_sides() {
    let filter =
        QueryFilter::Or(Box::new(leaf(done_is(false))), Box::new(leaf(email_is_not_empty())));
    assert_eq!(
        render(&serialize(&filter)),
        "{\"or\":[{\"property\":\"Done\",\"checkbox\":{\"equals\":false}},\
         {\"property\":\"Email\",\"rich_text\":{\"is_not_empty\":true}}]}"
    );
}

#[test]
fn nodes_nest() {
    let inner = QueryFilter::Or(Box::new(leaf(done_is(true))), Box::new(leaf(done_is(false))));
    let outer = QueryFilter::And(
        Box::new(inner),
        Box::new(QueryFilter::And(
            Box::new(leaf(email_is_not_empty())),
            Box::new(leaf(done_is(true))),
        )),
    );
    let left = "{\"or\":[{\"property\":\"Done\",\"checkbox\":{\"equals\":true}},\
                {\"property\":\"Done\",\"checkbox\":{\"equals\":false}}]}";
    let right = "{\"and\":[{\"property\":\"Email\",\"rich_text\":{\"is_not_empty\":true}},\
                 {\"property\":\"Done\",\"checkbox\":{\"equals\":true}}]}";
    assert_eq!(render(&serialize(&outer)), format!("{{\"and\":[{},{}]}}", left, right));
    assert_eq!(render(&outer.encode()), render(&serialize(&outer)));
}

#[test]
fn comparisons_are_written_in_the_order_of_the_fields() {
    let all = RichTextColumnFilter {
        contains: Some("a".to_string()),
        does_not_contain: Some("b".to_string()),
        is_empty: Some(false),
        is_not_empty: Some(true),
        starts_with: Some("c".to_string()),
        ends_with: Some("d".to_string()),
        equals: Some("e".to_string()),
        does_not_equal: Some("f".to_string()),
    };
    assert_eq!(
        render(&all.encode()),
        "{\"contains\":\"a\",\"does_not_contain\":\"b\",\"is_empty\":false,\"is_not_empty\":true,\
         \"starts_with\":\"c\",\"ends_with\":\"d\",\"equals\":\"e\",\"does_not_equal\":\"f\"}"
    );
    assert_eq!(render(&RichTextColumnFilter::default().encode()), "{}");
    assert_eq!(render(&CheckboxColumnFilter::default().encode()), "{}");
    assert_eq!(
        render(&CheckboxColumnFilter { equals: None, does_not_equal: Some(true) }.encode()),
        "{\"does_not_equal\":true}"
    );
    let relation = RelationColumnFilter {
        contains: Some("row-1".to_string()),
        does_not_contain: None,
        is_empty: None,
        is_not_empty: Some(true),
    };
    assert_eq!(render(&relation.encode()), "{\"contains\":\"row-1\",\"is_not_empty\":true}");
    assert_eq!(render(&RelationColumnFilter::default().encode()), "{}");
}

#[test]
fn leaf_with_several_predicates_writes_each() {
    let filter = ColumnFilter {
        property: "X".to_string(),
        rich_text: Some(RichTextColumnFilter::default()),
        checkbox: Some(CheckboxColumnFilter::default()),
        relation: Some(RelationColumnFilter::default()),
    };
    assert_eq!(
        render(&filter.encode()),
        "{\"property\":\"X\",\"rich_text\":{},\"checkbox\":{},\"relation\":{}}"
    );
    assert!(!filter.has_single_predicate());
    assert!(!ColumnFilter::default().has_single_predicate());
    assert!(email_is_not_empty().has_single_predicate());
    assert!(done_is(true).has_single_predicate());
    assert_eq!(render(&ColumnFilter::default().encode()), "{\"property\":\"\"}");
}

#[test]
fn texts_are_escaped_as_serde_json_escapes_them() {
    let samples = [
        "",
        "plain",
        "quote\"inside",
        "back\\slash",
        "line\nfeed\rreturn\ttab",
        "\u{8}\u{c}",
        "\u{0}\u{1}\u{1f}\u{7f}",
        "é ü 漢字 🎉",
        "/",
    ];
    for sample in samples {
        let ours = render(&Json::Text(sample.to_string()));
        assert_eq!(ours, serde_json::to_string(sample).unwrap());
        assert_ne!(ours, sample);
    }
    assert_eq!(render(&Json::Text("a\"b".to_string())), "\"a\\\"b\"");
    assert_eq!(render(&Json::Text("\u{1f}".to_string())), "\"\\u001f\"");
    assert_eq!(render(&Json::Text("\n".to_string())), "\"\\n\"");
}

#[test]
fn documents_are_written_compactly() {
    assert_eq!(render(&Json::Null), "null");
    assert_eq!(render(&Json::Bool(true)), "true");
    assert_eq!(render(&Json::Bool(false)), "false");
    assert_eq!(render(&Json::Number("-1.5e3".to_string())), "-1.5e3");
    assert_eq!(render(&Json::Array(vec![])), "[]");
    assert_eq!(render(&Json::Object(vec![])), "{}");
    assert_eq!(
        render(&Json::Array(vec![Json::Null, Json::Bool(true), Json::Array(vec![Json::Null])])),
        "[null,true,[null]]"
    );
    assert_eq!(
        render(&Json::Object(vec![
            ("b".to_string(), Json::Number("1".to_string())),
            ("a\"".to_string(), Json::Object(vec![("c".to_string(), Json::Null)])),
        ])),
        "{\"b\":1,\"a\\\"\":{\"c\":null}}"
    );
}

#[test]
fn filter_conditions_are_the_eight_comparisons() {
    let conditions = get_filter_conditions();
    assert_eq!(
        conditions,
        pairs(&[
            ("contains", "String or i32 (context dependent)"),
            ("does_not_contain", "String or i32 (context dependent)"),
            ("is_empty", "bool"),
            ("is_not_empty", "bool"),
            ("starts_with", "String"),
            ("ends_with", "String"),
            ("equals", "String, i32 or bool (context dependent)"),
            ("does_not_equal", "String, i32, or bool (context dependent)"),
        ])
    );
    assert_eq!(condition_type("is_empty"), Some("bool".to_string()));
    assert_eq!(condition_type("starts_with"), Some("String".to_string()));
    assert_eq!(
        condition_type("equals"),
        Some("String, i32 or bool (context dependent)".to_string())
    );
    assert_eq!(condition_type("follow"), None);
    assert_eq!(condition_type(""), None);
}

#[test]
fn filter_fields_depend_on_the_type_of_the_column() {
    assert_eq!(
        filter_fields("checkbox"),
        Some(vec!["equals".to_string(), "does_not_equal".to_string()])
    );
    assert_eq!(filter_fields("rich_text").unwrap().len(), 8);
    assert_eq!(filter_fields("rich_text").unwrap()[4], "starts_with");
    assert_eq!(filter_fields("relation"), None);
    assert_eq!(filter_fields("number"), None);
    assert_eq!(
        RelationColumnFilter::field_names(),
        vec!["contains", "does_not_contain", "is_empty", "is_not_empty"]
    );
    for name in RichTextColumnFilter::field_names() {
        assert!(condition_type(&name).is_some());
    }
}

#[test]
fn filter_on_text_from_conditions() {
    let filter = ColumnFilter::from_conditions(
        "Email",
        "rich_text",
        &pairs(&[("contains", "@example"), ("is_not_empty", "true"), ("equals", "x")]),
    );
    assert_eq!(
        filter,
        ColumnFilter {
            property: "Email".to_string(),
            rich_text: Some(RichTextColumnFilter {
                contains: Some("@example".to_string()),
                does_not_contain: None,
                is_empty: Some(false),
                is_not_empty: Some(true),
                starts_with: None,
                ends_with: None,
                equals: Some("x".to_string()),
                does_not_equal: None,
            }),
            checkbox: None,
            relation: None,
        }
    );
}

#[test]
fn filter_on_a_checkbox_from_conditions() {
    let filter = ColumnFilter::from_conditions(
        "Done",
        "checkbox",
        &pairs(&[("equals", "yes"), ("does_not_equal", "true"), ("contains", "ignored")]),
    );
    assert_eq!(
        filter,
        ColumnFilter {
            property: "Done".to_string(),
            rich_text: None,
            checkbox: Some(CheckboxColumnFilter { equals: Some(false), does_not_equal: Some(true) }),
            relation: None,
        }
    );
}

#[test]
fn filter_on_a_relation_from_conditions() {
    let filter = ColumnFilter::from_conditions(
        "Owner",
        "relation",
        &pairs(&[("contains", "row-1"), ("is_empty", "false")]),
    );
    assert_eq!(
        filter.relation,
        Some(RelationColumnFilter {
            contains: Some("row-1".to_string()),
            does_not_contain: None,
            is_empty: Some(false),
            is_not_empty: None,
        })
    );
    let followed = ColumnFilter::from_conditions(
        "Owner",
        "relation",
        &pairs(&[("is_not_empty", "false"), ("follow", "")]),
    );
    assert_eq!(followed.relation.unwrap().is_not_empty, Some(true));
}

#[test]
fn filter_from_conditions_takes_the_last_value_given() {
    let filter = ColumnFilter::from_conditions(
        "Email",
        "rich_text",
        &pairs(&[("contains", "first"), ("contains", "last")]),
    );
    assert_eq!(filter.rich_text.unwrap().contains, Some("last".to_string()));
}

#[test]
fn filter_on_a_column_without_predicates_has_none() {
    let filter = ColumnFilter::from_conditions("N", "number", &pairs(&[("equals", "1")]));
    assert_eq!(
        filter,
        ColumnFilter { property: "N".to_string(), rich_text: None, checkbox: None, relation: None }
    );
}

#[test]
fn request_for_a_database() {
    let credentials =
        DatabaseCredentials { id: "db-1".to_string(), token: "SECRET-REDACTED".to_string() };
    let request = fetch_notion_database(&credentials);
    assert_eq!(request.method, Method::Get);
    assert_eq!(request.url, "https://api.notion.com/v1/databases/db-1");
    assert_eq!(
        request.headers,
        pairs(&[("Authorization", "Bearer SECRET-REDACTED"), ("Notion-Version", "2022-06-28")])
    );
    assert_eq!(request.body, None);
}

#[test]
fn request_for_a_query() {
    let credentials = DatabaseCredentials { id: "db-1".to_string(), token: "t".to_string() };
    let request = query_request(&credentials, &leaf(email_is_not_empty()));
    assert_eq!(request.method, Method::Post);
    assert_eq!(request.url, "https://api.notion.com/v1/databases/db-1/query");
    assert_eq!(
        request.headers,
        pairs(&[
            ("Authorization", "Bearer t"),
            ("Notion-Version", "2022-06-28"),
            ("Content-Type", "application/json"),
        ])
    );
    assert_eq!(
        request.body,
        Some(
            "{\"filter\":{\"property\":\"Email\",\"rich_text\":{\"is_not_empty\":true}}}"
                .to_string()
        )
    );
    assert_eq!(request.body, Some(query_body(&leaf(email_is_not_empty()))));
}

#[test]
fn tree_is_well_formed_where_every_leaf_has_one_predicate() {
    let good = QueryFilter::And(
        Box::new(leaf(email_is_not_empty())),
        Box::new(QueryFilter::Or(Box::new(leaf(done_is(true))), Box::new(leaf(done_is(false))))),
    );
    assert!(good.is_well_formed());
    let bad = QueryFilter::And(
        Box::new(leaf(email_is_not_empty())),
        Box::new(QueryFilter::Or(
            Box::new(leaf(ColumnFilter::default())),
            Box::new(leaf(done_is(false))),
        )),
    );
    assert!(!bad.is_well_formed());
    assert!(leaf(done_is(true)).is_well_formed());
    assert!(!leaf(ColumnFilter::default()).is_well_formed());
    assert!(ColumnFilter::from_conditions("A", "rich_text", &pairs(&[])).has_single_predicate());
    assert!(ColumnFilter::from_conditions("A", "checkbox", &pairs(&[])).has_single_predicate());
    assert!(ColumnFilter::from_conditions("A", "relation", &pairs(&[])).has_single_predicate());
    assert!(!ColumnFilter::from_conditions("A", "title", &pairs(&[])).has_single_predicate());
}
