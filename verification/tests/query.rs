use margaret::error::{DecodeError, ProjectionError, ProjectionFault, QueryError, TypeMismatchError};
use margaret::models::blocks::{Blocks, RelationBlock};
use margaret::models::database::{Cell, Column, DatabaseCredentials, Relation, Row};
use margaret::models::responses::{response_to_result, ErrorResponse, SimpleResponse};
use margaret::query::{column_values_of, project, project_cell, project_row};
use margaret::request::{follow_relation, relation_credentials, Method};
use margaret::resolve::{gather, resolve};
use margaret::wire::parse;
use margaret::{query_column_values, query_outcome};

fn column(name: &str, column_type: &str) -> Column {
    Column {
        id: format!("id-{}", name),
        name: name.to_string(),
        column_type: column_type.to_string(),
        relation: None,
    }
}

fn row(id: &str, cells: Option<Vec<(&str, &str, Option<Blocks>)>>) -> Row {
    Row {
        id: id.to_string(),
        properties: cells.map(|cells| {
            cells
                .into_iter()
                .map(|(name, kind, block)| {
                    (
                        name.to_string(),
                        Cell { id: format!("c-{}", name), cell_type: kind.to_string(), block },
                    )
                })
                .collect()
        }),
        archived: None,
        cover: None,
        created_by: None,
        created_time: None,
        icon: None,
        in_trash: None,
        last_edited_by: None,
        last_edited_time: None,
        object: None,
        parent: None,
        url: None,
    }
}

fn email(value: &str) -> Blocks {
    Blocks::Email(value.to_string())
}

const BODY: &str = "{\"object\":\"list\",\"results\":[\
    {\"id\":\"r1\",\"properties\":{\
        \"Done\":{\"id\":\"a\",\"type\":\"checkbox\",\"checkbox\":true},\
        \"Email\":{\"id\":\"b\",\"type\":\"email\",\"email\":\"ada@example.com\"},\
        \"Sum\":{\"id\":\"c\",\"type\":\"formula\",\"formula\":{\"number\":3}}}},\
    {\"id\":\"r2\",\"properties\":{\
        \"Done\":{\"id\":\"a\",\"type\":\"checkbox\",\"checkbox\":false},\
        \"Email\":{\"id\":\"b\",\"type\":\"email\",\"email\":null},\
        \"Sum\":{\"id\":\"c\",\"type\":\"formula\",\"formula\":{\"number\":4}}}}]}";

#[test]
fn query_projects_the_requested_columns_in_their_order() {
    let columns = vec![column("Done", "checkbox")];
    assert_eq!(
        query_column_values(&columns, BODY),
        Ok(vec![
            vec![("Done".to_string(), Blocks::Checkbox(true))],
            vec![("Done".to_string(), Blocks::Checkbox(false))],
        ])
    );
    let rows = vec![
        row("r1", Some(vec![("A", "email", Some(email("1"))), ("B", "email", Some(email("2")))])),
        row("r2", Some(vec![("B", "email", Some(email("4"))), ("A", "email", Some(email("3")))])),
    ];
    assert_eq!(
        project(&rows, &vec![column("B", "email"), column("A", "email"), column("B", "email")]),
        Ok(vec![
            vec![
                ("B".to_string(), email("2")),
                ("A".to_string(), email("1")),
                ("B".to_string(), email("2"))
            ],
            vec![
                ("B".to_string(), email("4")),
                ("A".to_string(), email("3")),
                ("B".to_string(), email("4"))
            ],
        ])
    );
}

#[test]
fn query_without_columns_gives_empty_rows() {
    assert_eq!(query_column_values(&vec![], BODY), Ok(vec![vec![], vec![]]));
    assert_eq!(query_column_values(&vec![column("Done", "checkbox")], "{\"results\":[]}"), Ok(vec![]));
    assert_eq!(project(&vec![row("r", None)], &vec![]), Ok(vec![vec![]]));
}

#[test]
fn query_for_a_column_that_a_row_lacks_is_a_projection_error() {
    let columns = vec![column("Done", "checkbox"), column("Missing", "email")];
    assert_eq!(
        query_column_values(&columns, BODY),
        Err(QueryError::Projection(ProjectionError {
            row: 0,
            column: 1,
            fault: ProjectionFault::MissingColumn
        }))
    );
    let rows = vec![
        row("r1", Some(vec![("A", "email", Some(email("1")))])),
        row("r2", Some(vec![])),
        row("r3", None),
    ];
    assert_eq!(
        project(&rows, &vec![column("A", "email")]),
        Err(ProjectionError { row: 1, column: 0, fault: ProjectionFault::MissingColumn })
    );
    assert_eq!(
        project(&vec![row("r3", None)], &vec![column("A", "email")]),
        Err(ProjectionError { row: 0, column: 0, fault: ProjectionFault::MissingColumn })
    );
}

#[test]
fn query_for_a_cell_without_value_is_a_projection_error() {
    assert_eq!(
        query_column_values(&vec![column("Done", "checkbox"), column("Email", "email")], BODY),
        Err(QueryError::Projection(ProjectionError {
            row: 1,
            column: 1,
            fault: ProjectionFault::AbsentValue
        }))
    );
    assert_eq!(
        query_column_values(&vec![column("Sum", "formula"), column("Nope", "email")], BODY),
        Err(QueryError::Projection(ProjectionError {
            row: 0,
            column: 0,
            fault: ProjectionFault::AbsentValue
        }))
    );
}

#[test]
fn projection_of_one_row_names_the_first_column_that_fails() {
    let one = row("r", Some(vec![("A", "email", Some(email("1"))), ("B", "email", None)]));
    assert_eq!(
        project_row(&one, &vec![column("A", "email"), column("B", "email"), column("C", "email")]),
        Err((1, ProjectionFault::AbsentValue))
    );
    assert_eq!(
        project_row(&one, &vec![column("C", "email"), column("B", "email")]),
        Err((0, ProjectionFault::MissingColumn))
    );
    assert_eq!(project_row(&one, &vec![column("A", "x")]), Ok(vec![("A".to_string(), email("1"))]));
    assert_eq!(project_cell(&one, "A"), Ok(email("1")));
    assert_eq!(project_cell(&one, "B"), Err(ProjectionFault::AbsentValue));
    assert_eq!(project_cell(&one, "C"), Err(ProjectionFault::MissingColumn));
}

#[test]
fn projection_takes_the_last_cell_of_a_name() {
    let one = row("r", Some(vec![("A", "email", Some(email("old"))), ("A", "email", Some(email("new")))]));
    assert_eq!(project_cell(&one, "A"), Ok(email("new")));
}

#[test]
fn query_answer_that_cannot_be_decoded_is_a_decode_error() {
    let columns = vec![column("Done", "checkbox")];
    assert_eq!(query_column_values(&columns, "<html>"), Err(QueryError::Decode(DecodeError::Syntax)));
    assert_eq!(query_column_values(&columns, "{}"), Err(QueryError::Decode(DecodeError::Shape)));
    assert_eq!(
        query_column_values(&columns, "{\"results\":{}}"),
        Err(QueryError::Decode(DecodeError::Shape))
    );
    assert_eq!(
        query_column_values(&columns, "{\"results\":[{\"properties\":{}}]}"),
        Err(QueryError::Decode(DecodeError::Shape))
    );
    assert_eq!(
        query_column_values(
            &columns,
            "{\"results\":[{\"id\":\"r\",\"properties\":{\"Done\":{\"id\":\"a\",\"type\":\"checkbox\",\"checkbox\":\"x\"}}}]}"
        ),
        Err(QueryError::Decode(DecodeError::Shape))
    );
    assert_eq!(
        column_values_of(&parse("[]").unwrap(), &columns),
        Err(QueryError::Decode(DecodeError::Shape))
    );
}

#[test]
fn answers_are_sorted_by_their_status() {
    for status in [200u16, 201, 204, 299] {
        let answer = SimpleResponse { status, body: "ok".to_string() };
        assert_eq!(
            response_to_result(answer),
            Ok(SimpleResponse { status, body: "ok".to_string() })
        );
        assert!(SimpleResponse { status, body: String::new() }.is_success());
    }
    for status in [0u16, 100, 199, 300, 301, 400, 404, 500, 999, 65535] {
        let answer = SimpleResponse { status, body: "no".to_string() };
        assert_eq!(
            response_to_result(answer),
            Err(ErrorResponse { response: SimpleResponse { status, body: "no".to_string() } })
        );
        assert!(!SimpleResponse { status, body: String::new() }.is_success());
    }
}

#[test]
fn query_outcome_of_a_refused_request_is_a_remote_error() {
    let columns = vec![column("Done", "checkbox")];
    let refused = SimpleResponse { status: 401, body: "{\"message\":\"no\"}".to_string() };
    assert_eq!(
        query_outcome(&columns, refused),
        Err(QueryError::Remote(ErrorResponse {
            response: SimpleResponse { status: 401, body: "{\"message\":\"no\"}".to_string() }
        }))
    );
    let answered = SimpleResponse { status: 200, body: BODY.to_string() };
    assert_eq!(
        query_outcome(&columns, answered),
        Ok(vec![
            vec![("Done".to_string(), Blocks::Checkbox(true))],
            vec![("Done".to_string(), Blocks::Checkbox(false))],
        ])
    );
    let garbled = SimpleResponse { status: 200, body: "oops".to_string() };
    assert_eq!(query_outcome(&columns, garbled), Err(QueryError::Decode(DecodeError::Syntax)));
}

#[test]
fn relation_value_resolves_to_its_databases_in_order() {
    let value = Blocks::Relation(vec![
        RelationBlock { id: "db-1".to_string() },
        RelationBlock { id: "db-2".to_string() },
    ]);
    assert_eq!(
        resolve("token", &value),
        Ok(vec![
            DatabaseCredentials { id: "db-1".to_string(), token: "token".to_string() },
            DatabaseCredentials { id: "db-2".to_string(), token: "token".to_string() },
        ])
    );
    assert_eq!(resolve("token", &Blocks::Relation(vec![])), Ok(vec![]));
}

#[test]
fn value_of_another_kind_does_not_resolve() {
    assert_eq!(resolve("token", &Blocks::Checkbox(true)), Err(TypeMismatchError));
    assert_eq!(resolve("token", &Blocks::Email("db-1".to_string())), Err(TypeMismatchError));
    assert_eq!(resolve("token", &Blocks::RichText(vec![])), Err(TypeMismatchError));
    assert_eq!(resolve("token", &Blocks::Number("1".to_string())), Err(TypeMismatchError));
}

#[test]
fn results_are_gathered_in_the_order_of_the_requests() {
    let late_first = vec![(1usize, "result(db-2)"), (0usize, "result(db-1)")];
    assert_eq!(gather(2, late_first), Some(vec!["result(db-1)", "result(db-2)"]));
    let in_order = vec![(0usize, "result(db-1)"), (1usize, "result(db-2)")];
    assert_eq!(gather(2, in_order), Some(vec!["result(db-1)", "result(db-2)"]));
    assert_eq!(
        gather(4, vec![(2usize, 'c'), (0usize, 'a'), (3usize, 'd'), (1usize, 'b')]),
        Some(vec!['a', 'b', 'c', 'd'])
    );
    assert_eq!(gather(0, Vec::<(usize, u8)>::new()), Some(vec![]));
}

#[test]
fn results_that_do_not_fill_every_place_once_are_not_gathered() {
    assert_eq!(gather(2, vec![(0usize, 'a')]), None);
    assert_eq!(gather(2, vec![(0usize, 'a'), (0usize, 'b')]), None);
    assert_eq!(gather(2, vec![(0usize, 'a'), (1usize, 'b'), (1usize, 'c')]), None);
    assert_eq!(gather(2, vec![(0usize, 'a'), (2usize, 'b')]), None);
    assert_eq!(gather(0, vec![(0usize, 'a')]), None);
    assert_eq!(gather(1, Vec::<(usize, char)>::new()), None);
}

#[test]
fn relation_column_gives_the_credentials_of_its_database() {
    let relation = Relation {
        database_id: "db-7".to_string(),
        synced_property_id: None,
        synced_property_name: None,
    };
    assert_eq!(
        relation_credentials("token", &relation),
        DatabaseCredentials { id: "db-7".to_string(), token: "token".to_string() }
    );
    let request = follow_relation("token", &relation);
    assert_eq!(request.method, Method::Get);
    assert_eq!(request.url, "https://api.notion.com/v1/databases/db-7");
    assert_eq!(
        request.headers,
        vec![
            ("Authorization".to_string(), "Bearer token".to_string()),
            ("Notion-Version".to_string(), "2022-06-28".to_string()),
        ]
    );
    assert_eq!(request.body, None);
}
