use items_api::statement::{Param, Statement, StatementKind};

#[test]
fn insert_text_and_parameters() {
    let statement =
        Statement::Insert { name: String::from("lamp"), description: String::from("brass") };
    assert_eq!(
        statement.sql(),
        "INSERT INTO items (name, description) VALUES ($1, $2) RETURNING id, name, description"
    );
    assert_eq!(
        statement.params(),
        vec![Param::Text(String::from("lamp")), Param::Text(String::from("brass"))]
    );
    assert_eq!(statement.kind(), StatementKind::Insert);
}

#[test]
fn select_all_text_and_parameters() {
    let statement = Statement::SelectAll;
    assert_eq!(statement.sql(), "SELECT * FROM items ORDER BY id");
    assert_eq!(statement.params(), Vec::<Param>::new());
    assert_eq!(statement.kind(), StatementKind::SelectAll);
}

#[test]
fn select_by_id_text_and_parameters() {
    let statement = Statement::SelectById { id: 7 };
    assert_eq!(statement.sql(), "SELECT * FROM items WHERE id = $1");
    assert_eq!(statement.params(), vec![Param::Int(7)]);
    assert_eq!(statement.kind(), StatementKind::SelectById);
}

#[test]
fn update_text_and_parameters() {
    let statement = Statement::Update {
        id: 3,
        name: String::from("lamp"),
        description: String::from("copper"),
    };
    assert_eq!(
        statement.sql(),
        "UPDATE items SET name = $1, description = $2 WHERE id = $3 RETURNING id, name, description"
    );
    assert_eq!(
        statement.params(),
        vec![
            Param::Text(String::from("lamp")),
            Param::Text(String::from("copper")),
            Param::Int(3)
        ]
    );
    assert_eq!(statement.kind(), StatementKind::Update);
}

#[test]
fn delete_by_id_text_and_parameters() {
    let statement = Statement::DeleteById { id: -4 };
    assert_eq!(statement.sql(), "DELETE FROM items WHERE id = $1");
    assert_eq!(statement.params(), vec![Param::Int(-4)]);
    assert_eq!(statement.kind(), StatementKind::DeleteById);
}

#[test]
fn delete_all_text_and_parameters() {
    let statement = Statement::DeleteAll;
    assert_eq!(statement.sql(), "DELETE FROM items");
    assert_eq!(statement.params(), Vec::<Param>::new());
    assert_eq!(statement.kind(), StatementKind::DeleteAll);
}

#[test]
fn input_never_reaches_the_text() {
    let hostile = Statement::Insert {
        name: String::from("'); DROP TABLE items; --"),
        description: String::from("$1"),
    };
    let plain = Statement::Insert { name: String::from("a"), description: String::from("b") };
    assert_eq!(hostile.sql(), plain.sql());
    assert_eq!(
        hostile.params(),
        vec![Param::Text(String::from("'); DROP TABLE items; --")), Param::Text(String::from("$1"))]
    );
}
