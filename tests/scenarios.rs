use sqlite::statement::{SQLITE_DONE, SQLITE_ROW};
use sqlite::{Bindable, Binding, Cell, FloatBits, Parameter, State, Statement, Type, Value};

fn prepare(columns: &[&str]) -> Statement {
    Statement::new(0, None, columns.iter().map(|name| name.to_string()).collect()).unwrap()
}

fn text(value: &str) -> Cell {
    Cell::String(Some(value.to_string()))
}

fn alice() -> Vec<Cell> {
    vec![
        Cell::Integer(1),
        text("Alice"),
        Cell::Float(42.69f64.to_bits()),
        Cell::Binary(Some(vec![0x42, 0x69])),
        Cell::Null,
    ]
}

fn english() -> Vec<Vec<Cell>> {
    ["cerotype", "metatype", "ozotype", "phenotype", "plastotype", "undertype"]
        .iter()
        .map(|word| vec![text(word)])
        .collect()
}

/// The positions that a sequence of bindings resolves to, where the engine
/// knows the names in `known` at positions 1, 2 and so on.
fn positions(bindings: &[Binding], known: &[&str]) -> Vec<usize> {
    bindings
        .iter()
        .map(|(parameter, _)| {
            let found = match parameter {
                Parameter::Name(name) => known.iter().position(|k| k == name).map(|i| i + 1),
                Parameter::Position(_) => None,
            };
            parameter.resolve(found).unwrap()
        })
        .collect()
}

fn values(bindings: &[Binding]) -> Vec<Value> {
    bindings.iter().map(|(_, value)| value.copy()).collect()
}

fn count_rows(statement: &mut Statement, rows: Vec<Vec<Cell>>) -> usize {
    let mut count = 0;
    for row in rows {
        if statement.next(SQLITE_ROW, None, row).unwrap() == State::Row {
            count += 1;
        }
    }
    assert_eq!(statement.next(SQLITE_DONE, None, vec![]).unwrap(), State::Done);
    count
}

#[test]
fn bind_iter() {
    let parts: Vec<(&str, Value)> = vec![(":name", Value::String("Bob".to_string())), (":id", Value::Integer(42))];
    let mut bindings = Vec::new();
    for part in parts {
        bindings.extend(part.to_bindings());
    }
    assert_eq!(positions(&bindings, &[":id", ":name"]), vec![2, 1]);
    assert_eq!(values(&bindings), vec![Value::String("Bob".to_string()), Value::Integer(42)]);
    let mut statement = prepare(&[]);
    let mut cursor = statement.iter();
    assert!(cursor.next(SQLITE_DONE, None, vec![]).is_none());
}

#[test]
fn cursor_bind_by_name() {
    let bindings = (&[(":name", Value::String("Bob".to_string())), (":id", Value::Integer(42))][..]).to_bindings();
    assert_eq!(positions(&bindings, &[":id", ":name"]), vec![2, 1]);
    let mut statement = prepare(&[]);
    let mut cursor = statement.iter();
    assert!(cursor.next(SQLITE_DONE, None, vec![]).is_none());
}

#[test]
fn cursor_read() {
    let mut statement = prepare(&["id", "age"]);
    let mut cursor = statement.iter();
    let replies = vec![vec![Cell::Integer(2), Cell::Null], vec![Cell::Integer(1), Cell::Float(42.69f64.to_bits())]];
    let mut count = 0;
    for cells in replies {
        let row = cursor.next(SQLITE_ROW, None, cells).unwrap().unwrap();
        let id = row.read::<i64, _>("id");
        if id == 1 {
            assert_eq!(f64::from_bits(row.read::<FloatBits, _>("age").0), 42.69);
        } else if id == 2 {
            let age = row.read::<Option<FloatBits>, _>("age").map(|f| f64::from_bits(f.0));
            assert_eq!(age.unwrap_or(69.42), 69.42);
        } else {
            panic!("an unexpected id");
        }
        count += 1;
    }
    assert!(cursor.next(SQLITE_DONE, None, vec![]).is_none());
    assert_eq!(count, 2);
}

#[test]
fn cursor_read_with_nullable() {
    let mut statement = prepare(&["id", "name", "email"]);
    let mut cursor = statement.iter();
    let row = cursor.next(SQLITE_ROW, None, vec![Cell::Integer(1), text("Alice"), Cell::Null]).unwrap().unwrap();
    assert_eq!(row.read::<i64, _>("id"), 1);
    assert_eq!(row.read::<Value, _>("id"), Value::Integer(1));
    assert_eq!(row.read::<String, _>("name"), "Alice");
    assert_eq!(row.read::<Value, _>("name"), Value::String("Alice".into()));
    assert_eq!(row.read::<Option<String>, _>("email"), None);
    assert_eq!(row.read::<Value, _>("email"), Value::Null);
    assert_eq!(row.try_read::<Option<String>, _>("email").unwrap(), None);
}

#[test]
fn cursor_wildcard() {
    let statement = prepare(&["value"]);
    let mut cursor = statement.into_iter();
    let mut count = 0;
    for cells in english() {
        if let Some(Ok(_)) = cursor.next(SQLITE_ROW, None, cells) {
            count += 1;
        }
    }
    assert!(cursor.next(SQLITE_DONE, None, vec![]).is_none());
    assert_eq!(count, 6);
}

#[test]
fn cursor_wildcard_with_binding() {
    let bindings = (1usize, "%type").to_bindings();
    assert_eq!(positions(&bindings, &[]), vec![1]);
    assert_eq!(values(&bindings), vec![Value::String("%type".to_string())]);
    let statement = prepare(&["value"]);
    let mut cursor = statement.into_iter();
    let mut count = 0;
    for cells in english() {
        if let Some(Ok(_)) = cursor.next(SQLITE_ROW, None, cells) {
            count += 1;
        }
    }
    assert_eq!(count, 6);
}

#[test]
fn cursor_workflow() {
    let mut select = prepare(&["id", "name"]).into_iter();
    for _ in 0..10 {
        select = select.reset(0, None).unwrap();
        assert_eq!(positions(&(&[Value::Integer(1)][..]).to_bindings(), &[]), vec![1]);
        let row = select.next(SQLITE_ROW, None, vec![Cell::Integer(1), text("Alice")]).unwrap().unwrap();
        assert_eq!(row.read::<i64, _>("id"), 1);
        assert_eq!(row.read::<String, _>("name"), "Alice");
        assert!(select.next(SQLITE_DONE, None, vec![]).is_none());
    }
    let mut select = select.reset(0, None).unwrap();
    assert!(select.next(SQLITE_DONE, None, vec![]).is_none());

    let insert = (&[Value::Integer(42), Value::String("Bob".to_string())][..]).to_bindings();
    assert_eq!(positions(&insert, &[]), vec![1, 2]);

    let mut select = select.reset(0, None).unwrap();
    let row = select.next(SQLITE_ROW, None, vec![Cell::Integer(42), text("Bob")]).unwrap().unwrap();
    assert_eq!(row.read::<i64, _>("id"), 42);
    assert_eq!(row.read::<String, _>("name"), "Bob");
    assert!(select.next(SQLITE_DONE, None, vec![]).is_none());
}

#[test]
fn statement_bind() {
    let photo = [0x69u8, 0x42u8];
    let mut bindings = Vec::new();
    bindings.extend((1usize, 2i64).to_bindings());
    bindings.extend((2usize, "Bob").to_bindings());
    bindings.extend((3usize, FloatBits(69.42f64.to_bits())).to_bindings());
    bindings.extend((4usize, &photo[..]).to_bindings());
    bindings.extend((5usize, ()).to_bindings());
    assert_eq!(positions(&bindings, &[]), vec![1, 2, 3, 4, 5]);
    assert_eq!(
        values(&bindings),
        vec![
            Value::Integer(2),
            Value::String("Bob".to_string()),
            Value::Float(69.42f64.to_bits()),
            Value::Binary(vec![0x69, 0x42]),
            Value::Null,
        ]
    );
    let mut statement = prepare(&[]);
    assert_eq!(statement.next(SQLITE_DONE, None, vec![]).unwrap(), State::Done);
}

#[test]
fn statement_bind_with_nullable() {
    let mut bindings = Vec::new();
    bindings.extend((1usize, None::<i64>).to_bindings());
    bindings.extend((2usize, None::<&str>).to_bindings());
    bindings.extend((3usize, None::<FloatBits>).to_bindings());
    bindings.extend((4usize, None::<&[u8]>).to_bindings());
    bindings.extend((5usize, None::<&str>).to_bindings());
    assert_eq!(values(&bindings), vec![Value::Null, Value::Null, Value::Null, Value::Null, Value::Null]);

    let photo = [0x69u8, 0x42u8];
    let mut bindings = Vec::new();
    bindings.extend((1usize, Some(2i64)).to_bindings());
    bindings.extend((2usize, Some("Bob")).to_bindings());
    bindings.extend((3usize, Some(FloatBits(69.42f64.to_bits()))).to_bindings());
    bindings.extend((4usize, Some(&photo[..])).to_bindings());
    bindings.extend((5usize, None::<&str>).to_bindings());
    assert_eq!(
        values(&bindings),
        vec![
            Value::Integer(2),
            Value::String("Bob".to_string()),
            Value::Float(69.42f64.to_bits()),
            Value::Binary(vec![0x69, 0x42]),
            Value::Null,
        ]
    );
}

#[test]
fn statement_bind_by_name() {
    let known = [":id", ":name", ":age", ":photo", ":email"];
    let photo = [0x69u8, 0x42u8];
    let mut bindings = Vec::new();
    bindings.extend((":id", 2i64).to_bindings());
    bindings.extend((":name", "Bob").to_bindings());
    bindings.extend((":age", FloatBits(69.42f64.to_bits())).to_bindings());
    bindings.extend((":photo", &photo[..]).to_bindings());
    bindings.extend((":email", ()).to_bindings());
    assert_eq!(positions(&bindings, &known), vec![1, 2, 3, 4, 5]);

    let (missing, _) = (":missing", 404i64).to_bindings().remove(0);
    assert!(missing.resolve(None).is_err());
}

#[test]
fn statement_bind_by_name_multiple() {
    let bindings = (":age", 40i64).to_bindings();
    assert_eq!(positions(&bindings, &[":age"]), vec![1]);
    let mut cursor = prepare(&["name"]).into_iter();
    let row = cursor.next(SQLITE_ROW, None, vec![text("Alice")]).unwrap().unwrap();
    assert_eq!(row.read::<String, _>(0), "Alice");
}

#[test]
fn statement_column_count() {
    let mut statement = prepare(&["id", "name", "age", "photo", "email"]);
    assert_eq!(statement.next(SQLITE_ROW, None, alice()).unwrap(), State::Row);
    assert_eq!(statement.column_count(), 5);
}

#[test]
fn statement_column_name() {
    let statement = prepare(&["id", "name", "age", "user_photo"]);
    assert_eq!(statement.column_names(), vec!["id", "name", "age", "user_photo"]);
    assert_eq!("user_photo", statement.column_name(3).unwrap());
}

#[test]
fn statement_column_type() {
    let mut statement = prepare(&["id", "name", "age", "photo", "email"]);
    for index in 0..5usize {
        assert_eq!(statement.column_type(index).unwrap(), Type::Null);
    }
    assert_eq!(statement.next(SQLITE_ROW, None, alice()).unwrap(), State::Row);
    assert_eq!(statement.column_type(0).unwrap(), Type::Integer);
    assert_eq!(statement.column_type(1).unwrap(), Type::String);
    assert_eq!(statement.column_type(2).unwrap(), Type::Float);
    assert_eq!(statement.column_type(3).unwrap(), Type::Binary);
    assert_eq!(statement.column_type(4).unwrap(), Type::Null);
}

#[test]
fn statement_parameter_index() {
    assert_eq!(Statement::parameter_index(0), None);
    let mut statement = prepare(&[]);
    assert_eq!(statement.next(SQLITE_DONE, None, vec![]).unwrap(), State::Done);
}

#[test]
fn statement_read() {
    let mut statement = prepare(&["id", "name", "age", "photo", "email"]);
    assert_eq!(statement.next(SQLITE_ROW, None, alice()).unwrap(), State::Row);
    assert_eq!(statement.read::<i64, _>(0).unwrap(), 1);
    assert_eq!(statement.read::<String, _>(1).unwrap(), String::from("Alice"));
    assert_eq!(f64::from_bits(statement.read::<FloatBits, _>(2).unwrap().0), 42.69);
    assert_eq!(statement.read::<Vec<u8>, _>(3).unwrap(), vec![0x42, 0x69]);
    assert_eq!(statement.read::<Value, _>(4).unwrap(), Value::Null);
    assert_eq!(statement.next(SQLITE_DONE, None, vec![]).unwrap(), State::Done);
}

#[test]
fn statement_read_with_nullable() {
    let mut statement = prepare(&["id", "name", "age", "photo", "email"]);
    assert_eq!(statement.next(SQLITE_ROW, None, alice()).unwrap(), State::Row);
    assert_eq!(statement.read::<Option<i64>, _>(0).unwrap(), Some(1));
    assert_eq!(statement.read::<Option<String>, _>(1).unwrap(), Some(String::from("Alice")));
    assert_eq!(
        statement.read::<Option<FloatBits>, _>(2).unwrap().map(|f| f64::from_bits(f.0)),
        Some(42.69)
    );
    assert_eq!(statement.read::<Option<Vec<u8>>, _>(3).unwrap(), Some(vec![0x42, 0x69]));
    assert_eq!(statement.read::<Option<String>, _>(4).unwrap(), None);
    assert_eq!(statement.next(SQLITE_DONE, None, vec![]).unwrap(), State::Done);
}

#[test]
fn statement_reuse() {
    let mut statement = prepare(&["name"]);
    for _ in 0..5 {
        assert!(statement.reset(0, None).is_ok());
        assert_eq!(positions(&(":age", 40i64).to_bindings(), &[":age"]), vec![1]);
        assert_eq!(statement.next(SQLITE_ROW, None, vec![text("Alice")]).unwrap(), State::Row);
    }
}

#[test]
fn statement_wildcard() {
    let mut statement = prepare(&["value"]);
    assert_eq!(count_rows(&mut statement, english()), 6);
}

#[test]
fn statement_wildcard_with_binding() {
    assert_eq!(positions(&(1usize, "%type").to_bindings(), &[]), vec![1]);
    let mut statement = prepare(&["value"]);
    assert_eq!(count_rows(&mut statement, english()), 6);
}
