use contact_repository::contact::Contact;
use contact_repository::error::RepositoryError;
use contact_repository::repository::{contact_from_row, get_outcome, is_contact_row, save_outcome};
use contact_repository::row::{Row, Value};
use contact_repository::statement::{
    insert_parameters, insert_statement, select_parameters, select_statement,
};
use contact_repository::text::{not_found_message, unreadable_row_message};

/// A driver's error made without a server: the driver refuses this
/// connection string.
fn driver_error() -> tokio_postgres::Error {
    match "nosuchkey=1".parse::<tokio_postgres::Config>() {
        Err(e) => e,
        Ok(_) => panic!("the driver took a connection string with an unknown key"),
    }
}

fn sample() -> Contact {
    Contact {
        id: 13,
        firstname: "first".to_string(),
        lastname: "second".to_string(),
        phone: "0123456789".to_string(),
        email: "e@mail.com".to_string(),
    }
}

fn text(s: &str) -> Value {
    Value::Text(s.to_string())
}

#[test]
fn get_contact_no_contact() {
    let outcome = get_outcome(12, Ok(Vec::new()));
    assert!(outcome.is_err(), "no results should be found");
    match outcome {
        Err(RepositoryError::Intern(message)) => assert_eq!(message, "no record with id 12"),
        other => panic!("expected the repository's own error, got {:?}", other),
    }
}

#[test]
fn save_get_contact() {
    let contact = sample();
    let stored = Row { columns: insert_parameters(&contact) };
    let saved = save_outcome(Ok(1));
    assert!(saved.is_ok(), "save should succeed");
    assert_eq!(saved.unwrap(), 1);
    let found = get_outcome(13, Ok(vec![stored]));
    assert!(found.is_ok(), "contact should be found");
    let found = found.unwrap();
    assert_eq!(found.id, 13);
    assert_eq!(found.firstname, "first");
    assert_eq!(found.lastname, "second");
    assert_eq!(found.phone, "0123456789");
    assert_eq!(found.email, "e@mail.com");
    assert_eq!(found, contact);
}

#[test]
fn save_refused_is_driver_error() {
    let refusal = driver_error();
    let shown = refusal.to_string();
    match save_outcome(Err(refusal)) {
        Err(RepositoryError::Db(e)) => assert_eq!(e.to_string(), shown),
        other => panic!("expected the driver's error, got {:?}", other),
    }
}

#[test]
fn save_reports_the_count_of_the_store() {
    assert_eq!(save_outcome(Ok(1)).unwrap(), 1);
    assert_eq!(save_outcome(Ok(0)).unwrap(), 0);
    assert_eq!(save_outcome(Ok(u64::MAX)).unwrap(), u64::MAX);
}

#[test]
fn get_hands_on_the_driver_error() {
    let failure = driver_error();
    let shown = failure.to_string();
    match get_outcome(12, Err(failure)) {
        Err(RepositoryError::Db(e)) => assert_eq!(e.to_string(), shown),
        other => panic!("expected the driver's error, got {:?}", other),
    }
}

#[test]
fn get_absent_is_never_a_driver_error() {
    for id in [1, 2, 12, 999, i32::MAX] {
        match get_outcome(id, Ok(Vec::new())) {
            Err(RepositoryError::Intern(message)) => {
                assert_eq!(message, format!("no record with id {}", id))
            }
            other => panic!("expected the repository's own error, got {:?}", other),
        }
    }
}

#[test]
fn get_reads_the_first_row_only() {
    let first = Row { columns: vec![Value::Int(7), text("a"), text("b"), text("c"), text("d")] };
    let second = Row { columns: vec![Value::Int(8), text("w"), text("x"), text("y"), text("z")] };
    let found = get_outcome(7, Ok(vec![first, second])).unwrap();
    assert_eq!(
        found,
        Contact {
            id: 7,
            firstname: "a".to_string(),
            lastname: "b".to_string(),
            phone: "c".to_string(),
            email: "d".to_string(),
        }
    );
}

#[test]
fn row_is_read_by_position() {
    let row = Row {
        columns: vec![Value::Int(-4), text("one"), text("two"), text("three"), text("four")],
    };
    assert!(is_contact_row(&row));
    let contact = contact_from_row(&row);
    assert_eq!(contact.id, -4);
    assert_eq!(contact.firstname, "one");
    assert_eq!(contact.lastname, "two");
    assert_eq!(contact.phone, "three");
    assert_eq!(contact.email, "four");
}

#[test]
fn row_with_further_columns_is_read() {
    let row = Row {
        columns: vec![Value::Int(1), text(""), text("b"), text("c"), text("d"), Value::Null],
    };
    assert!(is_contact_row(&row));
    let contact = contact_from_row(&row);
    assert_eq!(contact.id, 1);
    assert_eq!(contact.firstname, "");
    assert_eq!(contact.email, "d");
}

#[test]
fn rows_that_hold_no_contact() {
    assert!(!is_contact_row(&Row { columns: Vec::new() }));
    assert!(!is_contact_row(&Row {
        columns: vec![Value::Int(1), text("a"), text("b"), text("c")]
    }));
    assert!(!is_contact_row(&Row {
        columns: vec![text("1"), text("a"), text("b"), text("c"), text("d")]
    }));
    assert!(!is_contact_row(&Row {
        columns: vec![Value::Int(1), text("a"), Value::Int(2), text("c"), text("d")]
    }));
    assert!(!is_contact_row(&Row {
        columns: vec![Value::Int(1), text("a"), text("b"), text("c"), Value::Null]
    }));
    assert!(!is_contact_row(&Row {
        columns: vec![Value::Null, text("a"), text("b"), text("c"), text("d")]
    }));
    assert!(!is_contact_row(&Row {
        columns: vec![Value::Int(1), Value::Null, text("b"), text("c"), text("d")]
    }));
    assert!(!is_contact_row(&Row {
        columns: vec![Value::Int(1), text("a"), text("b"), Value::Int(3), text("d")]
    }));
}

#[test]
fn round_trip_keeps_all_five_fields() {
    let contacts = [
        sample(),
        Contact {
            id: i32::MIN,
            firstname: String::new(),
            lastname: "Ünïcödé".to_string(),
            phone: "+1 (555) 000".to_string(),
            email: "a b\tc".to_string(),
        },
        Contact {
            id: 0,
            firstname: "same".to_string(),
            lastname: "same".to_string(),
            phone: "same".to_string(),
            email: "same".to_string(),
        },
    ];
    for contact in contacts {
        let row = Row { columns: insert_parameters(&contact) };
        assert!(is_contact_row(&row));
        let found = get_outcome(contact.id, Ok(vec![row])).unwrap();
        assert_eq!(found, contact);
    }
}

#[test]
fn statements_are_exact() {
    assert_eq!(
        select_statement(),
        "SELECT id, firstname, lastname, phone, email FROM contact WHERE id=$1"
    );
    assert_eq!(
        insert_statement(),
        "INSERT INTO contact (id, firstname, lastname, phone, email) VALUES ($1, $2, $3, $4, $5)"
    );
}

#[test]
fn select_takes_the_id_alone() {
    assert_eq!(select_parameters(12), vec![Value::Int(12)]);
    assert_eq!(select_parameters(-1), vec![Value::Int(-1)]);
}

#[test]
fn insert_parameters_follow_the_columns() {
    assert_eq!(
        insert_parameters(&sample()),
        vec![Value::Int(13), text("first"), text("second"), text("0123456789"), text("e@mail.com")]
    );
}

#[test]
fn message_names_the_id_in_decimal() {
    assert_eq!(not_found_message(12), "no record with id 12");
    assert_eq!(not_found_message(0), "no record with id 0");
    assert_eq!(not_found_message(7), "no record with id 7");
    assert_eq!(not_found_message(10), "no record with id 10");
    assert_eq!(not_found_message(1005), "no record with id 1005");
    assert_eq!(not_found_message(-1), "no record with id -1");
    assert_eq!(not_found_message(-90), "no record with id -90");
    assert_eq!(not_found_message(i32::MAX), "no record with id 2147483647");
    assert_eq!(not_found_message(i32::MIN), "no record with id -2147483648");
}

#[test]
fn message_agrees_with_std_on_many_ids() {
    let mut id: i32 = i32::MIN;
    loop {
        assert_eq!(not_found_message(id), format!("no record with id {}", id));
        match id.checked_add(16_777_259) {
            Some(next) => id = next,
            None => break,
        }
    }
}

#[test]
fn error_from_text_is_the_repositorys_own() {
    match RepositoryError::from("gone".to_string()) {
        RepositoryError::Intern(message) => assert_eq!(message, "gone"),
        other => panic!("expected the repository's own error, got {:?}", other),
    }
}

#[test]
fn error_from_driver_keeps_the_error() {
    let failure = driver_error();
    let shown = failure.to_string();
    match RepositoryError::from(failure) {
        RepositoryError::Db(e) => assert_eq!(e.to_string(), shown),
        other => panic!("expected the driver's error, got {:?}", other),
    }
}

#[test]
fn get_of_a_row_with_nulls_is_an_error_not_a_panic() {
    let row = Row {
        columns: vec![Value::Int(5), Value::Null, Value::Null, Value::Null, Value::Null],
    };
    match get_outcome(5, Ok(vec![row])) {
        Err(RepositoryError::Intern(message)) => {
            assert_eq!(message, "unreadable record with id 5")
        }
        other => panic!("expected the repository's own error, got {:?}", other),
    }
}

#[test]
fn get_of_rows_that_hold_no_contact_is_an_error() {
    let rows = [
        Row { columns: Vec::new() },
        Row { columns: vec![Value::Int(1), text("a"), text("b"), text("c")] },
        Row { columns: vec![text("1"), text("a"), text("b"), text("c"), text("d")] },
        Row { columns: vec![Value::Null, text("a"), text("b"), text("c"), text("d")] },
        Row { columns: vec![Value::Int(1), text("a"), text("b"), Value::Int(3), text("d")] },
        Row { columns: vec![Value::Int(1), text("a"), text("b"), text("c"), Value::Null] },
    ];
    for row in rows {
        assert!(!is_contact_row(&row));
        match get_outcome(-7, Ok(vec![row])) {
            Err(RepositoryError::Intern(message)) => {
                assert_eq!(message, "unreadable record with id -7")
            }
            other => panic!("expected the repository's own error, got {:?}", other),
        }
    }
}

#[test]
fn get_judges_by_the_first_row_alone() {
    let good = Row { columns: vec![Value::Int(7), text("a"), text("b"), text("c"), text("d")] };
    let bad = Row { columns: vec![Value::Null] };
    assert!(get_outcome(7, Ok(vec![good.clone(), bad.clone()])).is_ok());
    match get_outcome(7, Ok(vec![bad, good])) {
        Err(RepositoryError::Intern(message)) => {
            assert_eq!(message, "unreadable record with id 7")
        }
        other => panic!("expected the repository's own error, got {:?}", other),
    }
}

#[test]
fn unreadable_message_names_the_id_in_decimal() {
    assert_eq!(unreadable_row_message(0), "unreadable record with id 0");
    assert_eq!(unreadable_row_message(13), "unreadable record with id 13");
    assert_eq!(unreadable_row_message(-250), "unreadable record with id -250");
    assert_eq!(unreadable_row_message(i32::MIN), "unreadable record with id -2147483648");
    assert_eq!(unreadable_row_message(i32::MAX), "unreadable record with id 2147483647");
}
