use todo_service::errors::Field;
use todo_service::errors::HttpError;
use todo_service::errors::TodoError;
use todo_service::errors::BaseRes;
use todo_service::models::Todo;
use todo_service::models::TodoReq;
use todo_service::store::Store;
use todo_service::DbInfo;
use todo_service::ServerInfo;

#[test]
fn client_errors_map_to_bad_request() {
    assert_eq!(TodoError::MissingField(Field::Title).status(), 400);
    assert_eq!(TodoError::MissingField(Field::Body).status(), 400);
    assert_eq!(TodoError::MissingField(Field::StartTime).status(), 400);
    assert_eq!(TodoError::InvalidTimestamp("detail".to_string()).status(), 400);
}

#[test]
fn missing_row_maps_to_not_found() {
    assert_eq!(TodoError::NotFound.status(), 404);
}

#[test]
fn store_failures_map_to_internal_error() {
    assert_eq!(TodoError::ConnectionFailure("pool".to_string()).status(), 500);
    assert_eq!(TodoError::TransactionFailure("abort".to_string()).status(), 500);
}

#[test]
fn messages_name_the_missing_field() {
    assert_eq!(TodoError::MissingField(Field::Title).message(), "title is required");
    assert_eq!(TodoError::MissingField(Field::Body).message(), "body is required");
    assert_eq!(
        TodoError::MissingField(Field::StartTime).message(),
        "start_time is required"
    );
}

#[test]
fn timestamp_message_carries_parser_detail() {
    let mut store = Store::new();
    let r = store.create(
        &TodoReq {
            title: Some("t".to_string()),
            body: Some("b".to_string()),
            start_time: Some("bogus".to_string()),
        },
        0,
    );
    match r {
        Err(e @ TodoError::InvalidTimestamp(_)) => {
            assert!(!e.message().is_empty());
            assert_eq!(e.status(), 400);
        }
        other => panic!("expected a timestamp error, got {:?}", other),
    }
}

#[test]
fn not_found_message_matches_store_wording() {
    assert_eq!(TodoError::NotFound.message(), "Record not found");
}

#[test]
fn envelope_carries_message_path_and_status() {
    let mut store = Store::new();
    let err = store.delete(999).unwrap_err();
    let env = err.to_envelope("/todo/999");
    assert_eq!(env.status, 404);
    assert_eq!(env.msg, "Record not found");
    assert_eq!(env.path, "/todo/999");
}

#[test]
fn http_error_new_leaves_path_empty() {
    let e = HttpError::new("Not Found", 404);
    assert_eq!(e.msg, "Not Found");
    assert_eq!(e.path, "");
    assert_eq!(e.status, 404);
}

#[test]
fn success_envelope_wraps_the_entity() {
    let t = Todo {
        id: 4,
        title: "t".to_string(),
        body: "b".to_string(),
        start_time: 1,
        created_at: 2,
    };
    let env = BaseRes::success(t);
    assert_eq!(env.msg, "Success");
    assert_eq!(env.data.id, 4);
}

#[test]
fn view_copies_id_and_text() {
    let t = Todo {
        id: 9,
        title: "title".to_string(),
        body: "body".to_string(),
        start_time: 1705284000,
        created_at: 1700000000,
    };
    let d = t.to_dto();
    assert_eq!(d.id, 9);
    assert_eq!(d.title, "title");
    assert_eq!(d.body, "body");
}

#[test]
fn config_defaults_apply_when_unset() {
    let db = DbInfo { url: None, max_size: None };
    assert_eq!(db.effective_url(), "");
    assert_eq!(db.effective_max_size(), 10);
    let srv = ServerInfo { host: None, port: None };
    assert_eq!(srv.effective_host(), "127.0.0.1");
    assert_eq!(srv.effective_port(), 8080);
}

#[test]
fn configured_values_win_over_defaults() {
    let db = DbInfo { url: Some("postgres://localhost/todos".to_string()), max_size: Some(3) };
    assert_eq!(db.effective_url(), "postgres://localhost/todos");
    assert_eq!(db.effective_max_size(), 3);
    let srv = ServerInfo { host: Some("0.0.0.0".to_string()), port: Some(9000) };
    assert_eq!(srv.effective_host(), "0.0.0.0");
    assert_eq!(srv.effective_port(), 9000);
}
