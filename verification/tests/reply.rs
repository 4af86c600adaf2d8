use rxqlite_client::reply::{first_row_from_reply, optional_row_from_reply, rows_from_reply};
use rxqlite_client::{QueryError, SqlReply};

type Answer = Result<Option<SqlReply<u32>>, String>;

fn rows(v: Vec<u32>) -> Answer {
    Ok(Some(SqlReply::Rows(v)))
}

#[test]
fn all_rows_of_a_rows_reply() {
    assert!(matches!(rows_from_reply(rows(vec![1, 2, 3])), Ok(v) if v == vec![1, 2, 3]));
}

#[test]
fn no_data_is_no_rows() {
    let a: Answer = Ok(None);
    assert!(matches!(rows_from_reply(a), Ok(v) if v.is_empty()));
    let s: Answer = Ok(Some(SqlReply::Summary { last_insert_rowid: 4, changes: 1 }));
    assert!(matches!(rows_from_reply(s), Ok(v) if v.is_empty()));
}

#[test]
fn database_error_is_reported() {
    let a: Answer = Ok(Some(SqlReply::Error("near \"MENSA\": syntax error".to_string())));
    assert!(matches!(rows_from_reply(a), Err(QueryError::Database(m)) if m == "near \"MENSA\": syntax error"));
    let a: Answer = Ok(Some(SqlReply::Error("e".to_string())));
    assert!(matches!(first_row_from_reply(a), Err(QueryError::Database(m)) if m == "e"));
    let a: Answer = Ok(Some(SqlReply::Error("e".to_string())));
    assert!(matches!(optional_row_from_reply(a), Err(QueryError::Database(m)) if m == "e"));
}

#[test]
fn request_failure_is_reported() {
    let a: Answer = Err("unreachable".to_string());
    assert!(matches!(rows_from_reply(a), Err(QueryError::Rpc(m)) if m == "unreachable"));
    let a: Answer = Err("unreachable".to_string());
    assert!(matches!(first_row_from_reply(a), Err(QueryError::Rpc(m)) if m == "unreachable"));
    let a: Answer = Err("unreachable".to_string());
    assert!(matches!(optional_row_from_reply(a), Err(QueryError::Rpc(m)) if m == "unreachable"));
}

#[test]
fn batch_reply_is_unexpected() {
    let a: Answer = Ok(Some(SqlReply::Batch));
    assert!(matches!(rows_from_reply(a), Err(QueryError::UnexpectedReply)));
    let a: Answer = Ok(Some(SqlReply::Batch));
    assert!(matches!(first_row_from_reply(a), Err(QueryError::UnexpectedReply)));
    let a: Answer = Ok(Some(SqlReply::Batch));
    assert!(matches!(optional_row_from_reply(a), Err(QueryError::UnexpectedReply)));
}

#[test]
fn fetch_one_takes_the_first_row() {
    assert!(matches!(first_row_from_reply(rows(vec![9, 8])), Ok(9)));
    assert!(matches!(first_row_from_reply(rows(vec![])), Err(QueryError::NoRow)));
    let a: Answer = Ok(None);
    assert!(matches!(first_row_from_reply(a), Err(QueryError::NoRow)));
}

#[test]
fn fetch_optional_takes_the_first_row_if_any() {
    assert!(matches!(optional_row_from_reply(rows(vec![9, 8])), Ok(Some(9))));
    assert!(matches!(optional_row_from_reply(rows(vec![])), Ok(None)));
    let a: Answer = Ok(None);
    assert!(matches!(optional_row_from_reply(a), Ok(None)));
}

#[test]
fn fetch_one_and_optional_agree() {
    for v in [vec![], vec![5], vec![5, 6]] {
        match (first_row_from_reply(rows(v.clone())), optional_row_from_reply(rows(v.clone()))) {
            (Ok(a), Ok(Some(b))) => assert_eq!(a, b),
            (Err(QueryError::NoRow), Ok(None)) => {}
            _ => panic!("fetch_one and fetch_optional disagree"),
        }
        if let Ok(first) = first_row_from_reply(rows(v.clone())) {
            assert!(matches!(rows_from_reply(rows(v)), Ok(all) if all[0] == first));
        }
    }
}
