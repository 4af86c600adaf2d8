//! What the SQL calls of the client make of a node's answer.
//!
//! A node answers an SQL message with an optional reply. The functions here
//! turn that answer, or the failure to get one, into the result that
//! `execute`, `fetch_all`, `fetch_one` and `fetch_optional` return.
use vstd::prelude::*;

verus! {

/// A node's reply to an SQL message, with rows of type `R`.
pub enum SqlReply<R> {
    /// The rows that the statement produced.
    Rows(Vec<R>),
    /// The summary of a statement that changed the database.
    Summary { last_insert_rowid: i64, changes: u64 },
    /// The per-statement results of a batch of statements.
    Batch,
    /// The database refused the statement; the text says why.
    Error(String),
}

/// Why an SQL call of the client failed.
pub enum QueryError<E> {
    /// The request itself failed (network, or the cluster refused it).
    Rpc(E),
    /// The database refused the statement; the text says why.
    Database(String),
    /// The query matched no row where the call needs one.
    NoRow,
    /// The node answered with a kind of reply that the call does not take.
    UnexpectedReply,
}

/// The rows that `execute` and `fetch_all` return for an answer: the rows of a
/// `Rows` reply, and none where the node sent no data or a summary.
pub open spec fn rows_outcome<R, E>(res: Result<Option<SqlReply<R>>, E>) -> Result<Seq<R>, QueryError<E>> {
    match res {
        Err(e) => Err(QueryError::Rpc(e)),
        Ok(None) => Ok(Seq::empty()),
        Ok(Some(reply)) => match reply {
            SqlReply::Rows(rows) => Ok(rows@),
            SqlReply::Summary { .. } => Ok(Seq::empty()),
            SqlReply::Batch => Err(QueryError::UnexpectedReply),
            SqlReply::Error(msg) => Err(QueryError::Database(msg)),
        },
    }
}

/// The row that `fetch_one` returns for an answer: the first row, or `NoRow`
/// where there is none.
pub open spec fn first_row_outcome<R, E>(res: Result<Option<SqlReply<R>>, E>) -> Result<R, QueryError<E>> {
    match res {
        Err(e) => Err(QueryError::Rpc(e)),
        Ok(None) => Err(QueryError::NoRow),
        Ok(Some(reply)) => match reply {
            SqlReply::Rows(rows) => if rows@.len() >= 1 {
                Ok(rows@[0])
            } else {
                Err(QueryError::NoRow)
            },
            SqlReply::Summary { .. } => Err(QueryError::NoRow),
            SqlReply::Batch => Err(QueryError::UnexpectedReply),
            SqlReply::Error(msg) => Err(QueryError::Database(msg)),
        },
    }
}

/// The row that `fetch_optional` returns for an answer: the first row if
/// there is one.
pub open spec fn optional_row_outcome<R, E>(res: Result<Option<SqlReply<R>>, E>) -> Result<Option<R>, QueryError<E>> {
    match res {
        Err(e) => Err(QueryError::Rpc(e)),
        Ok(None) => Ok(None),
        Ok(Some(reply)) => match reply {
            SqlReply::Rows(rows) => if rows@.len() >= 1 {
                Ok(Some(rows@[0]))
            } else {
                Ok(None)
            },
            SqlReply::Summary { .. } => Ok(None),
            SqlReply::Batch => Err(QueryError::UnexpectedReply),
            SqlReply::Error(msg) => Err(QueryError::Database(msg)),
        },
    }
}

/// The rows of a result, as a sequence.
pub open spec fn rows_view<R, E>(r: Result<Vec<R>, QueryError<E>>) -> Result<Seq<R>, QueryError<E>> {
    match r {
        Ok(rows) => Ok(rows@),
        Err(e) => Err(e),
    }
}

/// Turns the answer to an `Execute` or `Fetch` message into its rows.
pub fn rows_from_reply<R, E>(res: Result<Option<SqlReply<R>>, E>) -> (r: Result<Vec<R>, QueryError<E>>)
    ensures
        rows_view(r) == rows_outcome(res),
{
    match res {
        Err(e) => Err(QueryError::Rpc(e)),
        Ok(None) => Ok(Vec::new()),
        Ok(Some(reply)) => match reply {
            SqlReply::Rows(rows) => Ok(rows),
            SqlReply::Summary { .. } => Ok(Vec::new()),
            SqlReply::Batch => Err(QueryError::UnexpectedReply),
            SqlReply::Error(msg) => Err(QueryError::Database(msg)),
        },
    }
}

/// Turns the answer to a `FetchOne` message into its first row.
pub fn first_row_from_reply<R, E>(res: Result<Option<SqlReply<R>>, E>) -> (r: Result<R, QueryError<E>>)
    ensures
        r == first_row_outcome(res),
{
    match res {
        Err(e) => Err(QueryError::Rpc(e)),
        Ok(None) => Err(QueryError::NoRow),
        Ok(Some(reply)) => match reply {
            SqlReply::Rows(mut rows) => {
                if rows.len() >= 1 {
                    Ok(rows.remove(0))
                } else {
                    Err(QueryError::NoRow)
                }
            },
            SqlReply::Summary { .. } => Err(QueryError::NoRow),
            SqlReply::Batch => Err(QueryError::UnexpectedReply),
            SqlReply::Error(msg) => Err(QueryError::Database(msg)),
        },
    }
}

/// Turns the answer to a `FetchOptional` message into its first row, if any.
pub fn optional_row_from_reply<R, E>(res: Result<Option<SqlReply<R>>, E>) -> (r: Result<Option<R>, QueryError<E>>)
    ensures
        r == optional_row_outcome(res),
{
    match res {
        Err(e) => Err(QueryError::Rpc(e)),
        Ok(None) => Ok(None),
        Ok(Some(reply)) => match reply {
            SqlReply::Rows(mut rows) => {
                if rows.len() >= 1 {
                    Ok(Some(rows.remove(0)))
                } else {
                    Ok(None)
                }
            },
            SqlReply::Summary { .. } => Ok(None),
            SqlReply::Batch => Err(QueryError::UnexpectedReply),
            SqlReply::Error(msg) => Err(QueryError::Database(msg)),
        },
    }
}

/// `fetch_one` and `fetch_optional` agree on every answer: the one returns a
/// row exactly where the other returns that row, the one reports `NoRow`
/// exactly where the other returns nothing, and they fail alike otherwise.
pub proof fn one_and_optional_agree<R, E>(res: Result<Option<SqlReply<R>>, E>)
    ensures
        forall|x: R| first_row_outcome(res) == Ok::<R, QueryError<E>>(x)
            <==> optional_row_outcome(res) == Ok::<Option<R>, QueryError<E>>(Some(x)),
        first_row_outcome(res) == Err::<R, QueryError<E>>(QueryError::NoRow)
            <==> optional_row_outcome(res) == Ok::<Option<R>, QueryError<E>>(None),
        forall|e: QueryError<E>| e != QueryError::<E>::NoRow ==>
            (first_row_outcome(res) == Err::<R, QueryError<E>>(e)
                <==> optional_row_outcome(res) == Err::<Option<R>, QueryError<E>>(e)),
{
}

/// The row that `fetch_one` returns is the first of the rows that `fetch_all`
/// returns for the same answer, and `fetch_one` finds no row exactly where
/// `fetch_all` returns none.
pub proof fn one_is_first_of_all<R, E>(res: Result<Option<SqlReply<R>>, E>)
    ensures
        first_row_outcome(res) is Ok ==> rows_outcome(res) is Ok
            && rows_outcome(res)->Ok_0.len() >= 1
            && rows_outcome(res)->Ok_0[0] == first_row_outcome(res)->Ok_0,
        first_row_outcome(res) == Err::<R, QueryError<E>>(QueryError::NoRow)
            <==> rows_outcome(res) == Ok::<Seq<R>, QueryError<E>>(Seq::empty()),
{
    if let Ok(Some(SqlReply::Rows(rows))) = res {
        if rows@.len() == 0 {
            assert(rows@ =~= Seq::<R>::empty());
        }
    }
}

/// What each call makes of a `Rows` reply: `execute` and `fetch_all` return
/// exactly the reply's rows, all of them and in their order; `fetch_one`
/// returns the first row where there is one and reports `NoRow` otherwise;
/// `fetch_optional` returns the first row where there is one and nothing
/// otherwise.
pub proof fn rows_replies<R, E>(rows: Vec<R>)
    ensures
        rows_outcome(Ok::<Option<SqlReply<R>>, E>(Some(SqlReply::Rows(rows)))) == Ok::<Seq<R>, QueryError<E>>(rows@),
        rows@.len() >= 1 ==> first_row_outcome(Ok::<Option<SqlReply<R>>, E>(Some(SqlReply::Rows(rows))))
            == Ok::<R, QueryError<E>>(rows@[0]),
        rows@.len() == 0 ==> first_row_outcome(Ok::<Option<SqlReply<R>>, E>(Some(SqlReply::Rows(rows))))
            == Err::<R, QueryError<E>>(QueryError::NoRow),
        rows@.len() >= 1 ==> optional_row_outcome(Ok::<Option<SqlReply<R>>, E>(Some(SqlReply::Rows(rows))))
            == Ok::<Option<R>, QueryError<E>>(Some(rows@[0])),
        rows@.len() == 0 ==> optional_row_outcome(Ok::<Option<SqlReply<R>>, E>(Some(SqlReply::Rows(rows))))
            == Ok::<Option<R>, QueryError<E>>(None),
{
}

/// What each call makes of the other answers: a failed request is reported
/// as such with its error, a refusal of the database with its text, a batch
/// reply as unexpected; no data and a change summary carry no row.
pub proof fn other_replies<R, E>(e: E, msg: String, last_insert_rowid: i64, changes: u64)
    ensures
        rows_outcome(Err::<Option<SqlReply<R>>, E>(e)) == Err::<Seq<R>, QueryError<E>>(QueryError::Rpc(e)),
        first_row_outcome(Err::<Option<SqlReply<R>>, E>(e)) == Err::<R, QueryError<E>>(QueryError::Rpc(e)),
        optional_row_outcome(Err::<Option<SqlReply<R>>, E>(e)) == Err::<Option<R>, QueryError<E>>(QueryError::Rpc(e)),
        rows_outcome(Ok::<Option<SqlReply<R>>, E>(Some(SqlReply::Error(msg))))
            == Err::<Seq<R>, QueryError<E>>(QueryError::Database(msg)),
        first_row_outcome(Ok::<Option<SqlReply<R>>, E>(Some(SqlReply::Error(msg))))
            == Err::<R, QueryError<E>>(QueryError::Database(msg)),
        optional_row_outcome(Ok::<Option<SqlReply<R>>, E>(Some(SqlReply::Error(msg))))
            == Err::<Option<R>, QueryError<E>>(QueryError::Database(msg)),
        rows_outcome(Ok::<Option<SqlReply<R>>, E>(Some(SqlReply::Batch)))
            == Err::<Seq<R>, QueryError<E>>(QueryError::UnexpectedReply),
        first_row_outcome(Ok::<Option<SqlReply<R>>, E>(Some(SqlReply::Batch)))
            == Err::<R, QueryError<E>>(QueryError::UnexpectedReply),
        optional_row_outcome(Ok::<Option<SqlReply<R>>, E>(Some(SqlReply::Batch)))
            == Err::<Option<R>, QueryError<E>>(QueryError::UnexpectedReply),
        rows_outcome(Ok::<Option<SqlReply<R>>, E>(None)) == Ok::<Seq<R>, QueryError<E>>(Seq::empty()),
        first_row_outcome(Ok::<Option<SqlReply<R>>, E>(None)) == Err::<R, QueryError<E>>(QueryError::NoRow),
        optional_row_outcome(Ok::<Option<SqlReply<R>>, E>(None)) == Ok::<Option<R>, QueryError<E>>(None),
        rows_outcome(Ok::<Option<SqlReply<R>>, E>(Some(SqlReply::Summary { last_insert_rowid, changes })))
            == Ok::<Seq<R>, QueryError<E>>(Seq::empty()),
        first_row_outcome(Ok::<Option<SqlReply<R>>, E>(Some(SqlReply::Summary { last_insert_rowid, changes })))
            == Err::<R, QueryError<E>>(QueryError::NoRow),
        optional_row_outcome(Ok::<Option<SqlReply<R>>, E>(Some(SqlReply::Summary { last_insert_rowid, changes })))
            == Ok::<Option<R>, QueryError<E>>(None),
{
}

} // verus!
