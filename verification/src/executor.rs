use crate::error::DbError;
use crate::record::{same_payload, DbENRecord};
use vstd::prelude::*;

verus! {

/// The plain values of one fetched row of the notification table, in column
/// order. The caller that runs the statement decodes the wire row into these
/// values and hands them in; everything from here on is verified.
pub struct RowValues {
    pub id: i32,
    pub title: String,
    pub notification_type: i32,
    pub template: String,
    pub email: String,
    pub pwd: String,
    pub smtp_server: String,
    pub smtp_port: i32,
    pub description: String,
}

/// The record a fetched row denotes.
pub open spec fn record_of(row: RowValues) -> DbENRecord {
    DbENRecord {
        id: row.id,
        title: row.title,
        notification_type: row.notification_type,
        template: row.template,
        email: row.email,
        pwd: row.pwd,
        smtp_server: row.smtp_server,
        smtp_port: row.smtp_port,
        description: row.description,
    }
}

/// The row the store persists when `rec` is inserted and the store assigns
/// identifier `id`: every field of the record except its (ignored)
/// identifier, under the assigned one.
pub open spec fn stored_row(rec: DbENRecord, id: i32) -> RowValues {
    RowValues {
        id: id,
        title: rec.title,
        notification_type: rec.notification_type,
        template: rec.template,
        email: rec.email,
        pwd: rec.pwd,
        smtp_server: rec.smtp_server,
        smtp_port: rec.smtp_port,
        description: rec.description,
    }
}

/// The records a sequence of fetched rows denotes, in the same order.
pub open spec fn records_view(rows: Seq<RowValues>) -> Seq<DbENRecord> {
    rows.map_values(|v: RowValues| record_of(v))
}

/// Turn one fetched row into a record.
pub fn from_row(row: RowValues) -> (r: DbENRecord)
    ensures
        r == record_of(row),
{
    DbENRecord {
        id: row.id,
        title: row.title,
        notification_type: row.notification_type,
        template: row.template,
        email: row.email,
        pwd: row.pwd,
        smtp_server: row.smtp_server,
        smtp_port: row.smtp_port,
        description: row.description,
    }
}

/// The row to persist for an insert of `rec` once the store has assigned it
/// identifier `id`: the insert statement binds exactly these values.
pub fn insert_row(rec: DbENRecord, id: i32) -> (r: RowValues)
    ensures
        r == stored_row(rec, id),
{
    RowValues {
        id: id,
        title: rec.title,
        notification_type: rec.notification_type,
        template: rec.template,
        email: rec.email,
        pwd: rec.pwd,
        smtp_server: rec.smtp_server,
        smtp_port: rec.smtp_port,
        description: rec.description,
    }
}

/// Map every fetched row to its record, keeping the store-defined order.
pub fn records_of_rows(rows: Vec<RowValues>) -> (r: Vec<DbENRecord>)
    ensures
        r@ == records_view(rows@),
{
    let ghost all = rows@;
    let mut rows = rows;
    let mut out: Vec<DbENRecord> = Vec::new();
    while rows.len() > 0
        invariant
            out@.len() + rows@.len() == all.len(),
            out@ == records_view(all.take(out@.len() as int)),
            rows@ == all.skip(out@.len() as int),
        decreases rows@.len(),
    {
        let ghost i = out@.len() as int;
        let v = rows.remove(0);
        proof {
            assert(v == all[i]);
            assert(rows@ =~= all.skip(i + 1));
        }
        out.push(from_row(v));
        proof {
            assert(out@ =~= records_view(all.take(i + 1)));
        }
    }
    proof {
        assert(all.take(all.len() as int) =~= all);
    }
    out
}

/// The by-identifier lookup's result: the record of the first returned row,
/// and a not-found error — never a connectivity error, never a silently empty
/// success — when no row matched.
pub fn single_record(rows: Vec<RowValues>) -> (r: Result<DbENRecord, DbError>)
    ensures
        rows@.len() == 0 ==> r == Err::<DbENRecord, DbError>(DbError::NotFound),
        rows@.len() > 0 ==> r == Ok::<DbENRecord, DbError>(record_of(rows@[0])),
{
    let mut rows = rows;
    if rows.len() == 0 {
        Err(DbError::NotFound)
    } else {
        Ok(from_row(rows.remove(0)))
    }
}

/// The insert's result: the identifier the store returned in the first row of
/// the `returning id` clause, and a statement error when — against that
/// clause's promise — no row came back.
pub fn insert_id_result(ids: Vec<i32>) -> (r: Result<i32, DbError>)
    ensures
        ids@.len() == 0 ==> r == Err::<i32, DbError>(DbError::Query),
        ids@.len() > 0 ==> r == Ok::<i32, DbError>(ids@[0]),
{
    if ids.len() == 0 {
        Err(DbError::Query)
    } else {
        Ok(ids[0])
    }
}

/// The statement that inserts every field except the identifier and asks the
/// store to return the assigned identifier.
pub open spec fn insert_sql() -> Seq<char> {
    "insert into email_notifications (title, notification_type, template, email, pwd, smtp_server, smtp_port, description) values ($1, $2, $3, $4, $5, $6, $7, $8) returning id"@
}

/// The statement that selects every row, in store-defined order.
pub open spec fn select_all_sql() -> Seq<char> {
    "select id, title, notification_type, template, email, pwd, smtp_server, smtp_port, description from email_notifications"@
}

/// The filter clause of the by-identifier lookup, with its single placeholder.
pub open spec fn by_id_filter_sql() -> Seq<char> {
    " where id=$1"@
}

/// The by-identifier statement: the select-all statement extended by the
/// filter clause, still a single parameterized statement whose one
/// placeholder is bound to the identifier.
pub open spec fn select_by_id_sql() -> Seq<char> {
    select_all_sql() + by_id_filter_sql()
}

/// The insert statement, for the caller that prepares and runs it.
pub fn insert_statement() -> (r: &'static str)
    ensures
        r@ == insert_sql(),
{
    "insert into email_notifications (title, notification_type, template, email, pwd, smtp_server, smtp_port, description) values ($1, $2, $3, $4, $5, $6, $7, $8) returning id"
}

/// The select-all statement, for the caller that prepares and runs it.
pub fn select_all_statement() -> (r: &'static str)
    ensures
        r@ == select_all_sql(),
{
    "select id, title, notification_type, template, email, pwd, smtp_server, smtp_port, description from email_notifications"
}

/// The by-identifier statement, for the caller that prepares and runs it.
pub fn select_by_id_statement() -> (r: &'static str)
    ensures
        r@ == select_by_id_sql(),
{
    let s =
        "select id, title, notification_type, template, email, pwd, smtp_server, smtp_port, description from email_notifications where id=$1";
    proof {
        reveal_strlit(
            "select id, title, notification_type, template, email, pwd, smtp_server, smtp_port, description from email_notifications where id=$1",
        );
        reveal_strlit(
            "select id, title, notification_type, template, email, pwd, smtp_server, smtp_port, description from email_notifications",
        );
        reveal_strlit(" where id=$1");
        assert(s@ =~= select_by_id_sql());
    }
    s
}

/// Insert-then-lookup: when the store, as its boundary contract says, hands
/// the by-identifier lookup back the row it persisted for an insert, the
/// returned record equals the inserted one on every field except the
/// identifier, which equals the assigned one.
pub proof fn lemma_insert_then_lookup(rec: DbENRecord, id: i32)
    ensures
        record_of(stored_row(rec, id)).id == id,
        same_payload(record_of(stored_row(rec, id)), rec),
{
}

/// Idempotent reads: two select-all responses that hold the same set of rows
/// are mapped to the same set of records, whatever order the store returned
/// them in.
pub proof fn lemma_idempotent_reads(rows1: Seq<RowValues>, rows2: Seq<RowValues>)
    requires
        rows1.to_set() == rows2.to_set(),
    ensures
        records_view(rows1).to_set() == records_view(rows2).to_set(),
{
    rows1.lemma_to_set_map_commutes(|v: RowValues| record_of(v));
    rows2.lemma_to_set_map_commutes(|v: RowValues| record_of(v));
}

} // verus!
