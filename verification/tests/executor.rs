use notifications::error::DbError;
use notifications::executor::{
    insert_id_result, insert_row, insert_statement, records_of_rows, select_all_statement,
    select_by_id_statement, single_record, RowValues,
};
use notifications::record::DbENRecord;

fn sample_row(id: i32, title: &str, port: i32) -> RowValues {
    RowValues {
        id,
        title: String::from(title),
        notification_type: 1,
        template: String::from("tpl"),
        email: String::from("a@b.com"),
        pwd: String::from("pwd"),
        smtp_server: String::from("h"),
        smtp_port: port,
        description: String::from("d"),
    }
}

fn sample_record() -> DbENRecord {
    DbENRecord::create_new(
        String::from("t"),
        1,
        String::from("tpl"),
        String::from("a@b.com"),
        String::from("pwd"),
        String::from("h"),
        80,
        String::from("d"),
    )
}

#[test]
fn create_new_leaves_identifier_unset() {
    let rec = sample_record();
    assert_eq!(rec.id, 0);
    assert_eq!(rec.title, "t");
    assert_eq!(rec.notification_type, 1);
    assert_eq!(rec.template, "tpl");
    assert_eq!(rec.email, "a@b.com");
    assert_eq!(rec.pwd, "pwd");
    assert_eq!(rec.smtp_server, "h");
    assert_eq!(rec.smtp_port, 80);
    assert_eq!(rec.description, "d");
}

#[test]
fn insert_then_lookup_returns_equal_record() {
    let rec = sample_record();
    let assigned: i32 = 7;
    assert!(assigned > 0);
    let row = insert_row(sample_record(), assigned);
    let got = single_record(vec![row]).expect("one row was handed back");
    assert_eq!(got.id, assigned);
    assert!(got.payload_eq(&rec));
}

#[test]
fn lookup_without_matching_row_is_not_found() {
    let r = single_record(Vec::new());
    assert_eq!(r, Err(DbError::NotFound));
}

#[test]
fn insert_without_returned_id_is_query_error() {
    assert_eq!(insert_id_result(Vec::new()), Err(DbError::Query));
    assert_eq!(insert_id_result(vec![42]), Ok(42));
}

#[test]
fn statements_are_single_parameterized_queries() {
    assert_eq!(
        insert_statement(),
        "insert into email_notifications (title, notification_type, template, email, pwd, \
         smtp_server, smtp_port, description) values ($1, $2, $3, $4, $5, $6, $7, $8) \
         returning id"
    );
    assert_eq!(
        select_all_statement(),
        "select id, title, notification_type, template, email, pwd, smtp_server, smtp_port, \
         description from email_notifications"
    );
    assert_eq!(
        select_by_id_statement(),
        format!("{} where id=$1", select_all_statement())
    );
}

#[test]
fn rows_map_to_records_in_order() {
    let rows = vec![sample_row(1, "first", 25), sample_row(2, "second", 587)];
    let recs = records_of_rows(rows);
    assert_eq!(recs.len(), 2);
    assert_eq!(recs[0].id, 1);
    assert_eq!(recs[0].title, "first");
    assert_eq!(recs[0].smtp_port, 25);
    assert_eq!(recs[1].id, 2);
    assert_eq!(recs[1].title, "second");
    assert_eq!(recs[1].smtp_port, 587);
}

#[test]
fn reads_of_the_same_rows_give_the_same_record_set() {
    let first = records_of_rows(vec![sample_row(1, "first", 25), sample_row(2, "second", 587)]);
    let second = records_of_rows(vec![sample_row(2, "second", 587), sample_row(1, "first", 25)]);
    assert_eq!(first.len(), second.len());
    for rec in &first {
        let twin = second
            .iter()
            .find(|c| c.id == rec.id)
            .expect("every record of one read is in the other");
        assert!(rec.payload_eq(twin));
    }
}
