use gd_backend::db::DbError;
use gd_backend::types::{HttpStatus, ObjectTypes, RtStatus, SingleEditResult};
use gd_backend::utils::{get_sequence_name, match_insert_res, timestamp_fits, timestamp_to_date};

#[test]
fn date_of_epoch_is_shown_eight_hours_on() {
    assert_eq!(timestamp_to_date(0), "1970-01-01 08:00:00");
}

#[test]
fn date_of_new_year_2019() {
    assert_eq!(timestamp_to_date(1_546_300_800), "2019-01-01 08:00:00");
}

#[test]
fn date_keeps_the_day_when_the_hour_wraps() {
    // 18:30:05 UTC on 2023-07-15: the hour moves on eight hours, the date does not.
    assert_eq!(timestamp_to_date(1_689_445_805), "2023-07-15 02:30:05");
}

#[test]
fn date_of_last_representable_second() {
    assert_eq!(timestamp_to_date(253_402_300_799), "9999-12-31 07:59:59");
}

#[test]
fn date_of_wrapped_timestamps_before_the_epoch() {
    assert_eq!(timestamp_to_date(u64::MAX), "1969-12-31 07:59:59");
    assert_eq!(timestamp_to_date(18_446_743_696_004_434_816), "-9999-01-01 08:00:00");
    assert_eq!(timestamp_to_date(0u64.wrapping_sub(30_630_934_311)), "0999-05-06 15:08:09");
}

#[test]
fn date_range_check() {
    assert!(timestamp_fits(0));
    assert!(timestamp_fits(253_402_300_799));
    assert!(!timestamp_fits(253_402_300_800));
    assert!(timestamp_fits(18_446_743_696_004_434_816));
    assert!(!timestamp_fits(18_446_743_696_004_434_815));
}

#[test]
fn date_shape_law_on_a_sample() {
    let t = timestamp_to_date(1_700_000_000);
    let b = t.as_bytes();
    assert_eq!(b.len(), 19);
    assert_eq!((b[4], b[7], b[10], b[13], b[16]), (b'-', b'-', b' ', b':', b':'));
}

#[test]
fn sequence_names_by_kind() {
    let id = "550e8400-e29b-41d4-a716-446655440000".to_string();
    assert_eq!(get_sequence_name(ObjectTypes::PROJECT, id.clone()), "work_item_550e8400_e29b_41d4_a716_446655440000_id_seq");
    assert_eq!(get_sequence_name(ObjectTypes::TEST, id.clone()), "test_case_550e8400_e29b_41d4_a716_446655440000_id_seq");
    assert_eq!(get_sequence_name(ObjectTypes::WIKI, id.clone()), "wiki_doc_550e8400_e29b_41d4_a716_446655440000_id_seq");
    assert_eq!(get_sequence_name(ObjectTypes::TOPIC, id), "topic_550e8400_e29b_41d4_a716_446655440000_id_seq");
}

#[test]
fn sequence_name_never_holds_a_hyphen() {
    for id in ["", "-", "--a--", "plain", "a-b-c"] {
        let name = get_sequence_name(ObjectTypes::PROJECT, id.to_string());
        assert!(!name.contains('-'));
        assert_eq!(name.len(), "work_item_".len() + id.len() + "_id_seq".len());
    }
}

#[test]
fn insert_answer_passes_the_result_on() {
    let r = match_insert_res(Ok(SingleEditResult::Exist("x".to_string())), "created".to_string()).unwrap();
    assert_eq!(r.data, SingleEditResult::Exist("x".to_string()));
    assert_eq!(r.msg, "");
    assert!(r.success);
    assert_eq!(r.status, RtStatus::Success);
}

#[test]
fn insert_answer_counts_a_missing_row_as_success() {
    let r = match_insert_res(Err(DbError::RowNotFound), "create project success".to_string()).unwrap();
    assert_eq!(r.data, SingleEditResult::Success("create project success".to_string()));
    assert!(r.success);
    assert_eq!(r.status, RtStatus::Success);
}

#[test]
fn insert_answer_other_failure_is_internal_error() {
    let r = match_insert_res(Err(DbError::Other("boom".to_string())), "m".to_string());
    assert_eq!(r, Err(HttpStatus::InternalServerError));
    assert_eq!(HttpStatus::InternalServerError.code(), 500);
    assert_eq!(HttpStatus::BadRequest.code(), 400);
}

#[test]
fn leap_days_and_century_years() {
    assert_eq!(timestamp_to_date(951_782_400), "2000-02-29 08:00:00");
    assert_eq!(timestamp_to_date(4_107_542_400), "2100-03-01 08:00:00");
}
