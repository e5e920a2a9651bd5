//! Dates, sequence names, and the answer to an insert or update.
use vstd::prelude::*;
use crate::text::{padded_decimal, padded_decimal_string, replace_char, replaced};
use crate::db::{DbError, DbQueryResult};
use crate::types::{HttpStatus, ObjectTypes, RtData, SingleEditResult};

verus! {

/// The first Unix timestamp that `time` can represent: -9999-01-01 00:00:00 UTC.
pub const MIN_UNIX_TIMESTAMP: i64 = -377705116800;

/// The last Unix timestamp that `time` can represent: 9999-12-31 23:59:59 UTC.
pub const MAX_UNIX_TIMESTAMP: i64 = 253402300799;

/// The date (year, month, day) in the proleptic Gregorian calendar of the day
/// that lies `days` days after 1970-01-01 (before it, where negative).
#[verifier::opaque]
pub open spec fn civil_date(days: int) -> (int, int, int) {
    let z = days + 719468;
    let era = z / 146097;
    let doe = z - era * 146097;
    let yoe = (doe - doe / 1460 + doe / 36524 - doe / 146096) / 365;
    let doy = doe - (365 * yoe + yoe / 4 - yoe / 100);
    let mp = (5 * doy + 2) / 153;
    let day = doy - (153 * mp + 2) / 5 + 1;
    let month = if mp < 10 { mp + 3 } else { mp - 9 };
    let year = yoe + era * 400 + if month <= 2 { 1int } else { 0int };
    (year, month, day)
}

/// The calendar date (year, month, day) in UTC of a Unix timestamp: the date
/// of the day the timestamp falls in, counting whole days of 86400 seconds
/// from the epoch downwards for times before it.
pub open spec fn utc_calendar_date(timestamp: i64) -> (int, int, int) {
    civil_date(timestamp as int / 86400)
}

/// Calls `OffsetDateTime::from_unix_timestamp` (through rocket's `time`) and
/// reads year, month, day, hour, minute and second off the result.
/// Trusted: it succeeds exactly for timestamps from -9999-01-01 to 9999-12-31
/// in UTC; the date is the proleptic Gregorian date of the day the timestamp
/// falls in (the crate takes the floor of the timestamp over a day as a day
/// count from the epoch and converts it to its Gregorian date); the time of
/// day is the remainder of the timestamp modulo a day, split as the crate's source does;
/// timestamps from the Unix epoch on fall in 1970 or later.
#[verifier::external_body]
fn utc_date_time(timestamp: i64) -> (r: Option<(i32, u8, u8, u8, u8, u8)>)
    ensures
        r is Some <==> MIN_UNIX_TIMESTAMP <= timestamp <= MAX_UNIX_TIMESTAMP,
        r matches Some((y, mo, d, h, mi, s)) ==> {
            &&& (y as int, mo as int, d as int) == utc_calendar_date(timestamp)
            &&& -9999 <= y <= 9999
            &&& timestamp >= 0 ==> y >= 1970
            &&& 1 <= mo <= 12
            &&& 1 <= d <= 31
            &&& h as int == (timestamp as int % 86400) / 3600
            &&& mi as int == ((timestamp as int % 86400) % 3600) / 60
            &&& s as int == timestamp as int % 60
        },
{
    match rocket::time::OffsetDateTime::from_unix_timestamp(timestamp) {
        Ok(date) => Some((date.year(), date.month() as u8, date.day(), date.hour(), date.minute(), date.second())),
        Err(_) => None,
    }
}

/// `timestamp as i64`: the same bits read as a signed number.
pub open spec fn unix_seconds(timestamp: u64) -> int {
    if timestamp <= i64::MAX { timestamp as int } else { timestamp - 0x1_0000_0000_0000_0000 }
}

/// `YYYY-MM-DD HH:MM:SS` from the parts, with the hour moved eight hours on
/// (the date is left as it is).
pub open spec fn date_text(y: int, mo: int, d: int, h: int, mi: int, s: int) -> Seq<char> {
    padded_decimal(y, 4) + seq!['-'] + padded_decimal(mo, 2) + seq!['-'] + padded_decimal(d, 2)
        + seq![' '] + padded_decimal((h + 8) % 24, 2) + seq![':'] + padded_decimal(mi, 2)
        + seq![':'] + padded_decimal(s, 2)
}

/// The text that `timestamp_to_date` writes for `timestamp`.
pub open spec fn timestamp_text(timestamp: u64) -> Seq<char> {
    let ts = unix_seconds(timestamp);
    let date = utc_calendar_date(ts as i64);
    date_text(date.0, date.1, date.2, (ts % 86400) / 3600, ((ts % 86400) % 3600) / 60, ts % 60)
}

pub open spec fn timestamp_in_range(timestamp: u64) -> bool {
    MIN_UNIX_TIMESTAMP <= unix_seconds(timestamp) <= MAX_UNIX_TIMESTAMP
}

/// Whether `timestamp_to_date` can write `timestamp`.
pub fn timestamp_fits(timestamp: u64) -> (r: bool)
    ensures
        r == timestamp_in_range(timestamp),
{
    timestamp <= 253402300799 || timestamp >= 18446743696004434816
}

/// The text is `YYYY-MM-DD HH:MM:SS`: nineteen characters, digits with `-`,
/// ` ` and `:` at their places.
#[verifier::opaque]
pub open spec fn is_date_time_shape(t: Seq<char>) -> bool {
    &&& t.len() == 19
    &&& t[4] == '-' && t[7] == '-' && t[10] == ' ' && t[13] == ':' && t[16] == ':'
    &&& forall|i: int| 0 <= i < 19 && i != 4 && i != 7 && i != 10 && i != 13 && i != 16
            ==> '0' <= #[trigger] t[i] <= '9'
}

/// Writes a Unix timestamp as `YYYY-MM-DD HH:MM:SS`, the hour eight hours
/// ahead of UTC; from the epoch to the end of year 9999 the text always has
/// that shape.
pub fn timestamp_to_date(timestamp: u64) -> (res: String)
    requires
        timestamp_in_range(timestamp),
    ensures
        res@ == timestamp_text(timestamp),
        timestamp <= MAX_UNIX_TIMESTAMP ==> is_date_time_shape(res@),
{
    let ts: i64 = if timestamp <= 9223372036854775807 {
        timestamp as i64
    } else {
        let high: i64 = (timestamp - 9223372036854775808) as i64;
        high - 9223372036854775807 - 1
    };
    assert(ts as int == unix_seconds(timestamp));
    let date = utc_date_time(ts);
    match date {
        Some((y, mo, d, h, mi, s)) => {
            let mut res = padded_decimal_string(y as i64, 4);
            res.push('-');
            res.append(padded_decimal_string(mo as i64, 2).as_str());
            res.push('-');
            res.append(padded_decimal_string(d as i64, 2).as_str());
            res.push(' ');
            res.append(padded_decimal_string(((h + 8) % 24) as i64, 2).as_str());
            res.push(':');
            res.append(padded_decimal_string(mi as i64, 2).as_str());
            res.push(':');
            res.append(padded_decimal_string(s as i64, 2).as_str());
            proof {
                if timestamp <= MAX_UNIX_TIMESTAMP {
                    lemma_date_text_shape(timestamp);
                    reveal(is_date_time_shape);
                }
            }
            res
        },
        None => {
            proof {
                assert(false);
            }
            String::new()
        },
    }
}

/// The table prefix of each kind's sequence.
pub open spec fn sequence_prefix(object_types: ObjectTypes) -> Seq<char> {
    match object_types {
        ObjectTypes::PROJECT => "work_item_"@,
        ObjectTypes::TEST => "test_case_"@,
        ObjectTypes::WIKI => "wiki_doc_"@,
        ObjectTypes::TOPIC => "topic_"@,
    }
}

/// The name of the sequence that numbers the items of object `id`.
pub open spec fn sequence_name(object_types: ObjectTypes, id: Seq<char>) -> Seq<char> {
    sequence_prefix(object_types) + replace_char(id, '-', '_') + "_id_seq"@
}

/// The sequence name for the items of object `id` of kind `object_types`:
/// the kind's prefix, `id` with `-` turned into `_`, then `_id_seq`.
pub fn get_sequence_name(object_types: ObjectTypes, id: String) -> (res: String)
    ensures
        res@ == sequence_name(object_types, id@),
{
    let prefix = match object_types {
        ObjectTypes::PROJECT => "work_item_",
        ObjectTypes::TEST => "test_case_",
        ObjectTypes::WIKI => "wiki_doc_",
        ObjectTypes::TOPIC => "topic_",
    };
    let mut seq = String::from_str(prefix);
    seq.append(replaced(id.as_str(), '-', '_').as_str());
    seq.append("_id_seq");
    seq
}

/// A sequence name never holds a `-`, whatever the id: the name can stand
/// unquoted in SQL.
pub proof fn lemma_sequence_name_has_no_hyphen(object_types: ObjectTypes, id: Seq<char>)
    ensures
        !sequence_name(object_types, id).contains('-'),
        sequence_name(object_types, id).len() == sequence_prefix(object_types).len() + id.len() + 7,
{
    reveal_strlit("work_item_");
    reveal_strlit("test_case_");
    reveal_strlit("wiki_doc_");
    reveal_strlit("topic_");
    reveal_strlit("_id_seq");
    let p = sequence_prefix(object_types);
    let r = replace_char(id, '-', '_');
    let n = sequence_name(object_types, id);
    if n.contains('-') {
        let i = choose|i: int| 0 <= i < n.len() && n[i] == '-';
        if i < p.len() {
            assert(n[i] == p[i]);
        } else if i < p.len() + r.len() {
            assert(n[i] == r[i - p.len()]);
        } else {
            assert(n[i] == "_id_seq"@[i - p.len() - r.len()]);
        }
    }
}

/// The answer to an insert or update: what came back, as a success; a missing
/// row counts as success too and answers `Success(msg)`; any other failure is
/// an internal server error.
pub open spec fn insert_answer_ok(res: DbQueryResult<SingleEditResult>, msg: Seq<char>, out: Result<RtData<SingleEditResult>, HttpStatus>) -> bool {
    match res {
        Ok(r) => out matches Ok(d) && d.is_success(r, Seq::empty()),
        Err(DbError::RowNotFound) => out matches Ok(d) && d.data matches SingleEditResult::Success(m)
            && m@ == msg && d.msg@ == Seq::<char>::empty() && d.success && d.status == crate::types::RtStatus::Success,
        Err(DbError::Other(_)) => out == Err::<RtData<SingleEditResult>, HttpStatus>(HttpStatus::InternalServerError),
    }
}

/// Turns the result of an insert or update into the handler's answer.
pub fn match_insert_res(res: DbQueryResult<SingleEditResult>, msg: String) -> (out: Result<RtData<SingleEditResult>, HttpStatus>)
    ensures
        insert_answer_ok(res, msg@, out),
        out matches Ok(d) ==> d.is_consistent(),
{
    match res {
        Ok(adjust_res) => Ok(RtData::success(adjust_res, String::new())),
        Err(err) => match err {
            DbError::RowNotFound => Ok(RtData::success(SingleEditResult::Success(msg), String::new())),
            DbError::Other(_) => Err(HttpStatus::InternalServerError),
        },
    }
}

proof fn lemma_padded_len(v: int, width: nat)
    requires
        0 <= v,
        v < 10 ==> width >= 1,
        10 <= v < 100 ==> width >= 2,
        100 <= v < 1000 ==> width >= 3,
        1000 <= v < 10000 ==> width >= 4,
        v < 10000,
        width <= 4,
    ensures
        padded_decimal(v, width).len() == width,
        forall|i: int| 0 <= i < width ==> '0' <= #[trigger] padded_decimal(v, width)[i] <= '9',
{
    crate::text::lemma_decimal_len(v as nat);
    crate::text::lemma_decimal_digits(v as nat);
}

/// The shape of `YYYY-MM-DD HH:MM:SS` for a date from 1970 to 9999.
proof fn lemma_date_text_shape(timestamp: u64)
    requires
        timestamp <= MAX_UNIX_TIMESTAMP,
        (utc_calendar_date(timestamp as i64).0 >= 1970 && utc_calendar_date(timestamp as i64).0 <= 9999),
        1 <= utc_calendar_date(timestamp as i64).1 <= 12,
        1 <= utc_calendar_date(timestamp as i64).2 <= 31,
    ensures
        timestamp_text(timestamp).len() == 19,
        timestamp_text(timestamp)[4] == '-' && timestamp_text(timestamp)[7] == '-',
        timestamp_text(timestamp)[10] == ' ',
        timestamp_text(timestamp)[13] == ':' && timestamp_text(timestamp)[16] == ':',
        forall|i: int| 0 <= i < 19 && i != 4 && i != 7 && i != 10 && i != 13 && i != 16
            ==> '0' <= #[trigger] timestamp_text(timestamp)[i] <= '9',
{
    let ts = unix_seconds(timestamp);
    let date = utc_calendar_date(ts as i64);
    assert(ts == timestamp as int);
    let h = (ts % 86400) / 3600;
    let mi = ((ts % 86400) % 3600) / 60;
    let s = ts % 60;
    lemma_padded_len(date.0, 4);
    lemma_padded_len(date.1, 2);
    lemma_padded_len(date.2, 2);
    lemma_padded_len((h + 8) % 24, 2);
    lemma_padded_len(mi, 2);
    lemma_padded_len(s, 2);
    let t = timestamp_text(timestamp);
    assert(t == date_text(date.0, date.1, date.2, h, mi, s));
}

} // verus!
