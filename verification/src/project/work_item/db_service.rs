//! Saving a work item.
use vstd::prelude::*;
use crate::db::{FetchMode, SqlArg, SqlValue, Statement, WriteFlow, WriteStage, plain_statement};
use crate::project::db_service::uuid_of;
use crate::project::work_item::types::WorkItem;
use crate::text::{padded_decimal, padded_decimal_string};
use crate::types::ObjectTypes;
use crate::state::current_timestamp;
use crate::utils::{timestamp_fits, get_sequence_name, sequence_name, timestamp_in_range, timestamp_text, timestamp_to_date};
use crate::uuid_text::{parse_uuid_text, uuid_text, uuid_to_string};

verus! {

/// Makes the project's work-item sequence number the new item.
pub open spec fn use_item_sequence_sql(project_id: Seq<char>) -> Seq<char> {
    "alter table public.work_item alter column id set default NEXTVAL('"@
        + sequence_name(ObjectTypes::PROJECT, project_id) + "')"@
}

pub open spec fn insert_item_sql(create_time: Seq<char>) -> Seq<char> {
    "insert into public.work_item (name, type, status, principal, create_time, father_item, priority, project_id) values ($1,$2,$3,$4,'"@
        + create_time + "',$5,$6,$7)"@
}

pub open spec fn update_item_sql(name: Seq<char>, id: i32, project: Seq<u8>) -> Seq<char> {
    "update public.work_item set name = '"@ + name
        + "', type = $1, status = $2, principal = $3, father_item = $4, priority = $5 where id = '"@
        + padded_decimal(id as int, 0) + "' and project_id = '"@ + uuid_text(project) + "'"@
}

pub open spec fn principal_of(item: WorkItem) -> Option<Seq<u8>> {
    match item.principal {
        Some(p) => Some(parse_uuid_text(p@)->0),
        None => None,
    }
}

pub open spec fn insert_item_args(item: WorkItem) -> Seq<SqlArg> {
    seq![
        SqlArg::Text(item.name@),
        SqlArg::OptInt(item.item_type),
        SqlArg::OptInt(item.status),
        SqlArg::OptUuid(principal_of(item)),
        SqlArg::OptInt(item.father_item),
        SqlArg::OptInt(item.priority),
        SqlArg::Uuid(parse_uuid_text(item.project_id@)->0),
    ]
}

pub open spec fn update_item_args(item: WorkItem) -> Seq<SqlArg> {
    seq![
        SqlArg::OptInt(item.item_type),
        SqlArg::OptInt(item.status),
        SqlArg::OptUuid(principal_of(item)),
        SqlArg::OptInt(item.father_item),
        SqlArg::OptInt(item.priority),
    ]
}

/// A work item the flow accepts: its project, and its principal where given,
/// are UUIDs.
pub open spec fn work_item_ok(item: WorkItem) -> bool {
    &&& parse_uuid_text(item.project_id@) is Some
    &&& item.principal matches Some(p) ==> parse_uuid_text(p@) is Some
}

/// How the saving of a work item starts.
pub open spec fn work_item_started(item: WorkItem, now: u64, flow: WriteFlow, st: Statement) -> bool {
    &&& (item.id is None ==> {
            &&& st.is(use_item_sequence_sql(item.project_id@), Seq::empty(), FetchMode::Execute)
            &&& flow.stage == WriteStage::Preparing
            &&& flow.write.is(insert_item_sql(timestamp_text(now)), insert_item_args(item), FetchMode::Execute)
            &&& flow.message@ == "insert work item success"@
        })
    &&& (item.id matches Some(id) ==> {
            &&& st.is(update_item_sql(item.name@, id, parse_uuid_text(item.project_id@)->0),
                    update_item_args(item), FetchMode::Execute)
            &&& flow.stage == WriteStage::Writing
            &&& flow.write.same_as(st)
            &&& flow.message@ == "update work item success"@
        })
}

/// Starts saving a work item: a new one (no id) is numbered by its project's
/// sequence and inserted with the time `now`; an existing one is updated.
#[verifier::rlimit(40)]
pub fn work_item_start(item: WorkItem, now: u64) -> (res: (WriteFlow, Statement))
    requires
        work_item_ok(item),
        item.id is None ==> timestamp_in_range(now),
    ensures
        work_item_started(item, now, res.0, res.1),
{
    let pro_id = uuid_of(item.project_id.as_str());
    let principal: Option<[u8; 16]> = match &item.principal {
        Some(p) => Some(uuid_of(p.as_str())),
        None => None,
    };
    assert(match principal { Some(b) => Some(b@), None => None::<Seq<u8>> } == principal_of(item));
    match item.id {
        None => {
            let mut seq_sql = String::from_str("alter table public.work_item alter column id set default NEXTVAL('");
            seq_sql.append(get_sequence_name(ObjectTypes::PROJECT, item.project_id.clone()).as_str());
            seq_sql.append("')");
            let prepare = plain_statement(seq_sql, FetchMode::Execute);
            let create_time = timestamp_to_date(now);
            let mut sql = String::from_str("insert into public.work_item (name, type, status, principal, create_time, father_item, priority, project_id) values ($1,$2,$3,$4,'");
            sql.append(create_time.as_str());
            sql.append("',$5,$6,$7)");
            let mut args: Vec<SqlValue> = Vec::new();
            args.push(SqlValue::Text(item.name.clone()));
            args.push(SqlValue::OptInt(item.item_type));
            args.push(SqlValue::OptInt(item.status));
            args.push(SqlValue::OptUuid(principal));
            args.push(SqlValue::OptInt(item.father_item));
            args.push(SqlValue::OptInt(item.priority));
            args.push(SqlValue::Uuid(pro_id));
            let write = Statement { sql, args, mode: FetchMode::Execute };
            assert(write.args@.map_values(|v: SqlValue| v@) =~= insert_item_args(item));
            (WriteFlow { write, message: String::from_str("insert work item success"), stage: WriteStage::Preparing }, prepare)
        },
        Some(id) => {
            let mut sql = String::from_str("update public.work_item set name = '");
            sql.append(item.name.as_str());
            sql.append("', type = $1, status = $2, principal = $3, father_item = $4, priority = $5 where id = '");
            sql.append(padded_decimal_string(id as i64, 0).as_str());
            sql.append("' and project_id = '");
            sql.append(uuid_to_string(&pro_id).as_str());
            sql.append("'");
            let mut args: Vec<SqlValue> = Vec::new();
            args.push(SqlValue::OptInt(item.item_type));
            args.push(SqlValue::OptInt(item.status));
            args.push(SqlValue::OptUuid(principal));
            args.push(SqlValue::OptInt(item.father_item));
            args.push(SqlValue::OptInt(item.priority));
            let write = Statement { sql, args, mode: FetchMode::Execute };
            assert(write.args@.map_values(|v: SqlValue| v@) =~= update_item_args(item));
            let first = write.clone_statement();
            (WriteFlow { write, message: String::from_str("update work item success"), stage: WriteStage::Writing }, first)
        },
    }
}

/// Starts saving a work item at the current time; `None` where the item is
/// new and the clock reads a time that cannot be written as a date.
pub fn try_set_work_item(work_item: WorkItem) -> (res: Option<(WriteFlow, Statement)>)
    requires
        work_item_ok(work_item),
    ensures
        res is None ==> work_item.id is None,
        res matches Some((flow, st)) ==> exists|now: u64| work_item_started(work_item, now, flow, st),
{
    let now = current_timestamp();
    if work_item.id.is_some() || timestamp_fits(now) {
        let r = work_item_start(work_item, now);
        assert(work_item_started(work_item, now, r.0, r.1));
        Some(r)
    } else {
        None
    }
}

/// A new work item is inserted with each field in its own column: the insert
/// lists `name, type, status, principal, create_time, father_item, priority,
/// project_id` with `$1` to `$4`, the time, then `$5` to `$7`, and each
/// placeholder carries the value of its column: the name, the type, the
/// status, the principal, the parent item, the priority and the project.
pub proof fn lemma_new_work_item_binds_each_column(item: WorkItem, now: u64, flow: WriteFlow, st: Statement)
    requires
        item.id is None,
        work_item_started(item, now, flow, st),
    ensures
        flow.write.args@.len() == 7,
        flow.write.bound(1) == SqlArg::Text(item.name@),
        flow.write.bound(2) == SqlArg::OptInt(item.item_type),
        flow.write.bound(3) == SqlArg::OptInt(item.status),
        flow.write.bound(4) == SqlArg::OptUuid(principal_of(item)),
        flow.write.bound(5) == SqlArg::OptInt(item.father_item),
        flow.write.bound(6) == SqlArg::OptInt(item.priority),
        flow.write.bound(7) == SqlArg::Uuid(parse_uuid_text(item.project_id@)->0),
{
    let w = flow.write;
    let a = insert_item_args(item);
    assert(w.args@.map_values(|v: SqlValue| v@).len() == w.args@.len());
    assert forall|k: int| 1 <= k <= 7 implies w.bound(k) == #[trigger] a[k - 1] by {
        assert(w.args@.map_values(|v: SqlValue| v@)[k - 1] == w.args@[k - 1]@);
    }
    assert(w.bound(1) == a[0]);
    assert(w.bound(2) == a[1]);
    assert(w.bound(3) == a[2]);
    assert(w.bound(4) == a[3]);
    assert(w.bound(5) == a[4]);
    assert(w.bound(6) == a[5]);
    assert(w.bound(7) == a[6]);
}

/// Updating a work item writes each field into its own column: the update
/// assigns `type = $1, status = $2, principal = $3, father_item = $4,
/// priority = $5`, and each placeholder carries that column's value: the
/// item's type goes to `type`, its status to `status`, and so on.
pub proof fn lemma_work_item_update_binds_each_column(item: WorkItem, now: u64, flow: WriteFlow, st: Statement)
    requires
        item.id is Some,
        work_item_started(item, now, flow, st),
    ensures
        st.args@.len() == 5,
        st.bound(1) == SqlArg::OptInt(item.item_type),
        st.bound(2) == SqlArg::OptInt(item.status),
        st.bound(3) == SqlArg::OptUuid(principal_of(item)),
        st.bound(4) == SqlArg::OptInt(item.father_item),
        st.bound(5) == SqlArg::OptInt(item.priority),
{
    let a = update_item_args(item);
    assert(st.args@.map_values(|v: SqlValue| v@).len() == st.args@.len());
    assert forall|k: int| 1 <= k <= 5 implies st.bound(k) == #[trigger] a[k - 1] by {
        assert(st.args@.map_values(|v: SqlValue| v@)[k - 1] == st.args@[k - 1]@);
    }
    assert(st.bound(1) == a[0]);
    assert(st.bound(2) == a[1]);
    assert(st.bound(3) == a[2]);
    assert(st.bound(4) == a[3]);
    assert(st.bound(5) == a[4]);
}

} // verus!
