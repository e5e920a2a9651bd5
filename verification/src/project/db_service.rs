//! The project statements, and the flow that saves a project or a wiki space.
use vstd::prelude::*;
use crate::db::{DbError, DbQueryResult, FetchMode, SqlArg, SqlValue, Statement, Step, opt_text, plain_statement};
use crate::types::{AddPartners, DeleteResult, ObjectTypes, ProjectSetter, SingleEditResult, WorkMate, WorkMateCollector};
use crate::state::current_timestamp;
use crate::utils::{get_sequence_name, sequence_name, timestamp_fits, timestamp_in_range, timestamp_text, timestamp_to_date};
use crate::uuid_text::{canonical_uuid, is_v4_uuid, lemma_uuid_text_parses_back, new_random_uuid, parse_uuid, parse_uuid_text, uuid_text, uuid_to_string};

verus! {

/// The two kinds of object saved by the same flow: projects and wiki spaces.
#[derive(Debug, Clone, Copy, PartialEq, Eq, Structural)]
pub enum SpaceKind {
    Project,
    Wiki,
}

pub open spec fn space_object_type(kind: SpaceKind) -> ObjectTypes {
    match kind {
        SpaceKind::Project => ObjectTypes::PROJECT,
        SpaceKind::Wiki => ObjectTypes::WIKI,
    }
}

/// How `{}` writes a `bool`.
pub open spec fn bool_text(b: bool) -> Seq<char> {
    if b { "true"@ } else { "false"@ }
}

fn bool_string(b: bool) -> (s: String)
    ensures
        s@ == bool_text(b),
{
    if b { String::from_str("true") } else { String::from_str("false") }
}

/// `create SEQUENCE <name>`: the numbering of a new object's items.
pub open spec fn create_sequence_sql(kind: SpaceKind, id: Seq<char>) -> Seq<char> {
    "create SEQUENCE "@ + sequence_name(space_object_type(kind), id)
}

/// The insert-or-update of a project or a wiki space, every value but the
/// description written into the text.
pub open spec fn save_space_sql(kind: SpaceKind, id: Seq<char>, name: Seq<char>, logo: Seq<char>,
    org: Seq<char>, update_time: Seq<char>, private: bool) -> Seq<char> {
    match kind {
        SpaceKind::Project => "insert into public.project values('"@ + id + "','"@ + name + "','"@ + logo + "','"@ + org
            + "',$1,'"@ + update_time + "')on conflict(id) do update set name = '"@ + name + "',logo = '"@ + logo
            + "',organization = '"@ + org + "',description = $2, last_update = '"@ + update_time + "'"@,
        SpaceKind::Wiki => "insert into public.wiki values('"@ + id + "','"@ + name + "','"@ + logo + "','"@ + org
            + "',$1,'"@ + update_time + "','"@ + bool_text(private) + "')on conflict(id) do update set name = '"@ + name
            + "',logo = '"@ + logo + "',organization = '"@ + org + "',description = $2, last_update = '"@ + update_time
            + "',private = '"@ + bool_text(private) + "'"@,
    }
}

/// The membership of the creating user in a new project or space, not starred.
pub open spec fn join_space_sql(kind: SpaceKind, user_id: Seq<char>, id: Seq<char>) -> Seq<char> {
    match kind {
        SpaceKind::Project => "insert into public.participation (user_id, project_id,  star) values('"@ + user_id
            + "','"@ + id + "','0')"@,
        SpaceKind::Wiki => "insert into public.wiki_participation (user_id, wiki_id,  star) values('"@ + user_id
            + "','"@ + id + "','0')"@,
    }
}

pub open spec fn adjusted_message(kind: SpaceKind) -> Seq<char> {
    match kind {
        SpaceKind::Project => "project adjust successfully"@,
        SpaceKind::Wiki => "space adjust successfully"@,
    }
}

pub open spec fn joined_message(kind: SpaceKind) -> Seq<char> {
    match kind {
        SpaceKind::Project => "participate project successfully"@,
        SpaceKind::Wiki => "participate wiki successfully"@,
    }
}

/// Where the saving of a project or space stands.
#[derive(Debug, Clone, Copy, PartialEq, Eq, Structural)]
pub enum SpaceStage {
    /// Creating the numbering sequence of a new object.
    CreatingSequence,
    /// Inserting or updating the object.
    Saving,
    /// Adding the creating user as a member after the object was saved.
    Joining,
    /// Adding the creating user as a member after the save reported no row.
    JoiningAfterMissingRow,
}

/// The saving of a project or wiki space in progress.
#[derive(Debug, Clone, PartialEq, Eq)]
pub struct SpaceFlow {
    pub kind: SpaceKind,
    /// The form, its id filled in for a new object.
    pub setter: ProjectSetter,
    pub is_new: bool,
    /// The organisation's UUID in its canonical text.
    pub organization: String,
    /// The last-update time written into the database.
    pub update_time: String,
    pub stage: SpaceStage,
}

/// A form the flow accepts: it names its organisation by a UUID, and an
/// update carries its last-update time.
pub open spec fn space_request_ok(setter: ProjectSetter) -> bool {
    &&& parse_uuid_text(setter.organization@) is Some
    &&& setter.id is Some ==> setter.last_update is Some
}

/// How far the saving of a project or space has come.
pub open spec fn space_stage_rank(stage: SpaceStage) -> int {
    match stage {
        SpaceStage::CreatingSequence => 0,
        SpaceStage::Saving => 1,
        SpaceStage::Joining => 2,
        SpaceStage::JoiningAfterMissingRow => 2,
    }
}

pub open spec fn space_flow_ok(flow: SpaceFlow) -> bool {
    &&& flow.setter.id is Some
    &&& flow.stage == SpaceStage::CreatingSequence ==> flow.is_new
}

/// The insert-or-update statement of a flow.
pub open spec fn is_save_statement(flow: SpaceFlow, st: Statement) -> bool {
    st.is(save_space_sql(flow.kind, flow.setter.id->0@, flow.setter.name@, flow.setter.logo@, flow.organization@,
        flow.update_time@, flow.setter.private.unwrap_or(false)),
        seq![SqlArg::OptText(opt_text(flow.setter.description)), SqlArg::OptText(opt_text(flow.setter.description))],
        FetchMode::FetchOne)
}

/// The membership statement of a flow.
pub open spec fn is_join_statement(flow: SpaceFlow, st: Statement) -> bool {
    st.is(join_space_sql(flow.kind, flow.setter.user_id@, flow.setter.id->0@), Seq::empty(), FetchMode::FetchOne)
}

pub open spec fn same_space_flow_but_stage(a: SpaceFlow, b: SpaceFlow, stage: SpaceStage) -> bool {
    &&& b.kind == a.kind
    &&& b.setter == a.setter
    &&& b.is_new == a.is_new
    &&& b.organization@ == a.organization@
    &&& b.update_time@ == a.update_time@
    &&& b.stage == stage
}

pub open spec fn is_edit(r: DbQueryResult<SingleEditResult>, exist: bool, msg: Seq<char>) -> bool {
    if exist {
        r matches Ok(SingleEditResult::Exist(m)) && m@ == msg
    } else {
        r matches Ok(SingleEditResult::Success(m)) && m@ == msg
    }
}

/// One step of saving a project or space.
pub open spec fn space_transition(flow: SpaceFlow, reply: DbQueryResult<()>, next: SpaceFlow, step: Step<SingleEditResult>) -> bool {
    match flow.stage {
        SpaceStage::CreatingSequence => match (flow.kind, reply) {
            (SpaceKind::Wiki, Err(e)) => step == Step::<SingleEditResult>::Finish(Err(e)),
            _ => same_space_flow_but_stage(flow, next, SpaceStage::Saving)
                && (step matches Step::Run(st) && is_save_statement(next, st)),
        },
        SpaceStage::Saving => match reply {
            Ok(_) => if flow.is_new {
                same_space_flow_but_stage(flow, next, SpaceStage::Joining)
                    && (step matches Step::Run(st) && is_join_statement(next, st))
            } else {
                step matches Step::Finish(r) && is_edit(r, true, adjusted_message(flow.kind))
            },
            Err(DbError::RowNotFound) => same_space_flow_but_stage(flow, next, SpaceStage::JoiningAfterMissingRow)
                && (step matches Step::Run(st) && is_join_statement(next, st)),
            Err(e) => step == Step::<SingleEditResult>::Finish(Err(e)),
        },
        SpaceStage::Joining => match reply {
            Ok(_) => step matches Step::Finish(r) && is_edit(r, false, joined_message(flow.kind)),
            Err(DbError::RowNotFound) => step matches Step::Finish(r) && is_edit(r, true, joined_message(flow.kind)),
            Err(e) => step == Step::<SingleEditResult>::Finish(Err(e)),
        },
        SpaceStage::JoiningAfterMissingRow => match reply {
            Err(DbError::Other(e)) => step == Step::<SingleEditResult>::Finish(Err(DbError::Other(e))),
            _ => step == Step::<SingleEditResult>::Finish(Err(DbError::RowNotFound)),
        },
    }
}

fn clone_option(o: &Option<String>) -> (r: Option<String>)
    ensures
        r == *o,
{
    match o {
        Some(s) => Some(s.clone()),
        None => None,
    }
}

fn save_statement(flow: &SpaceFlow) -> (st: Statement)
    requires
        flow.setter.id is Some,
    ensures
        is_save_statement(*flow, st),
{
    let id = match &flow.setter.id {
        Some(i) => i.as_str(),
        None => "",
    };
    let name = flow.setter.name.as_str();
    let logo = flow.setter.logo.as_str();
    let org = flow.organization.as_str();
    let time = flow.update_time.as_str();
    let private = match flow.setter.private {
        Some(p) => p,
        None => false,
    };
    let mut sql = match flow.kind {
        SpaceKind::Project => String::from_str("insert into public.project values('"),
        SpaceKind::Wiki => String::from_str("insert into public.wiki values('"),
    };
    sql.append(id);
    sql.append("','");
    sql.append(name);
    sql.append("','");
    sql.append(logo);
    sql.append("','");
    sql.append(org);
    sql.append("',$1,'");
    sql.append(time);
    match flow.kind {
        SpaceKind::Project => {
            sql.append("')on conflict(id) do update set name = '");
        },
        SpaceKind::Wiki => {
            sql.append("','");
            sql.append(bool_string(private).as_str());
            sql.append("')on conflict(id) do update set name = '");
        },
    }
    sql.append(name);
    sql.append("',logo = '");
    sql.append(logo);
    sql.append("',organization = '");
    sql.append(org);
    sql.append("',description = $2, last_update = '");
    sql.append(time);
    match flow.kind {
        SpaceKind::Project => {
            sql.append("'");
        },
        SpaceKind::Wiki => {
            sql.append("',private = '");
            sql.append(bool_string(private).as_str());
            sql.append("'");
        },
    }
    assert(sql@ =~= save_space_sql(flow.kind, flow.setter.id->0@, flow.setter.name@, flow.setter.logo@,
        flow.organization@, flow.update_time@, flow.setter.private.unwrap_or(false)));
    let mut args: Vec<SqlValue> = Vec::new();
    args.push(SqlValue::OptText(clone_option(&flow.setter.description)));
    args.push(SqlValue::OptText(clone_option(&flow.setter.description)));
    let st = Statement { sql, args, mode: FetchMode::FetchOne };
    assert(st.args@.map_values(|v: SqlValue| v@) =~= seq![SqlArg::OptText(opt_text(flow.setter.description)),
        SqlArg::OptText(opt_text(flow.setter.description))]);
    st
}

fn join_statement(flow: &SpaceFlow) -> (st: Statement)
    requires
        flow.setter.id is Some,
    ensures
        is_join_statement(*flow, st),
{
    let id = match &flow.setter.id {
        Some(i) => i.as_str(),
        None => "",
    };
    let mut sql = match flow.kind {
        SpaceKind::Project => String::from_str("insert into public.participation (user_id, project_id,  star) values('"),
        SpaceKind::Wiki => String::from_str("insert into public.wiki_participation (user_id, wiki_id,  star) values('"),
    };
    sql.append(flow.setter.user_id.as_str());
    sql.append("','");
    sql.append(id);
    sql.append("','0')");
    assert(sql@ =~= join_space_sql(flow.kind, flow.setter.user_id@, flow.setter.id->0@));
    plain_statement(sql, FetchMode::FetchOne)
}

/// Starts saving a project or wiki space. A new object (no id in the form)
/// gets the id `new_id` and the time `now` as its last update, and its
/// numbering sequence is created first; an existing one is saved at once.
/// How the saving of a project or space starts.
pub open spec fn space_started(kind: SpaceKind, setter: ProjectSetter, new_id: Seq<u8>, now: u64, flow: SpaceFlow, st: Statement) -> bool {
    &&& space_flow_ok(flow)
    &&& flow.kind == kind
    &&& flow.is_new == setter.id is None
    &&& flow.organization@ == uuid_text(parse_uuid_text(setter.organization@)->0)
    &&& flow.setter.user_id == setter.user_id
    &&& flow.setter.name == setter.name
    &&& flow.setter.logo == setter.logo
    &&& flow.setter.organization == setter.organization
    &&& flow.setter.description == setter.description
    &&& flow.setter.private == setter.private
    &&& flow.setter.last_update == setter.last_update
    &&& (setter.id is None ==> {
            &&& flow.setter.id matches Some(i) && i@ == uuid_text(new_id)
            &&& flow.update_time@ == timestamp_text(now)
            &&& flow.stage == SpaceStage::CreatingSequence
            &&& st.is(create_sequence_sql(kind, uuid_text(new_id)), Seq::empty(), FetchMode::Execute)
        })
    &&& (setter.id is Some ==> {
            &&& flow.setter.id == setter.id
            &&& flow.update_time@ == setter.last_update->0@
            &&& flow.stage == SpaceStage::Saving
            &&& is_save_statement(flow, st)
        })
}

pub fn save_space_start(kind: SpaceKind, setter: ProjectSetter, new_id: [u8; 16], now: u64) -> (res: (SpaceFlow, Statement))
    requires
        space_request_ok(setter),
        setter.id is None ==> timestamp_in_range(now),
    ensures
        space_started(kind, setter, new_id@, now, res.0, res.1),
{
    let organization = match canonical_uuid(setter.organization.as_str()) {
        Some(o) => o,
        None => {
            proof { assert(false); }
            String::new()
        },
    };
    let mut setter = setter;
    if setter.id.is_none() {
        let pro_id = uuid_to_string(&new_id);
        let update_time = timestamp_to_date(now);
        setter.id = Some(pro_id.clone());
        let object_type = match kind {
            SpaceKind::Project => ObjectTypes::PROJECT,
            SpaceKind::Wiki => ObjectTypes::WIKI,
        };
        let mut sql = String::from_str("create SEQUENCE ");
        sql.append(get_sequence_name(object_type, pro_id).as_str());
        let st = plain_statement(sql, FetchMode::Execute);
        let flow = SpaceFlow { kind, setter, is_new: true, organization, update_time, stage: SpaceStage::CreatingSequence };
        (flow, st)
    } else {
        let update_time = match &setter.last_update {
            Some(t) => t.clone(),
            None => {
                proof { assert(false); }
                String::new()
            },
        };
        let flow = SpaceFlow { kind, setter, is_new: false, organization, update_time, stage: SpaceStage::Saving };
        let st = save_statement(&flow);
        (flow, st)
    }
}

/// The id a new project or space gets: a random version 4 UUID, whose text
/// (the one the rows and the sequence name hold) parses back to it.
pub open spec fn new_space_id(id: Seq<u8>) -> bool {
    &&& is_v4_uuid(id)
    &&& parse_uuid_text(uuid_text(id)) == Some(id)
}

/// Starts saving a project or space; a new one gets a fresh random id and the
/// current time. `None` where the object is new and the clock reads a time
/// that cannot be written as a date.
pub fn save_space_begin(kind: SpaceKind, setter: ProjectSetter) -> (res: Option<(SpaceFlow, Statement)>)
    requires
        space_request_ok(setter),
    ensures
        res is None ==> setter.id is None,
        res matches Some((flow, st)) ==> exists|id: Seq<u8>, now: u64|
            new_space_id(id) && space_started(kind, setter, id, now, flow, st),
{
    let new_id = new_random_uuid();
    let now = current_timestamp();
    if setter.id.is_some() || timestamp_fits(now) {
        let r = save_space_start(kind, setter, new_id, now);
        proof { lemma_uuid_text_parses_back(new_id@); }
        assert(new_space_id(new_id@) && space_started(kind, setter, new_id@, now, r.0, r.1));
        Some(r)
    } else {
        None
    }
}

/// Starts saving a project (see `save_space_begin`).
pub fn try_set_project(project_creator: ProjectSetter) -> (res: Option<(SpaceFlow, Statement)>)
    requires
        space_request_ok(project_creator),
    ensures
        res is None ==> project_creator.id is None,
        res matches Some((flow, st)) ==> exists|id: Seq<u8>, now: u64|
            new_space_id(id) && space_started(SpaceKind::Project, project_creator, id, now, flow, st),
{
    save_space_begin(SpaceKind::Project, project_creator)
}

/// Takes the saving of a project or space one step on.
pub fn save_space_step(flow: SpaceFlow, reply: DbQueryResult<()>) -> (res: (SpaceFlow, Step<SingleEditResult>))
    requires
        space_flow_ok(flow),
    ensures
        space_transition(flow, reply, res.0, res.1),
        res.1 is Run ==> space_flow_ok(res.0),
        res.1 is Run ==> space_stage_rank(res.0.stage) == space_stage_rank(flow.stage) + 1,
        space_stage_rank(flow.stage) == 2 ==> res.1 is Finish,
{
    match flow.stage {
        SpaceStage::CreatingSequence => {
            match (flow.kind, reply) {
                (SpaceKind::Wiki, Err(e)) => (flow, Step::Finish(Err(e))),
                _ => {
                    let next = SpaceFlow { stage: SpaceStage::Saving, ..flow };
                    let st = save_statement(&next);
                    (next, Step::Run(st))
                },
            }
        },
        SpaceStage::Saving => match reply {
            Ok(_) => {
                if flow.is_new {
                    let next = SpaceFlow { stage: SpaceStage::Joining, ..flow };
                    let st = join_statement(&next);
                    (next, Step::Run(st))
                } else {
                    let msg = match flow.kind {
                        SpaceKind::Project => String::from_str("project adjust successfully"),
                        SpaceKind::Wiki => String::from_str("space adjust successfully"),
                    };
                    (flow, Step::Finish(Ok(SingleEditResult::Exist(msg))))
                }
            },
            Err(DbError::RowNotFound) => {
                let next = SpaceFlow { stage: SpaceStage::JoiningAfterMissingRow, ..flow };
                let st = join_statement(&next);
                (next, Step::Run(st))
            },
            Err(e) => (flow, Step::Finish(Err(e))),
        },
        SpaceStage::Joining => {
            let msg = match flow.kind {
                SpaceKind::Project => String::from_str("participate project successfully"),
                SpaceKind::Wiki => String::from_str("participate wiki successfully"),
            };
            match reply {
                Ok(_) => (flow, Step::Finish(Ok(SingleEditResult::Success(msg)))),
                Err(DbError::RowNotFound) => (flow, Step::Finish(Ok(SingleEditResult::Exist(msg)))),
                Err(e) => (flow, Step::Finish(Err(e))),
            }
        },
        SpaceStage::JoiningAfterMissingRow => match reply {
            Err(DbError::Other(e)) => (flow, Step::Finish(Err(DbError::Other(e)))),
            _ => (flow, Step::Finish(Err(DbError::RowNotFound))),
        },
    }
}

/// A UUID that the caller has shown to be well formed.
pub fn uuid_of(text: &str) -> (b: [u8; 16])
    requires
        parse_uuid_text(text@) is Some,
    ensures
        b@ == parse_uuid_text(text@)->0,
{
    match parse_uuid(text) {
        Some(b) => b,
        None => {
            proof { assert(false); }
            [0u8; 16]
        },
    }
}

/// A statement with one UUID bound to `$1`.
pub fn statement_with_uuid(sql: String, id: [u8; 16], mode: FetchMode) -> (st: Statement)
    ensures
        st.is(sql@, seq![SqlArg::Uuid(id@)], mode),
{
    let mut args: Vec<SqlValue> = Vec::new();
    args.push(SqlValue::Uuid(id));
    let st = Statement { sql, args, mode };
    assert(st.args@.map_values(|v: SqlValue| v@) =~= seq![SqlArg::Uuid(id@)]);
    st
}

pub open spec fn select_project_sql() -> Seq<char> {
    "\n    SELECT\n        p.id,\n        p.name,\n        p.logo,\n        p.description,\n        p.last_update,\n        admin.name AS admin_name,\n        pa.star\n    FROM public.project p\n    JOIN public.participation pa ON p.id = pa.project_id\n    LEFT JOIN public.user admin ON pa.user_id = admin.id\n    WHERE pa.user_id = $1;\n    "@
}

/// The projects that a user takes part in, with their admins and stars.
pub fn select_project(user_id: &str) -> (st: Statement)
    requires
        parse_uuid_text(user_id@) is Some,
    ensures
        st.is(select_project_sql(), seq![SqlArg::Uuid(parse_uuid_text(user_id@)->0)], FetchMode::FetchAll),
{
    statement_with_uuid(String::from_str("\n    SELECT\n        p.id,\n        p.name,\n        p.logo,\n        p.description,\n        p.last_update,\n        admin.name AS admin_name,\n        pa.star\n    FROM public.project p\n    JOIN public.participation pa ON p.id = pa.project_id\n    LEFT JOIN public.user admin ON pa.user_id = admin.id\n    WHERE pa.user_id = $1;\n    "), uuid_of(user_id), FetchMode::FetchAll)
}

pub open spec fn delete_members_sql() -> Seq<char> {
    "delete from public.participation part where part.project_id = $1"@
}

pub open spec fn delete_project_sql() -> Seq<char> {
    "delete from public.project pro where pro.id = $1"@
}

/// Where the deletion of a project stands.
#[derive(Debug, Clone, Copy, PartialEq, Eq, Structural)]
pub enum DeleteStage {
    RemovingMembers,
    RemovingProject,
}

/// The deletion of a project in progress.
#[derive(Debug, Clone, PartialEq, Eq)]
pub struct DeleteFlow {
    pub project: [u8; 16],
    pub stage: DeleteStage,
}

/// Starts deleting a project: its memberships go first.
pub fn try_delete_project(project_id: &str) -> (res: (DeleteFlow, Statement))
    requires
        parse_uuid_text(project_id@) is Some,
    ensures
        res.0.project@ == parse_uuid_text(project_id@)->0,
        res.0.stage == DeleteStage::RemovingMembers,
        res.1.is(delete_members_sql(), seq![SqlArg::Uuid(res.0.project@)], FetchMode::FetchOne),
{
    let project = uuid_of(project_id);
    let st = statement_with_uuid(String::from_str("delete from public.participation part where part.project_id = $1"),
        project, FetchMode::FetchOne);
    (DeleteFlow { project, stage: DeleteStage::RemovingMembers }, st)
}

/// One step of deleting a project: a missing row counts as done; another
/// failure ends the deletion.
pub open spec fn delete_transition(flow: DeleteFlow, reply: DbQueryResult<()>, next: DeleteFlow, step: Step<DeleteResult>) -> bool {
    match reply {
        Err(DbError::Other(e)) => step == Step::<DeleteResult>::Finish(Err(DbError::Other(e))),
        _ => match flow.stage {
            DeleteStage::RemovingMembers => next.project == flow.project && next.stage == DeleteStage::RemovingProject
                && (step matches Step::Run(st) && st.is(delete_project_sql(), seq![SqlArg::Uuid(flow.project@)], FetchMode::FetchOne)),
            DeleteStage::RemovingProject => step matches Step::Finish(Ok(DeleteResult::Success(m)))
                && m@ == "delete project success"@,
        },
    }
}

/// Takes the deletion of a project one step on.
pub fn delete_project_step(flow: DeleteFlow, reply: DbQueryResult<()>) -> (res: (DeleteFlow, Step<DeleteResult>))
    ensures
        delete_transition(flow, reply, res.0, res.1),
        res.1 is Run ==> res.0.stage == DeleteStage::RemovingProject,
{
    match reply {
        Err(DbError::Other(e)) => (flow, Step::Finish(Err(DbError::Other(e)))),
        _ => match flow.stage {
            DeleteStage::RemovingMembers => {
                let st = statement_with_uuid(String::from_str("delete from public.project pro where pro.id = $1"),
                    flow.project, FetchMode::FetchOne);
                (DeleteFlow { project: flow.project, stage: DeleteStage::RemovingProject }, Step::Run(st))
            },
            DeleteStage::RemovingProject => (flow, Step::Finish(Ok(DeleteResult::Success(String::from_str("delete project success"))))),
        },
    }
}

pub open spec fn add_partners_sql() -> Seq<char> {
    "INSERT INTO participation (user_id, project_id, role, star) SELECT user_id, $1 AS project_id, 1 AS role, 'f' AS star\n        FROM unnest($2::uuid[]) AS user_id"@
}

/// Every text in `ids` is a UUID.
pub open spec fn all_uuids(ids: Seq<String>) -> bool {
    forall|i: int| 0 <= i < ids.len() ==> parse_uuid_text(#[trigger] ids[i]@) is Some
}

/// The statement that adds users to a project as plain members (role 1, not
/// starred).
pub fn add_partners_statement(partners: AddPartners) -> (st: Statement)
    requires
        parse_uuid_text(partners.project_id@) is Some,
        all_uuids(partners.partners@),
    ensures
        st.is(add_partners_sql(), seq![
            SqlArg::Uuid(parse_uuid_text(partners.project_id@)->0),
            SqlArg::UuidList(partners.partners@.map_values(|u: String| parse_uuid_text(u@)->0)),
        ], FetchMode::FetchOne),
{
    let pro_id = uuid_of(partners.project_id.as_str());
    let mut user_ids: Vec<[u8; 16]> = Vec::new();
    let n = partners.partners.len();
    let mut i: usize = 0;
    while i < n
        invariant
            n == partners.partners@.len(),
            all_uuids(partners.partners@),
            i <= n,
            user_ids@.len() == i,
            forall|j: int| 0 <= j < i ==> #[trigger] user_ids@[j]@ == parse_uuid_text(partners.partners@[j]@)->0,
        decreases n - i,
    {
        let id = uuid_of(partners.partners[i].as_str());
        user_ids.push(id);
        i = i + 1;
    }
    let ghost ids = user_ids@;
    let mut args: Vec<SqlValue> = Vec::new();
    args.push(SqlValue::Uuid(pro_id));
    args.push(SqlValue::UuidList(user_ids));
    let st = Statement { sql: String::from_str("INSERT INTO participation (user_id, project_id, role, star) SELECT user_id, $1 AS project_id, 1 AS role, 'f' AS star\n        FROM unnest($2::uuid[]) AS user_id"), args, mode: FetchMode::FetchOne };
    assert(ids.map_values(|b: [u8; 16]| b@) =~= partners.partners@.map_values(|u: String| parse_uuid_text(u@)->0));
    assert(st.args@.map_values(|v: SqlValue| v@) =~= seq![
        SqlArg::Uuid(parse_uuid_text(partners.project_id@)->0),
        SqlArg::UuidList(partners.partners@.map_values(|u: String| parse_uuid_text(u@)->0)),
    ]);
    st
}

/// The result of adding members: success also where no row came back.
pub fn try_add_partners_to_project(reply: DbQueryResult<()>) -> (r: DbQueryResult<SingleEditResult>)
    ensures
        match reply {
            Err(DbError::Other(e)) => r == Err::<SingleEditResult, DbError>(DbError::Other(e)),
            _ => r matches Ok(SingleEditResult::Success(m)) && m@ == "add partners success"@,
        },
{
    match reply {
        Err(DbError::Other(e)) => Err(DbError::Other(e)),
        _ => Ok(SingleEditResult::Success(String::from_str("add partners success"))),
    }
}

pub open spec fn partners_sql() -> Seq<char> {
    "\n    SELECT\n        u.name,\n        CASE\n            WHEN p.role = 0 THEN '管理员'\n            WHEN p.role = 1 THEN '普通成员'\n            ELSE '未知角色'\n        END AS role,\n        pos.name AS position\n    FROM\n        public.participation p\n    JOIN\n        public.user u ON p.user_id = u.id\n    LEFT JOIN\n        public.position pos ON p.position = pos.id\n    WHERE\n        p.project_id = $1;\n    "@
}

/// The members of a project with their role names and positions.
pub fn get_partners_statement(project_id: &str) -> (st: Statement)
    requires
        parse_uuid_text(project_id@) is Some,
    ensures
        st.is(partners_sql(), seq![SqlArg::Uuid(parse_uuid_text(project_id@)->0)], FetchMode::FetchAll),
{
    statement_with_uuid(String::from_str("\n    SELECT\n        u.name,\n        CASE\n            WHEN p.role = 0 THEN '管理员'\n            WHEN p.role = 1 THEN '普通成员'\n            ELSE '未知角色'\n        END AS role,\n        pos.name AS position\n    FROM\n        public.participation p\n    JOIN\n        public.user u ON p.user_id = u.id\n    LEFT JOIN\n        public.position pos ON p.position = pos.id\n    WHERE\n        p.project_id = $1;\n    "), uuid_of(project_id), FetchMode::FetchAll)
}

/// The members of a project from the rows that came back.
pub fn get_partners(rows: DbQueryResult<Vec<WorkMate>>) -> (r: DbQueryResult<WorkMateCollector>)
    ensures
        match rows {
            Ok(v) => r matches Ok(c) && c.collector == v,
            Err(e) => r == Err::<WorkMateCollector, DbError>(e),
        },
{
    match rows {
        Ok(work_mates) => Ok(WorkMateCollector { collector: work_mates }),
        Err(err) => Err(err),
    }
}

/// Deleting a project removes its memberships and then the project, and
/// succeeds whenever neither delete fails with anything but a missing row: a
/// delete that reports no row has still done its work. A failure of another
/// kind ends the deletion with that failure.
pub proof fn lemma_delete_succeeds_unless_failed(
    flow: DeleteFlow,
    first_reply: DbQueryResult<()>,
    mid: DeleteFlow,
    first: Step<DeleteResult>,
    second_reply: DbQueryResult<()>,
    last: DeleteFlow,
    second: Step<DeleteResult>,
)
    requires
        flow.stage == DeleteStage::RemovingMembers,
        delete_transition(flow, first_reply, mid, first),
        first is Run ==> delete_transition(mid, second_reply, last, second),
    ensures
        first_reply matches Err(DbError::Other(e)) ==> first == Step::<DeleteResult>::Finish(Err(DbError::Other(e))),
        !(first_reply matches Err(DbError::Other(_))) ==> {
            &&& first matches Step::Run(st) && st.is(delete_project_sql(), seq![SqlArg::Uuid(flow.project@)], FetchMode::FetchOne)
            &&& second_reply matches Err(DbError::Other(e)) ==> second == Step::<DeleteResult>::Finish(Err(DbError::Other(e)))
            &&& !(second_reply matches Err(DbError::Other(_))) ==> (second matches Step::Finish(Ok(DeleteResult::Success(m)))
                && m@ == "delete project success"@)
        },
{
}

/// The private flag a wiki space is saved with is the one the form gives,
/// `false` where the form gives none: the saved text writes `'true'` exactly
/// for a form that asks for a private space, and `'false'` otherwise.
pub proof fn lemma_wiki_saved_with_form_privacy(flow: SpaceFlow, reply: DbQueryResult<()>, next: SpaceFlow, step: Step<SingleEditResult>)
    requires
        flow.kind == SpaceKind::Wiki,
        flow.stage == SpaceStage::CreatingSequence,
        reply is Ok,
        space_transition(flow, reply, next, step),
    ensures
        step matches Step::Run(st) && st.sql@ == save_space_sql(SpaceKind::Wiki, flow.setter.id->0@, flow.setter.name@,
            flow.setter.logo@, flow.organization@, flow.update_time@, flow.setter.private == Some(true)),
{
}

/// The same for a wiki space that already exists: its save, the first
/// statement, writes `'true'` exactly where the form asks for a private space.
pub proof fn lemma_existing_wiki_saved_with_form_privacy(setter: ProjectSetter, new_id: Seq<u8>, now: u64, flow: SpaceFlow, st: Statement)
    requires
        setter.id is Some,
        space_started(SpaceKind::Wiki, setter, new_id, now, flow, st),
    ensures
        st.sql@ == save_space_sql(SpaceKind::Wiki, setter.id->0@, setter.name@, setter.logo@, flow.organization@,
            setter.last_update->0@, setter.private == Some(true)),
{
}

} // verus!
