//! What the project handlers answer, and the flow that stars a project or a
//! wiki space.
use vstd::prelude::*;
use crate::db::{DbError, DbQueryResult, FetchMode, SqlArg, SqlValue, Statement};
use crate::project::db_service::{SpaceKind, uuid_of};
use crate::types::{HttpStatus, RtData, RtStatus, SingleEditResult};
use crate::uuid_text::parse_uuid_text;

verus! {

/// The answer to a query: its result as a success with `msg`, or an internal
/// server error.
pub fn query_answer<T>(res: DbQueryResult<T>, msg: String) -> (out: Result<RtData<T>, HttpStatus>)
    ensures
        match res {
            Ok(d) => out matches Ok(a) && a.is_success(d, msg@),
            Err(_) => out == Err::<RtData<T>, HttpStatus>(HttpStatus::InternalServerError),
        },
        out matches Ok(d) ==> d.is_consistent(),
{
    match res {
        Ok(data) => Ok(RtData::success(data, msg)),
        Err(_) => Err(HttpStatus::InternalServerError),
    }
}

/// The answer to the listing of a user's projects.
pub fn projects_answer<T>(res: DbQueryResult<T>) -> (out: Result<RtData<T>, HttpStatus>)
    ensures
        match res {
            Ok(d) => out matches Ok(a) && a.is_success(d, "get all projects success"@),
            Err(_) => out == Err::<RtData<T>, HttpStatus>(HttpStatus::InternalServerError),
        },
{
    query_answer(res, String::from_str("get all projects success"))
}

/// The answer to the deletion of a project.
pub fn deleted_answer<T>(res: DbQueryResult<T>) -> (out: Result<RtData<T>, HttpStatus>)
    ensures
        match res {
            Ok(d) => out matches Ok(a) && a.is_success(d, "delete project success"@),
            Err(_) => out == Err::<RtData<T>, HttpStatus>(HttpStatus::InternalServerError),
        },
{
    query_answer(res, String::from_str("delete project success"))
}

/// The answer to the listing of a project's members.
pub fn partners_answer<T>(res: DbQueryResult<T>) -> (out: Result<RtData<T>, HttpStatus>)
    ensures
        match res {
            Ok(d) => out matches Ok(a) && a.is_success(d, "get all partners success!"@),
            Err(_) => out == Err::<RtData<T>, HttpStatus>(HttpStatus::InternalServerError),
        },
{
    query_answer(res, String::from_str("get all partners success!"))
}

pub open spec fn star_check_sql(kind: SpaceKind) -> Seq<char> {
    match kind {
        SpaceKind::Project => "select * from public.participation where user_id = $1 and project_id = $2"@,
        SpaceKind::Wiki => "select * from public.wiki_participation where user_id = $1 and wiki_id = $2"@,
    }
}

pub open spec fn star_update_sql(kind: SpaceKind) -> Seq<char> {
    match kind {
        SpaceKind::Project => "update public.participation set star = $1 where user_id = $2 and project_id = $3"@,
        SpaceKind::Wiki => "update public.wiki_participation set star = $1 where user_id = $2 and wiki_id = $3"@,
    }
}

pub open spec fn no_such_message(kind: SpaceKind) -> Seq<char> {
    match kind {
        SpaceKind::Project => "no this project"@,
        SpaceKind::Wiki => "no this wiki"@,
    }
}

pub open spec fn starred_message() -> Seq<char> {
    "更新成功"@
}

#[derive(Debug, Clone, Copy, PartialEq, Eq, Structural)]
pub enum StarStage {
    /// Checking that the user takes part in the project or space.
    Checking,
    /// Setting the star.
    Updating,
}

/// The starring (or unstarring) of a project or space by a member.
#[derive(Debug, Clone, Copy, PartialEq, Eq)]
pub struct StarFlow {
    pub kind: SpaceKind,
    pub user: [u8; 16],
    pub target: [u8; 16],
    pub star: bool,
    pub stage: StarStage,
}

/// What a handler does next: run a statement and report back, or answer.
#[derive(Debug, PartialEq, Eq)]
pub enum RouteStep {
    Run(Statement),
    Answer(Result<RtData<SingleEditResult>, HttpStatus>),
}

/// The flow and first statement of setting `star` for the user `user_id` on
/// the object `target_id`: look up the user's participation.
pub open spec fn star_started(kind: SpaceKind, user_id: Seq<char>, target_id: Seq<char>, star: bool, flow: StarFlow, st: Statement) -> bool {
    &&& flow.kind == kind
    &&& flow.user@ == parse_uuid_text(user_id)->0
    &&& flow.target@ == parse_uuid_text(target_id)->0
    &&& flow.star == star
    &&& flow.stage == StarStage::Checking
    &&& st.is(star_check_sql(kind), seq![SqlArg::Uuid(flow.user@), SqlArg::Uuid(flow.target@)], FetchMode::FetchOne)
}

/// Starts setting the star of a user on a project or space.
pub fn star_start(kind: SpaceKind, user_id: &str, target_id: &str, star: bool) -> (res: (StarFlow, Statement))
    requires
        parse_uuid_text(user_id@) is Some,
        parse_uuid_text(target_id@) is Some,
    ensures
        star_started(kind, user_id@, target_id@, star, res.0, res.1),
{
    let user = uuid_of(user_id);
    let target = uuid_of(target_id);
    let sql = match kind {
        SpaceKind::Project => String::from_str("select * from public.participation where user_id = $1 and project_id = $2"),
        SpaceKind::Wiki => String::from_str("select * from public.wiki_participation where user_id = $1 and wiki_id = $2"),
    };
    let mut args: Vec<SqlValue> = Vec::new();
    args.push(SqlValue::Uuid(user));
    args.push(SqlValue::Uuid(target));
    let st = Statement { sql, args, mode: FetchMode::FetchOne };
    assert(st.args@.map_values(|v: SqlValue| v@) =~= seq![SqlArg::Uuid(user@), SqlArg::Uuid(target@)]);
    (StarFlow { kind, user, target, star, stage: StarStage::Checking }, st)
}

/// One step of setting a star: a non-member is told the object does not
/// exist; a member's star is set; a database failure is an internal error.
pub open spec fn star_transition(flow: StarFlow, reply: DbQueryResult<()>, next: StarFlow, step: RouteStep) -> bool {
    match flow.stage {
        StarStage::Checking => match reply {
            Err(DbError::RowNotFound) => step matches RouteStep::Answer(Ok(a)) && a.msg@ == Seq::<char>::empty()
                && !a.success && a.status == RtStatus::Fail
                && (a.data matches SingleEditResult::Fail(m) && m@ == no_such_message(flow.kind)),
            Err(DbError::Other(_)) => step == RouteStep::Answer(Err(HttpStatus::InternalServerError)),
            Ok(_) => next == StarFlow { stage: StarStage::Updating, ..flow }
                && (step matches RouteStep::Run(st) && st.is(star_update_sql(flow.kind),
                    seq![SqlArg::Bool(flow.star), SqlArg::Uuid(flow.user@), SqlArg::Uuid(flow.target@)], FetchMode::Execute)),
        },
        StarStage::Updating => match reply {
            Ok(_) => step matches RouteStep::Answer(Ok(a)) && a.msg@ == Seq::<char>::empty() && a.success
                && a.status == RtStatus::Success
                && (a.data matches SingleEditResult::Success(m) && m@ == starred_message()),
            Err(_) => step == RouteStep::Answer(Err(HttpStatus::InternalServerError)),
        },
    }
}

/// Takes the setting of a star one step on.
pub fn star_step(flow: StarFlow, reply: DbQueryResult<()>) -> (res: (StarFlow, RouteStep))
    ensures
        star_transition(flow, reply, res.0, res.1),
        res.1 is Run ==> res.0.stage == StarStage::Updating,
        res.1 matches RouteStep::Answer(Ok(a)) ==> a.is_consistent(),
{
    match flow.stage {
        StarStage::Checking => match reply {
            Err(DbError::RowNotFound) => {
                let msg = match flow.kind {
                    SpaceKind::Project => String::from_str("no this project"),
                    SpaceKind::Wiki => String::from_str("no this wiki"),
                };
                (flow, RouteStep::Answer(Ok(RtData::failure(SingleEditResult::Fail(msg), String::new()))))
            },
            Err(DbError::Other(_)) => (flow, RouteStep::Answer(Err(HttpStatus::InternalServerError))),
            Ok(_) => {
                let sql = match flow.kind {
                    SpaceKind::Project => String::from_str("update public.participation set star = $1 where user_id = $2 and project_id = $3"),
                    SpaceKind::Wiki => String::from_str("update public.wiki_participation set star = $1 where user_id = $2 and wiki_id = $3"),
                };
                let mut args: Vec<SqlValue> = Vec::new();
                args.push(SqlValue::Bool(flow.star));
                args.push(SqlValue::Uuid(flow.user));
                args.push(SqlValue::Uuid(flow.target));
                let st = Statement { sql, args, mode: FetchMode::Execute };
                assert(st.args@.map_values(|v: SqlValue| v@) =~= seq![SqlArg::Bool(flow.star), SqlArg::Uuid(flow.user@), SqlArg::Uuid(flow.target@)]);
                (StarFlow { stage: StarStage::Updating, ..flow }, RouteStep::Run(st))
            },
        },
        StarStage::Updating => match reply {
            Ok(_) => (flow, RouteStep::Answer(Ok(RtData::success(SingleEditResult::Success(String::from_str("更新成功")), String::new())))),
            Err(_) => (flow, RouteStep::Answer(Err(HttpStatus::InternalServerError))),
        },
    }
}

/// Two edit results of the same kind with the same text.
pub open spec fn same_edit_result(a: SingleEditResult, b: SingleEditResult) -> bool {
    match (a, b) {
        (SingleEditResult::Exist(x), SingleEditResult::Exist(y)) => x@ == y@,
        (SingleEditResult::Success(x), SingleEditResult::Success(y)) => x@ == y@,
        (SingleEditResult::Fail(x), SingleEditResult::Fail(y)) => x@ == y@,
        _ => false,
    }
}

/// Two steps that do the same: run the same statement, or give the same answer.
pub open spec fn same_route_step(a: RouteStep, b: RouteStep) -> bool {
    match (a, b) {
        (RouteStep::Run(s), RouteStep::Run(t)) => s.same_as(t),
        (RouteStep::Answer(Err(e)), RouteStep::Answer(Err(f))) => e == f,
        (RouteStep::Answer(Ok(x)), RouteStep::Answer(Ok(y))) => {
            &&& x.msg@ == y.msg@
            &&& x.success == y.success
            &&& x.status == y.status
            &&& same_edit_result(x.data, y.data)
        },
        _ => false,
    }
}

/// A whole run of setting a star, as the handler makes it: the lookup, the
/// step on its reply, and, where that step runs the update, the step on the
/// update's reply.
pub open spec fn star_run(
    kind: SpaceKind,
    user_id: Seq<char>,
    target_id: Seq<char>,
    star: bool,
    check_reply: DbQueryResult<()>,
    update_reply: DbQueryResult<()>,
    run: (StarFlow, Statement, StarFlow, RouteStep, StarFlow, RouteStep),
) -> bool {
    &&& star_started(kind, user_id, target_id, star, run.0, run.1)
    &&& star_transition(run.0, check_reply, run.2, run.3)
    &&& (run.3 is Run ==> star_transition(run.2, update_reply, run.4, run.5))
}

/// Setting a star is the same every time: two runs with the same user,
/// object and star value, on which the database gives the same replies, run
/// the same statements and give the same answers. The only write is the
/// update that sets the user's star on that object to the given value, so it
/// does not depend on what the star was before, and a second run leaves the
/// participation as the first left it.
pub proof fn lemma_star_twice_same(
    kind: SpaceKind,
    user_id: Seq<char>,
    target_id: Seq<char>,
    star: bool,
    check_reply: DbQueryResult<()>,
    update_reply: DbQueryResult<()>,
    first: (StarFlow, Statement, StarFlow, RouteStep, StarFlow, RouteStep),
    second: (StarFlow, Statement, StarFlow, RouteStep, StarFlow, RouteStep),
)
    requires
        star_run(kind, user_id, target_id, star, check_reply, update_reply, first),
        star_run(kind, user_id, target_id, star, check_reply, update_reply, second),
    ensures
        first.1.same_as(second.1),
        same_route_step(first.3, second.3),
        first.3 is Run ==> same_route_step(first.5, second.5),
        first.3 matches RouteStep::Run(st) ==> st.is(star_update_sql(kind),
            seq![SqlArg::Bool(star), SqlArg::Uuid(parse_uuid_text(user_id)->0), SqlArg::Uuid(parse_uuid_text(target_id)->0)],
            FetchMode::Execute),
        first.3 is Run && update_reply is Ok ==> (first.5 matches RouteStep::Answer(Ok(a)) && a.success
            && (a.data matches SingleEditResult::Success(m) && m@ == starred_message())),
{
}

} // verus!
