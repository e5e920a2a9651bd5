use gd_backend::db::{write_step, DbError, FetchMode, SqlValue, Step, WriteStage};
use gd_backend::project::db_service::{
    add_partners_statement, delete_project_step, get_partners, get_partners_statement, save_space_start,
    save_space_step, select_project, try_add_partners_to_project, try_delete_project, try_set_project,
    DeleteStage, SpaceKind, SpaceStage,
};
use gd_backend::project::route::{deleted_answer, partners_answer, projects_answer, query_answer, star_start, star_step, RouteStep, StarStage};
use gd_backend::wiki::route::spaces_answer;
use gd_backend::project::work_item::db_service::{try_set_work_item, work_item_start};
use gd_backend::project::work_item::types::WorkItem;
use gd_backend::types::{AddPartners, DeleteResult, HttpStatus, ProjectSetter, RtStatus, SingleEditResult, WorkMate, WorkMateCollector};
use gd_backend::uuid_text::parse_uuid;

const ORG: &str = "11111111-2222-3333-4444-555555555555";
const USER: &str = "99999999-8888-7777-6666-555555555555";
const PROJECT: &str = "abcdefab-cdef-abcd-efab-cdefabcdefab";
const NEW_ID: [u8; 16] = [0x12; 16];
const NEW_TEXT: &str = "12121212-1212-1212-1212-121212121212";

fn setter(id: Option<&str>) -> ProjectSetter {
    ProjectSetter {
        user_id: USER.to_string(),
        id: id.map(|s| s.to_string()),
        name: "Alpha".to_string(),
        logo: "a.png".to_string(),
        organization: "11111111-2222-3333-4444-555555555555".to_uppercase(),
        description: Some("first".to_string()),
        last_update: id.map(|_| "2024-01-02 03:04:05".to_string()),
        private: None,
    }
}

fn run(step: Step<SingleEditResult>) -> gd_backend::db::Statement {
    match step {
        Step::Run(st) => st,
        other => panic!("{:?}", other),
    }
}

#[test]
fn new_project_creates_sequence_saves_and_joins() {
    let (flow, st) = save_space_start(SpaceKind::Project, setter(None), NEW_ID, 0);
    assert_eq!(st.sql, "create SEQUENCE work_item_12121212_1212_1212_1212_121212121212_id_seq");
    assert_eq!(st.mode, FetchMode::Execute);
    assert_eq!(flow.setter.id.as_deref(), Some(NEW_TEXT));
    assert_eq!(flow.organization, ORG);
    assert_eq!(flow.stage, SpaceStage::CreatingSequence);
    // a failed sequence does not stop a project
    let (flow, step) = save_space_step(flow, Err(DbError::Other("exists".into())));
    let st = run(step);
    assert_eq!(st.sql, format!("insert into public.project values('{NEW_TEXT}','Alpha','a.png','{ORG}',$1,'1970-01-01 08:00:00')on conflict(id) do update set name = 'Alpha',logo = 'a.png',organization = '{ORG}',description = $2, last_update = '1970-01-01 08:00:00'"));
    assert_eq!(st.args, vec![SqlValue::OptText(Some("first".into())), SqlValue::OptText(Some("first".into()))]);
    assert_eq!(st.mode, FetchMode::FetchOne);
    let (flow, step) = save_space_step(flow, Ok(()));
    let st = run(step);
    assert_eq!(st.sql, format!("insert into public.participation (user_id, project_id,  star) values('{USER}','{NEW_TEXT}','0')"));
    assert_eq!(flow.stage, SpaceStage::Joining);
    let (_, step) = save_space_step(flow, Err(DbError::RowNotFound));
    assert_eq!(step, Step::Finish(Ok(SingleEditResult::Exist("participate project successfully".into()))));
}

#[test]
fn save_reporting_no_row_joins_then_reports_no_row() {
    let (flow, _) = save_space_start(SpaceKind::Project, setter(None), NEW_ID, 0);
    let (flow, _) = save_space_step(flow, Ok(()));
    let (flow, step) = save_space_step(flow, Err(DbError::RowNotFound));
    let _ = run(step);
    assert_eq!(flow.stage, SpaceStage::JoiningAfterMissingRow);
    let (_, step) = save_space_step(flow.clone(), Err(DbError::RowNotFound));
    assert_eq!(step, Step::Finish(Err(DbError::RowNotFound)));
    let (_, step) = save_space_step(flow, Err(DbError::Other("x".into())));
    assert_eq!(step, Step::Finish(Err(DbError::Other("x".into()))));
}

#[test]
fn existing_project_is_updated_at_once() {
    let (flow, st) = save_space_start(SpaceKind::Project, setter(Some(PROJECT)), NEW_ID, 0);
    assert_eq!(flow.stage, SpaceStage::Saving);
    assert!(st.sql.starts_with(&format!("insert into public.project values('{PROJECT}','Alpha','a.png','{ORG}',$1,'2024-01-02 03:04:05')")));
    let (_, step) = save_space_step(flow.clone(), Ok(()));
    assert_eq!(step, Step::Finish(Ok(SingleEditResult::Exist("project adjust successfully".into()))));
    let (_, step) = save_space_step(flow, Err(DbError::Other("x".into())));
    assert_eq!(step, Step::Finish(Err(DbError::Other("x".into()))));
}

#[test]
fn joining_answers() {
    let (flow, _) = save_space_start(SpaceKind::Project, setter(None), NEW_ID, 0);
    let (flow, _) = save_space_step(flow, Ok(()));
    let (flow, _) = save_space_step(flow, Ok(()));
    let (_, step) = save_space_step(flow.clone(), Ok(()));
    assert_eq!(step, Step::Finish(Ok(SingleEditResult::Success("participate project successfully".into()))));
    let (_, step) = save_space_step(flow, Err(DbError::Other("x".into())));
    assert_eq!(step, Step::Finish(Err(DbError::Other("x".into()))));
}

#[test]
fn project_with_fresh_id() {
    let (flow, st) = try_set_project(setter(None)).unwrap();
    assert!(st.sql.starts_with("create SEQUENCE work_item_"));
    assert_eq!(flow.setter.id.unwrap().len(), 36);
}

#[test]
fn project_listing_statement() {
    let st = select_project(USER);
    assert!(st.sql.contains("WHERE pa.user_id = $1;"));
    assert_eq!(st.args, vec![SqlValue::Uuid(parse_uuid(USER).unwrap())]);
    assert_eq!(st.mode, FetchMode::FetchAll);
}

#[test]
fn deleting_a_project() {
    let (flow, st) = try_delete_project(PROJECT);
    assert_eq!(st.sql, "delete from public.participation part where part.project_id = $1");
    assert_eq!(st.args, vec![SqlValue::Uuid(parse_uuid(PROJECT).unwrap())]);
    let (flow, step) = delete_project_step(flow, Err(DbError::RowNotFound));
    match step {
        Step::Run(st) => assert_eq!(st.sql, "delete from public.project pro where pro.id = $1"),
        other => panic!("{:?}", other),
    }
    assert_eq!(flow.stage, DeleteStage::RemovingProject);
    let (_, step) = delete_project_step(flow.clone(), Ok(()));
    assert_eq!(step, Step::Finish(Ok(DeleteResult::Success("delete project success".into()))));
    let (_, step) = delete_project_step(flow, Err(DbError::Other("x".into())));
    assert_eq!(step, Step::Finish(Err(DbError::Other("x".into()))));
}

#[test]
fn adding_partners() {
    let st = add_partners_statement(AddPartners { partners: vec![USER.into(), ORG.into()], project_id: PROJECT.into() });
    assert_eq!(st.sql, "INSERT INTO participation (user_id, project_id, role, star) SELECT user_id, $1 AS project_id, 1 AS role, 'f' AS star\n        FROM unnest($2::uuid[]) AS user_id");
    assert_eq!(st.args, vec![
        SqlValue::Uuid(parse_uuid(PROJECT).unwrap()),
        SqlValue::UuidList(vec![parse_uuid(USER).unwrap(), parse_uuid(ORG).unwrap()]),
    ]);
    assert_eq!(try_add_partners_to_project(Err(DbError::RowNotFound)), Ok(SingleEditResult::Success("add partners success".into())));
    assert_eq!(try_add_partners_to_project(Err(DbError::Other("x".into()))), Err(DbError::Other("x".into())));
}

#[test]
fn listing_partners() {
    let st = get_partners_statement(PROJECT);
    assert!(st.sql.contains("WHEN p.role = 0 THEN '管理员'"));
    let m = WorkMate { name: "n".into(), position: None, role: "r".into() };
    assert_eq!(get_partners(Ok(vec![m.clone()])), Ok(WorkMateCollector { collector: vec![m] }));
    let a = query_answer(get_partners(Ok(vec![])), "get all partners success!".into()).unwrap();
    assert_eq!((a.msg.as_str(), a.success, a.status), ("get all partners success!", true, RtStatus::Success));
    assert_eq!(query_answer::<u8>(Err(DbError::RowNotFound), "m".into()), Err(HttpStatus::InternalServerError));
}

#[test]
fn starring_a_project() {
    let (flow, st) = star_start(SpaceKind::Project, USER, PROJECT, true);
    assert_eq!(st.sql, "select * from public.participation where user_id = $1 and project_id = $2");
    let (flow, step) = star_step(flow, Ok(()));
    match step {
        RouteStep::Run(st) => {
            assert_eq!(st.sql, "update public.participation set star = $1 where user_id = $2 and project_id = $3");
            assert_eq!(st.args, vec![SqlValue::Bool(true), SqlValue::Uuid(parse_uuid(USER).unwrap()), SqlValue::Uuid(parse_uuid(PROJECT).unwrap())]);
            assert_eq!(st.mode, FetchMode::Execute);
        },
        other => panic!("{:?}", other),
    }
    assert_eq!(flow.stage, StarStage::Updating);
    match star_step(flow, Ok(())).1 {
        RouteStep::Answer(Ok(a)) => {
            assert_eq!(a.data, SingleEditResult::Success("更新成功".into()));
            assert!(a.success);
        },
        other => panic!("{:?}", other),
    }
}

#[test]
fn starring_by_a_non_member() {
    let (flow, _) = star_start(SpaceKind::Project, USER, PROJECT, false);
    match star_step(flow, Err(DbError::RowNotFound)).1 {
        RouteStep::Answer(Ok(a)) => {
            assert_eq!(a.data, SingleEditResult::Fail("no this project".into()));
            assert_eq!((a.msg.as_str(), a.success, a.status), ("", false, RtStatus::Fail));
        },
        other => panic!("{:?}", other),
    }
    let (flow, _) = star_start(SpaceKind::Project, USER, PROJECT, false);
    assert_eq!(star_step(flow, Err(DbError::Other("x".into()))).1, RouteStep::Answer(Err(HttpStatus::InternalServerError)));
}

fn item(id: Option<i32>) -> WorkItem {
    WorkItem {
        id,
        project_id: PROJECT.to_string(),
        name: "Fix".to_string(),
        item_type: Some(2),
        status: None,
        principal: Some(USER.to_string()),
        create_time: None,
        father_item: Some(-3),
        priority: Some(1),
    }
}

#[test]
fn new_work_item() {
    let (flow, st) = work_item_start(item(None), 1_546_300_800);
    assert_eq!(st.sql, "alter table public.work_item alter column id set default NEXTVAL('work_item_abcdefab_cdef_abcd_efab_cdefabcdefab_id_seq')");
    assert_eq!(flow.stage, WriteStage::Preparing);
    let (flow, step) = write_step(flow, Ok(()));
    let st = match step {
        Step::Run(st) => st,
        other => panic!("{:?}", other),
    };
    assert_eq!(st.sql, "insert into public.work_item (name, type, status, principal, create_time, father_item, priority, project_id) values ($1,$2,$3,$4,'2019-01-01 08:00:00',$5,$6,$7)");
    assert_eq!(st.args, vec![
        SqlValue::Text("Fix".into()),
        SqlValue::OptInt(Some(2)),
        SqlValue::OptInt(None),
        SqlValue::OptUuid(Some(parse_uuid(USER).unwrap())),
        SqlValue::OptInt(Some(-3)),
        SqlValue::OptInt(Some(1)),
        SqlValue::Uuid(parse_uuid(PROJECT).unwrap()),
    ]);
    let (_, step) = write_step(flow, Err(DbError::RowNotFound));
    assert_eq!(step, Step::Finish(Ok(SingleEditResult::Success("insert work item success".into()))));
}

#[test]
fn failed_preparation_ends_the_write() {
    let (flow, _) = work_item_start(item(None), 0);
    let (_, step) = write_step(flow, Err(DbError::RowNotFound));
    assert_eq!(step, Step::Finish(Err(DbError::RowNotFound)));
}

#[test]
fn updated_work_item() {
    let (flow, st) = work_item_start(item(Some(-42)), 0);
    assert_eq!(st.sql, format!("update public.work_item set name = 'Fix', type = $1, status = $2, principal = $3, father_item = $4, priority = $5 where id = '-42' and project_id = '{PROJECT}'"));
    assert_eq!(st.args.len(), 5);
    assert_eq!(flow.stage, WriteStage::Writing);
    let (_, step) = write_step(flow.clone(), Ok(()));
    assert_eq!(step, Step::Finish(Ok(SingleEditResult::Success("update work item success".into()))));
    let (_, step) = write_step(flow, Err(DbError::Other("x".into())));
    assert_eq!(step, Step::Finish(Err(DbError::Other("x".into()))));
    assert!(try_set_work_item(item(Some(1))).is_some());
}

fn star_twice_run(star: bool) -> (String, RouteStep, RouteStep) {
    let (flow, check) = star_start(SpaceKind::Project, USER, PROJECT, star);
    let (flow, first) = star_step(flow, Ok(()));
    let last = star_step(flow, Ok(())).1;
    (check.sql, first, last)
}

#[test]
fn starring_twice_is_the_same() {
    let a = star_twice_run(true);
    let b = star_twice_run(true);
    assert_eq!(a, b);
    match &a.1 {
        RouteStep::Run(st) => assert_eq!(st.args[0], SqlValue::Bool(true)),
        other => panic!("{:?}", other),
    }
    match a.2 {
        RouteStep::Answer(Ok(d)) => assert_eq!(d.data, SingleEditResult::Success("更新成功".into())),
        other => panic!("{:?}", other),
    }
}

#[test]
fn project_answers_carry_their_messages() {
    let a = projects_answer(Ok(3)).unwrap();
    assert_eq!(a.msg, "get all projects success");
    assert!(a.success);
    let a = deleted_answer(Ok(())).unwrap();
    assert_eq!(a.msg, "delete project success");
    let a = partners_answer(Ok(())).unwrap();
    assert_eq!(a.msg, "get all partners success!");
    assert_eq!(projects_answer::<u8>(Err(DbError::RowNotFound)), Err(HttpStatus::InternalServerError));
    assert_eq!(spaces_answer(Ok(1)).unwrap().msg, "get all space success");
    assert_eq!(spaces_answer::<u8>(Err(DbError::Other("x".into()))), Err(HttpStatus::InternalServerError));
}
