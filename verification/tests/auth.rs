use gd_backend::auth::db_service::{
    edit_user_result, edit_user_statement, get_user_msg, password_digest, register_needs_time, register_start, register_step,
    select_partners, select_partners_statement, try_register_user, RegisterStage,
};
use gd_backend::auth::route::{edit_answer, handle_register_res, login_answer};
use gd_backend::auth::token::{token_claims, token_expiry};
use gd_backend::auth::{AddUser, MoreUser, RegisterResult, RegisterUser, User, UserCollector, UserGetter};
use gd_backend::db::{DbError, FetchMode, SqlValue, Step};
use gd_backend::types::{HttpStatus, RtStatus, SignData, SingleEditResult};
use gd_backend::uuid_text::parse_uuid;

const ORG: &str = "11111111-2222-3333-4444-555555555555";
const USER_ID: [u8; 16] = [0xaa; 16];
const NEW_ORG: [u8; 16] = [0x0f; 16];
const USER_TEXT: &str = "aaaaaaaa-aaaa-aaaa-aaaa-aaaaaaaaaaaa";
const NEW_ORG_TEXT: &str = "0f0f0f0f-0f0f-0f0f-0f0f-0f0f0f0f0f0f";

fn member(phone: Option<&str>, email: Option<&str>) -> AddUser {
    AddUser {
        name: "Ann".to_string(),
        pwd: "123456".to_string(),
        organization: ORG.to_string(),
        phone: phone.map(|s| s.to_string()),
        email: email.map(|s| s.to_string()),
        work_id: Some("W7".to_string()),
        gender: None,
    }
}

fn creator() -> RegisterUser {
    RegisterUser {
        phone: "13800000000".to_string(),
        name: "Bo".to_string(),
        pwd: "123456".to_string(),
        organization: "Acme".to_string(),
    }
}

#[test]
fn md5_of_passwords() {
    assert_eq!(password_digest("123456"), "e10adc3949ba59abbe56e057f20f883e");
    assert_eq!(password_digest(""), "d41d8cd98f00b204e9800998ecf8427e");
    assert_eq!(password_digest("密码"), "a8105204604a0b11e916f3879aae3b0b");
}

#[test]
fn member_check_looks_up_phone_first() {
    let (flow, st) = register_start(MoreUser::Add(member(Some("139"), Some("a@b.c"))), USER_ID, NEW_ORG, 0);
    assert_eq!(st.sql, "select * from public.user where phone = '139' limit 1");
    assert!(st.args.is_empty());
    assert_eq!(st.mode, FetchMode::FetchOne);
    assert_eq!(flow.stage, RegisterStage::CheckingAccount);
    assert_eq!(flow.org_id, parse_uuid(ORG).unwrap());
    assert_eq!(flow.now, 0);
}

#[test]
fn member_check_by_email_or_nothing() {
    let (_, st) = register_start(MoreUser::Add(member(None, Some("a@b.c"))), USER_ID, NEW_ORG, 0);
    assert_eq!(st.sql, "select * from public.user where email = 'a@b.c' limit 1");
    let (_, st) = register_start(MoreUser::Add(member(None, None)), USER_ID, NEW_ORG, 0);
    assert_eq!(st.sql, "");
}

#[test]
fn existing_account_is_not_registered_again() {
    let (flow, _) = register_start(MoreUser::Add(member(Some("139"), None)), USER_ID, NEW_ORG, 0);
    let (_, step) = register_step(flow, Ok(None));
    assert_eq!(step, Step::Finish(Ok(RegisterResult::Exist("email or phone had been registered!".to_string()))));
}

#[test]
fn failed_account_check_ends_registration() {
    let (flow, _) = register_start(MoreUser::Create(creator()), USER_ID, NEW_ORG, 0);
    let (_, step) = register_step(flow, Err(DbError::Other("down".to_string())));
    assert_eq!(step, Step::Finish(Err(DbError::Other("down".to_string()))));
}

#[test]
fn member_registration_runs_to_success() {
    let (flow, _) = register_start(MoreUser::Add(member(Some("139"), None)), USER_ID, NEW_ORG, 0);
    let (flow, step) = register_step(flow, Err(DbError::RowNotFound));
    let st = match step {
        Step::Run(st) => st,
        other => panic!("{:?}", other),
    };
    assert_eq!(st.sql, "\n                        INSERT INTO public.user (id, name, pwd, phone,\n                        gender, email,organization, work_id, create_time, role)\n                        VALUES ($1, $2, $3, $4, $5, $6, $7, $8, '1970-01-01 08:00:00',$9)\n                        ");
    assert_eq!(st.args, vec![
        SqlValue::Uuid(USER_ID),
        SqlValue::Text("Ann".to_string()),
        SqlValue::Text("e10adc3949ba59abbe56e057f20f883e".to_string()),
        SqlValue::OptText(Some("139".to_string())),
        SqlValue::OptText(None),
        SqlValue::OptText(None),
        SqlValue::Uuid(parse_uuid(ORG).unwrap()),
        SqlValue::OptText(Some("W7".to_string())),
        SqlValue::Int(1),
    ]);
    assert_eq!(st.mode, FetchMode::Execute);
    assert_eq!(flow.stage, RegisterStage::AddingMember);
    let (flow, step) = register_step(flow, Ok(None));
    let st = match step {
        Step::Run(st) => st,
        other => panic!("{:?}", other),
    };
    assert_eq!(st.sql, "select u.organization org_id, org.name org_name from public.user u left join public.organization org on u.organization = org.id where u.id = $1 ");
    assert_eq!(st.args, vec![SqlValue::Uuid(USER_ID)]);
    let (_, step) = register_step(flow, Ok(Some((parse_uuid(ORG).unwrap(), "Acme".to_string()))));
    assert_eq!(step, Step::Finish(Ok(RegisterResult::Success(SignData {
        name: "Ann".to_string(),
        id: USER_TEXT.to_string(),
        org_id: ORG.to_string(),
        org_name: "Acme".to_string(),
    }))));
}

#[test]
fn member_registration_without_organisation_row() {
    let (flow, _) = register_start(MoreUser::Add(member(Some("139"), None)), USER_ID, NEW_ORG, 0);
    let (flow, _) = register_step(flow, Err(DbError::RowNotFound));
    let (flow, _) = register_step(flow, Ok(None));
    let (_, step) = register_step(flow, Err(DbError::RowNotFound));
    assert_eq!(step, Step::Finish(Ok(RegisterResult::Success(SignData {
        name: "Ann".to_string(),
        id: USER_TEXT.to_string(),
        org_id: String::new(),
        org_name: String::new(),
    }))));
}

#[test]
fn registration_writes_the_time_only_when_inserting_the_account() {
    let (flow, _) = register_start(MoreUser::Add(member(Some("139"), None)), USER_ID, NEW_ORG, 253_402_300_800);
    assert!(register_needs_time(&flow, &Err(DbError::RowNotFound)));
    assert!(!register_needs_time(&flow, &Ok(None)));
    // the account exists: answered without the time, which is out of range here
    let (_, step) = register_step(flow, Ok(None));
    assert_eq!(step, Step::Finish(Ok(RegisterResult::Exist("email or phone had been registered!".to_string()))));
    let (flow, _) = register_start(MoreUser::Create(creator()), USER_ID, NEW_ORG, 0);
    let (flow, _) = register_step(flow, Err(DbError::RowNotFound));
    assert!(register_needs_time(&flow, &Ok(None)));
}

#[test]
fn failed_member_insert_ends_registration() {
    let (flow, _) = register_start(MoreUser::Add(member(Some("139"), None)), USER_ID, NEW_ORG, 0);
    let (flow, _) = register_step(flow, Err(DbError::RowNotFound));
    let (_, step) = register_step(flow, Err(DbError::RowNotFound));
    assert_eq!(step, Step::Finish(Err(DbError::RowNotFound)));
}

#[test]
fn creator_registration_runs_to_success() {
    let (flow, st) = register_start(MoreUser::Create(creator()), USER_ID, NEW_ORG, 1_546_300_800);
    assert_eq!(st.sql, "select * from public.user where phone = '13800000000' limit 1");
    let (flow, step) = register_step(flow, Err(DbError::RowNotFound));
    let st = match step {
        Step::Run(st) => st,
        other => panic!("{:?}", other),
    };
    assert_eq!(st.sql, "insert into public.organization values($1,$2)");
    assert_eq!(st.args, vec![SqlValue::Uuid(NEW_ORG), SqlValue::Text("Acme".to_string())]);
    assert_eq!(flow.stage, RegisterStage::AddingOrganization);
    let (flow, step) = register_step(flow, Ok(None));
    let st = match step {
        Step::Run(st) => st,
        other => panic!("{:?}", other),
    };
    assert_eq!(st.sql, format!(
        "insert into public.user (id,name,pwd,phone,create_time,organization,role) values ('{}','Bo','e10adc3949ba59abbe56e057f20f883e','13800000000','2019-01-01 08:00:00','{}','0')",
        USER_TEXT, NEW_ORG_TEXT));
    assert_eq!(st.mode, FetchMode::FetchOne);
    // an insert fetched as one row reports no row: still a registration
    let (_, step) = register_step(flow, Err(DbError::RowNotFound));
    assert_eq!(step, Step::Finish(Ok(RegisterResult::Success(SignData {
        name: "Bo".to_string(),
        id: USER_TEXT.to_string(),
        org_id: NEW_ORG_TEXT.to_string(),
        org_name: "Acme".to_string(),
    }))));
}

#[test]
fn failed_organisation_insert_ends_registration() {
    let (flow, _) = register_start(MoreUser::Create(creator()), USER_ID, NEW_ORG, 0);
    let (flow, _) = register_step(flow, Err(DbError::RowNotFound));
    let (_, step) = register_step(flow, Err(DbError::Other("dup".to_string())));
    assert_eq!(step, Step::Finish(Err(DbError::Other("dup".to_string()))));
}

#[test]
fn registration_with_fresh_ids_starts_with_the_check() {
    let (flow, st) = try_register_user(MoreUser::Create(creator()));
    assert_eq!(flow.stage, RegisterStage::CheckingAccount);
    assert_eq!(st.sql, "select * from public.user where phone = '13800000000' limit 1");
    assert_eq!(flow.user_id[6] >> 4, 4);
    assert!(flow.now > 1_600_000_000);
    assert_eq!(flow.org_id[6] >> 4, 4);
}

#[test]
fn registration_answers() {
    let sign = SignData { name: "n".into(), id: "i".into(), org_id: "o".into(), org_name: "on".into() };
    let ok = handle_register_res(Ok(RegisterResult::Success(sign.clone()))).unwrap();
    assert_eq!(ok.data, RegisterResult::Success(sign));
    assert_eq!(ok.msg, "register success");
    assert!(ok.success);
    assert_eq!(ok.status, RtStatus::Success);
    let exist = handle_register_res(Ok(RegisterResult::Exist("taken".into()))).unwrap();
    assert_eq!(exist.data, RegisterResult::Exist("user already exist".into()));
    assert_eq!(exist.msg, "taken");
    assert!(!exist.success);
    assert_eq!(exist.status, RtStatus::Fail);
    assert_eq!(handle_register_res(Err(DbError::RowNotFound)), Err(HttpStatus::InternalServerError));
}

#[test]
fn token_goes_only_with_a_new_account() {
    let sign = SignData { name: "n".into(), id: "i".into(), org_id: "o".into(), org_name: "on".into() };
    assert_eq!(RegisterResult::Success(sign).token_subject().map(|s| s.as_str()), Some("i"));
    assert_eq!(RegisterResult::Exist("x".into()).token_subject(), None);
}

#[test]
fn login_lookup_statement() {
    let st = get_user_msg("a@b.c", "123456", true);
    assert_eq!(st.sql, "select u.*,org.name org_name from public.user u left join public.organization org on u.organization = org.id where pwd = 'e10adc3949ba59abbe56e057f20f883e' and email = 'a@b.c'");
    let st = get_user_msg("139", "123456", false);
    assert!(st.sql.ends_with("and phone = '139'"));
    assert_eq!(st.mode, FetchMode::FetchOne);
}

#[test]
fn login_answers() {
    let ok = login_answer(Ok(Some(7u8))).unwrap();
    assert_eq!((ok.data, ok.msg.as_str(), ok.success, ok.status), (7, "login success", true, RtStatus::Success));
    assert_eq!(login_answer::<u8>(Ok(None)), Err(HttpStatus::InternalServerError));
    assert_eq!(login_answer::<u8>(Err(DbError::RowNotFound)), Err(HttpStatus::BadRequest));
    assert_eq!(login_answer::<u8>(Err(DbError::Other("x".into()))), Err(HttpStatus::InternalServerError));
}

fn edit(name: Option<&str>, pwd: Option<&str>, email: Option<&str>) -> User {
    User {
        id: ORG.to_string(),
        name: name.map(|s| s.to_string()),
        pwd: pwd.map(|s| s.to_string()),
        phone: None,
        gender: None,
        email: email.map(|s| s.to_string()),
        avatar: None,
        background: None,
        work_id: None,
    }
}

#[test]
fn profile_edit_statements() {
    let st = edit_user_statement(edit(Some("Ann"), Some("123456"), Some("a@b.c")), true, true, true);
    assert_eq!(st.sql, "update public.user set name = $1,pwd = $2,email = $5 where id = $9");
    assert_eq!(st.args.len(), 9);
    assert_eq!(st.args[1], SqlValue::OptText(Some("e10adc3949ba59abbe56e057f20f883e".to_string())));
    assert_eq!(st.args[8], SqlValue::Uuid(parse_uuid(ORG).unwrap()));
    assert_eq!(st.mode, FetchMode::Execute);
    // a rejected name is still bound, but not assigned
    let st = edit_user_statement(edit(Some("Ann"), None, None), false, true, true);
    assert_eq!(st.sql, "update public.user set  where id = $9");
    assert_eq!(st.args[0], SqlValue::OptText(Some("Ann".to_string())));
    let st = edit_user_statement(edit(None, None, Some("a@b.c")), true, true, false);
    assert_eq!(st.sql, "update public.user set  where id = $9");
}

#[test]
fn profile_edit_results_and_answers() {
    assert_eq!(edit_user_result(Ok(())), Ok(SingleEditResult::Success("更新用户信息成功".to_string())));
    assert_eq!(edit_user_result(Err(DbError::RowNotFound)), Err(DbError::RowNotFound));
    let a = edit_answer(Ok(SingleEditResult::Success("x".into()))).unwrap();
    assert_eq!((a.msg.as_str(), a.success, a.status), ("", true, RtStatus::Success));
    assert_eq!(edit_answer(Err(DbError::RowNotFound)), Err(HttpStatus::InternalServerError));
}

#[test]
fn partner_listing() {
    let st = select_partners_statement(ORG);
    assert_eq!(st.sql, "select * from public.user where organization = $1");
    assert_eq!(st.mode, FetchMode::FetchAll);
    let g = UserGetter {
        id: "i".into(), name: "n".into(), phone: None, gender: None, email: None, work_id: None,
        avatar: None, background: None, create_time: None, role: Some(1),
    };
    assert_eq!(select_partners(Ok(vec![g.clone()])), Ok(UserCollector { collector: vec![g] }));
    assert_eq!(select_partners(Err(DbError::RowNotFound)), Err(DbError::RowNotFound));
}

#[test]
fn add_user_field_views() {
    let (name, pwd, email, phone) = member(None, None).credentials();
    assert_eq!((name.as_str(), pwd.as_str(), email.as_str(), phone.as_str()), ("Ann", "123456", "", ""));
    let (_, _, email, phone) = member(Some("139"), Some("a@b.c")).credentials();
    assert_eq!((email.as_str(), phone.as_str()), ("a@b.c", "139"));
    let fields = member(Some("139"), None).into_fields();
    assert_eq!(fields.2, ORG);
    assert_eq!(fields.3.as_deref(), Some("139"));
    assert_eq!(creator().into_fields(), ("Bo".to_string(), "123456".to_string(), "13800000000".to_string(), "Acme".to_string()));
}

#[test]
fn token_claims_and_expiry() {
    assert_eq!(token_expiry(604_800, 1_000), 605_800);
    let t = token_claims("u".to_string(), 9);
    assert_eq!((t.id.as_str(), t.exp), ("u", 9));
}
