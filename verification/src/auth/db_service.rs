//! The account statements, and the registration flow that runs them.
use vstd::prelude::*;
use crate::auth::{AddUser, MoreUser, RegisterResult, RegisterUser, User, UserCollector, UserGetter};
use crate::db::{opt_text, DbError, DbQueryResult, FetchMode, SqlArg, SqlValue, Statement, Step, plain_statement};
use crate::text::{hex_digit, hex_lower, push_hex};
use crate::types::{SignData, SingleEditResult};
use crate::state::current_timestamp;
use crate::utils::{timestamp_in_range, timestamp_text, timestamp_to_date};
use crate::uuid_text::{lemma_hex_digit_value, lemma_hex_lower_shape, new_random_uuid, parse_uuid, parse_uuid_text, uuid_text, uuid_to_string};

verus! {

/// The MD5 digest of the UTF-8 bytes of a text, as the `md5` crate computes it.
pub uninterp spec fn md5_digest(text: Seq<char>) -> Seq<u8>;

/// Calls `md5::compute` on the bytes of `text` and hands back the digest.
/// Trusted: the digest is a function of the text alone (named `md5_digest`),
/// sixteen bytes long.
#[verifier::external_body]
fn md5_compute(text: &str) -> (d: [u8; 16])
    ensures
        d@ == md5_digest(text@),
{
    md5::compute(text).0
}

/// How passwords are stored: the MD5 digest in lower-case hexadecimal, as
/// `format!("{:x}", md5::compute(pwd))` writes it.
pub open spec fn password_hash(pwd: Seq<char>) -> Seq<char> {
    hex_lower(md5_digest(pwd))
}

/// Thirty-two lower-case hexadecimal digits.
pub open spec fn is_md5_hex(t: Seq<char>) -> bool {
    &&& t.len() == 32
    &&& forall|i: int| 0 <= i < 32 ==> ('0' <= #[trigger] t[i] <= '9') || ('a' <= t[i] <= 'f')
}

/// The stored form of a password: always thirty-two lower-case hexadecimal
/// digits.
pub fn password_digest(pwd: &str) -> (res: String)
    ensures
        res@ == password_hash(pwd@),
        is_md5_hex(res@),
{
    let d = md5_compute(pwd);
    let mut res = String::new();
    push_hex(&mut res, d.as_slice(), 0, 16);
    assert(d@.subrange(0, 16) =~= d@);
    proof {
        let h = hex_lower(d@);
        lemma_hex_lower_shape(d@);
        assert forall|i: int| 0 <= i < 32 implies ('0' <= #[trigger] h[i] <= '9') || ('a' <= h[i] <= 'f') by {
            let k = i / 2;
            if i % 2 == 0 {
                assert(h[2 * k] == hex_digit((d@[k] / 16) as nat));
                lemma_hex_digit_value((d@[k] / 16) as nat);
            } else {
                assert(h[2 * k + 1] == hex_digit((d@[k] % 16) as nat));
                lemma_hex_digit_value((d@[k] % 16) as nat);
            }
        }
    }
    res
}

fn clone_opt_string(o: &Option<String>) -> (r: Option<String>)
    ensures
        r == *o,
{
    match o {
        Some(s) => Some(s.clone()),
        None => None,
    }
}

/// `select * from public.user where <column> = '<value>' limit 1`.
pub open spec fn account_lookup_sql(by_email: bool, value: Seq<char>) -> Seq<char> {
    if by_email {
        "select * from public.user where email = '"@ + value + "' limit 1"@
    } else {
        "select * from public.user where phone = '"@ + value + "' limit 1"@
    }
}

fn account_lookup(by_email: bool, value: &str) -> (res: String)
    ensures
        res@ == account_lookup_sql(by_email, value@),
{
    let mut res = if by_email {
        String::from_str("select * from public.user where email = '")
    } else {
        String::from_str("select * from public.user where phone = '")
    };
    res.append(value);
    res.append("' limit 1");
    res
}

/// The lookup that tells whether a member's phone (or, without a phone, email)
/// is taken; empty where the member gave neither.
pub open spec fn member_check_sql(user: AddUser) -> Seq<char> {
    match user.phone {
        Some(p) => account_lookup_sql(false, p@),
        None => match user.email {
            Some(e) => account_lookup_sql(true, e@),
            None => Seq::empty(),
        },
    }
}

/// The insert of a member, its creation time written into the text.
pub open spec fn insert_member_sql(create_time: Seq<char>) -> Seq<char> {
    "
                        INSERT INTO public.user (id, name, pwd, phone,
                        gender, email,organization, work_id, create_time, role)
                        VALUES ($1, $2, $3, $4, $5, $6, $7, $8, '"@ + create_time + "',$9)
                        "@
}

/// The values of the member insert: id, name, stored password, phone, gender,
/// email, organisation, work id, and role 1.
pub open spec fn insert_member_args(user: AddUser, id: Seq<u8>, org: Seq<u8>) -> Seq<SqlArg> {
    seq![
        SqlArg::Uuid(id),
        SqlArg::Text(user.name@),
        SqlArg::Text(password_hash(user.pwd@)),
        SqlArg::OptText(opt_text(user.phone)),
        SqlArg::OptText(opt_text(user.gender)),
        SqlArg::OptText(opt_text(user.email)),
        SqlArg::Uuid(org),
        SqlArg::OptText(opt_text(user.work_id)),
        SqlArg::Int(1),
    ]
}

pub open spec fn organization_of_user_sql() -> Seq<char> {
    "select u.organization org_id, org.name org_name from public.user u left join public.organization org on u.organization = org.id where u.id = $1 "@
}

pub open spec fn insert_organization_sql() -> Seq<char> {
    "insert into public.organization values($1,$2)"@
}

/// The insert of an organisation's first member (role 0), every value written
/// into the text.
pub open spec fn insert_creator_sql(creator: RegisterUser, id: Seq<u8>, org: Seq<u8>, create_time: Seq<char>) -> Seq<char> {
    "insert into public.user (id,name,pwd,phone,create_time,organization,role) values ("@
        + "'"@ + uuid_text(id) + "','"@ + creator.name@ + "','"@ + password_hash(creator.pwd@)
        + "','"@ + creator.phone@ + "','"@ + create_time + "','"@ + uuid_text(org) + "','0')"@
}



/// Where a registration stands.
#[derive(Debug, Clone, Copy, PartialEq, Eq, Structural)]
pub enum RegisterStage {
    /// Looking for an account with the same phone (or email).
    CheckingAccount,
    /// Inserting a member of an existing organisation.
    AddingMember,
    /// Reading back the new member's organisation.
    ReadingOrganization,
    /// Inserting the new organisation.
    AddingOrganization,
    /// Inserting the organisation's first member.
    AddingCreator,
}

/// A registration in progress.
#[derive(Debug, Clone, PartialEq, Eq)]
pub struct RegisterFlow {
    pub request: MoreUser,
    /// The id of the new account.
    pub user_id: [u8; 16],
    /// The organisation: the one named by the request, or a new one.
    pub org_id: [u8; 16],
    /// The Unix time of the registration; written into the database as the
    /// creation time.
    pub now: u64,
    pub stage: RegisterStage,
}

/// What a reply to one of the registration's statements carries: nothing, or
/// (for the organisation read-back) the organisation's id and name.
pub type RegisterReply = DbQueryResult<Option<([u8; 16], String)>>;

/// A request that the registration accepts: a member names its organisation
/// by a UUID.
pub open spec fn register_request_ok(request: MoreUser) -> bool {
    request matches MoreUser::Add(user) ==> parse_uuid_text(user.organization@) is Some
}

/// The first statement of a registration.
pub open spec fn register_first_statement(flow: RegisterFlow, st: Statement) -> bool {
    match flow.request {
        MoreUser::Add(user) => st.is(member_check_sql(user), Seq::empty(), FetchMode::FetchOne),
        MoreUser::Create(creator) => st.is(account_lookup_sql(false, creator.phone@), Seq::empty(), FetchMode::FetchOne),
    }
}

/// The answer that the account already exists.
pub open spec fn is_already_registered(r: DbQueryResult<RegisterResult>) -> bool {
    r matches Ok(RegisterResult::Exist(m)) && m@ == "email or phone had been registered!"@
}

/// The answer of a successful registration.
pub open spec fn is_registered(r: DbQueryResult<RegisterResult>, name: Seq<char>, id: Seq<u8>, org_id: Seq<char>, org_name: Seq<char>) -> bool {
    r matches Ok(RegisterResult::Success(d)) && d.name@ == name && d.id@ == uuid_text(id)
        && d.org_id@ == org_id && d.org_name@ == org_name
}

pub open spec fn same_flow_but_stage(a: RegisterFlow, b: RegisterFlow, stage: RegisterStage) -> bool {
    &&& b.request == a.request
    &&& b.user_id == a.user_id
    &&& b.org_id == a.org_id
    &&& b.now == a.now
    &&& b.stage == stage
}

/// One step of a registration: from the stage and the reply to its statement,
/// the next stage and what to do.
pub open spec fn register_transition(flow: RegisterFlow, reply: RegisterReply, next: RegisterFlow, step: Step<RegisterResult>) -> bool {
    match flow.stage {
        RegisterStage::CheckingAccount => match reply {
            Ok(_) => step matches Step::Finish(r) && is_already_registered(r),
            Err(DbError::Other(e)) => step == Step::<RegisterResult>::Finish(Err(DbError::Other(e))),
            Err(DbError::RowNotFound) => match flow.request {
                MoreUser::Add(user) => same_flow_but_stage(flow, next, RegisterStage::AddingMember)
                    && (step matches Step::Run(st) && st.is(insert_member_sql(timestamp_text(flow.now)),
                        insert_member_args(user, flow.user_id@, flow.org_id@), FetchMode::Execute)),
                MoreUser::Create(creator) => same_flow_but_stage(flow, next, RegisterStage::AddingOrganization)
                    && (step matches Step::Run(st) && st.is(insert_organization_sql(),
                        seq![SqlArg::Uuid(flow.org_id@), SqlArg::Text(creator.organization@)], FetchMode::Execute)),
            },
        },
        RegisterStage::AddingMember => match reply {
            Ok(_) => same_flow_but_stage(flow, next, RegisterStage::ReadingOrganization)
                && (step matches Step::Run(st) && st.is(organization_of_user_sql(),
                    seq![SqlArg::Uuid(flow.user_id@)], FetchMode::FetchOne)),
            Err(e) => step == Step::<RegisterResult>::Finish(Err(e)),
        },
        RegisterStage::ReadingOrganization => match flow.request {
            MoreUser::Add(user) => match reply {
                Ok(Some((org, org_name))) => is_registered(step->Finish_0, user.name@, flow.user_id@, uuid_text(org@), org_name@)
                    && step is Finish,
                _ => is_registered(step->Finish_0, user.name@, flow.user_id@, Seq::empty(), Seq::empty())
                    && step is Finish,
            },
            MoreUser::Create(_) => step is Finish,
        },
        RegisterStage::AddingOrganization => match flow.request {
            MoreUser::Create(creator) => match reply {
                Ok(_) => same_flow_but_stage(flow, next, RegisterStage::AddingCreator)
                    && (step matches Step::Run(st) && st.is(insert_creator_sql(creator, flow.user_id@, flow.org_id@, timestamp_text(flow.now)),
                        Seq::empty(), FetchMode::FetchOne)),
                Err(e) => step == Step::<RegisterResult>::Finish(Err(e)),
            },
            MoreUser::Add(_) => step is Finish,
        },
        RegisterStage::AddingCreator => match flow.request {
            MoreUser::Create(creator) => match reply {
                Err(DbError::Other(e)) => step == Step::<RegisterResult>::Finish(Err(DbError::Other(e))),
                _ => step is Finish && is_registered(step->Finish_0, creator.name@, flow.user_id@,
                    uuid_text(flow.org_id@), creator.organization@),
            },
            MoreUser::Add(_) => step is Finish,
        },
    }
}

/// How far a registration has come: the number of its statements that
/// have been answered.
pub open spec fn register_stage_rank(stage: RegisterStage) -> int {
    match stage {
        RegisterStage::CheckingAccount => 0,
        RegisterStage::AddingMember => 1,
        RegisterStage::AddingOrganization => 1,
        RegisterStage::ReadingOrganization => 2,
        RegisterStage::AddingCreator => 2,
    }
}

/// The stage a flow of this kind starts in is checking the account; the
/// flow's stage is one its request passes through.
pub open spec fn register_flow_ok(flow: RegisterFlow) -> bool {
    match flow.request {
        MoreUser::Add(_) => flow.stage == RegisterStage::CheckingAccount || flow.stage == RegisterStage::AddingMember
            || flow.stage == RegisterStage::ReadingOrganization,
        MoreUser::Create(_) => flow.stage == RegisterStage::CheckingAccount || flow.stage == RegisterStage::AddingOrganization
            || flow.stage == RegisterStage::AddingCreator,
    }
}

/// Whether the step from this reply writes the account's creation time: the
/// member insert after an account check that found no row, and the creator
/// insert after the organisation was inserted.
pub open spec fn register_writes_time(flow: RegisterFlow, reply: RegisterReply) -> bool {
    ||| flow.stage == RegisterStage::CheckingAccount && reply == Err::<Option<([u8; 16], String)>, DbError>(DbError::RowNotFound)
    ||| flow.stage == RegisterStage::AddingOrganization && reply is Ok
}

/// Whether the step from this reply writes the account's creation time.
pub fn register_needs_time(flow: &RegisterFlow, reply: &RegisterReply) -> (r: bool)
    ensures
        r == register_writes_time(*flow, *reply),
{
    match (flow.stage, reply) {
        (RegisterStage::CheckingAccount, Err(DbError::RowNotFound)) => true,
        (RegisterStage::AddingOrganization, Ok(_)) => true,
        _ => false,
    }
}

/// Starts a registration: the new account's id, the id a new organisation
/// would get, and the current Unix time come from the caller.
pub fn register_start(request: MoreUser, user_id: [u8; 16], new_org_id: [u8; 16], now: u64) -> (res: (RegisterFlow, Statement))
    requires
        register_request_ok(request),
    ensures
        res.0.request == request,
        res.0.user_id == user_id,
        res.0.org_id@ == match request {
            MoreUser::Add(user) => parse_uuid_text(user.organization@)->0,
            MoreUser::Create(_) => new_org_id@,
        },
        res.0.now == now,
        res.0.stage == RegisterStage::CheckingAccount,
        register_flow_ok(res.0),
        register_first_statement(res.0, res.1),
{
    match request {
        MoreUser::Add(user) => {
            let org = match parse_uuid(user.organization.as_str()) {
                Some(b) => b,
                None => {
                    proof { assert(false); }
                    new_org_id
                },
            };
            let sql = match &user.phone {
                Some(p) => account_lookup(false, p.as_str()),
                None => match &user.email {
                    Some(e) => account_lookup(true, e.as_str()),
                    None => String::new(),
                },
            };
            let st = plain_statement(sql, FetchMode::FetchOne);
            let flow = RegisterFlow { request: MoreUser::Add(user), user_id, org_id: org, now, stage: RegisterStage::CheckingAccount };
            (flow, st)
        },
        MoreUser::Create(creator) => {
            let sql = account_lookup(false, creator.phone.as_str());
            let st = plain_statement(sql, FetchMode::FetchOne);
            let flow = RegisterFlow { request: MoreUser::Create(creator), user_id, org_id: new_org_id, now, stage: RegisterStage::CheckingAccount };
            (flow, st)
        },
    }
}

/// Starts a registration with a fresh random account id (and organisation
/// id), taking the current time from the clock.
pub fn try_register_user(request: MoreUser) -> (res: (RegisterFlow, Statement))
    requires
        register_request_ok(request),
    ensures
        res.0.request == request,
        res.0.stage == RegisterStage::CheckingAccount,
        register_flow_ok(res.0),
        register_first_statement(res.0, res.1),
        res.0.user_id[6] / 16 == 4 && res.0.user_id[8] / 64 == 2,
        request is Create ==> res.0.org_id[6] / 16 == 4 && res.0.org_id[8] / 64 == 2,
        request matches MoreUser::Add(user) ==> res.0.org_id@ == parse_uuid_text(user.organization@)->0,
{
    let user_id = new_random_uuid();
    let org_id = new_random_uuid();
    let now = current_timestamp();
    register_start(request, user_id, org_id, now)
}

fn insert_member_statement(user: &AddUser, id: &[u8; 16], org: &[u8; 16], create_time: &str) -> (st: Statement)
    ensures
        st.is(insert_member_sql(create_time@), insert_member_args(*user, id@, org@), FetchMode::Execute),
{
    let mut sql = String::from_str("
                        INSERT INTO public.user (id, name, pwd, phone,
                        gender, email,organization, work_id, create_time, role)
                        VALUES ($1, $2, $3, $4, $5, $6, $7, $8, '");
    sql.append(create_time);
    sql.append("',$9)
                        ");
    let mut args: Vec<SqlValue> = Vec::new();
    args.push(SqlValue::Uuid(*id));
    args.push(SqlValue::Text(user.name.clone()));
    args.push(SqlValue::Text(password_digest(user.pwd.as_str())));
    args.push(SqlValue::OptText(clone_opt_string(&user.phone)));
    args.push(SqlValue::OptText(clone_opt_string(&user.gender)));
    args.push(SqlValue::OptText(clone_opt_string(&user.email)));
    args.push(SqlValue::Uuid(*org));
    args.push(SqlValue::OptText(clone_opt_string(&user.work_id)));
    args.push(SqlValue::Int(1));
    let st = Statement { sql, args, mode: FetchMode::Execute };
    assert(st.args@.map_values(|v: SqlValue| v@) =~= insert_member_args(*user, id@, org@));
    st
}

fn insert_creator_statement(creator: &RegisterUser, id: &[u8; 16], org: &[u8; 16], create_time: &str) -> (st: Statement)
    ensures
        st.is(insert_creator_sql(*creator, id@, org@, create_time@), Seq::empty(), FetchMode::FetchOne),
{
    let mut sql = String::from_str("insert into public.user (id,name,pwd,phone,create_time,organization,role) values (");
    sql.append("'");
    sql.append(uuid_to_string(id).as_str());
    sql.append("','");
    sql.append(creator.name.as_str());
    sql.append("','");
    sql.append(password_digest(creator.pwd.as_str()).as_str());
    sql.append("','");
    sql.append(creator.phone.as_str());
    sql.append("','");
    sql.append(create_time);
    sql.append("','");
    sql.append(uuid_to_string(org).as_str());
    sql.append("','0')");
    plain_statement(sql, FetchMode::FetchOne)
}

fn registered(name: &String, id: &[u8; 16], org_id: String, org_name: String) -> (r: DbQueryResult<RegisterResult>)
    ensures
        is_registered(r, name@, id@, org_id@, org_name@),
{
    Ok(RegisterResult::Success(SignData { name: name.clone(), id: uuid_to_string(id), org_id, org_name }))
}

/// Takes a registration one step on, from the reply to its last statement.
pub fn register_step(flow: RegisterFlow, reply: RegisterReply) -> (res: (RegisterFlow, Step<RegisterResult>))
    requires
        register_flow_ok(flow),
        register_writes_time(flow, reply) ==> timestamp_in_range(flow.now),
    ensures
        register_transition(flow, reply, res.0, res.1),
        res.1 is Run ==> register_flow_ok(res.0),
        res.1 is Run ==> register_stage_rank(res.0.stage) == register_stage_rank(flow.stage) + 1,
        register_stage_rank(flow.stage) == 2 ==> res.1 is Finish,
{
    let RegisterFlow { request, user_id, org_id, now, stage } = flow;
    match stage {
        RegisterStage::CheckingAccount => match reply {
            Ok(_) => {
                let next = RegisterFlow { request, user_id, org_id, now, stage };
                (next, Step::Finish(Ok(RegisterResult::Exist(String::from_str("email or phone had been registered!")))))
            },
            Err(DbError::Other(e)) => {
                let next = RegisterFlow { request, user_id, org_id, now, stage };
                (next, Step::Finish(Err(DbError::Other(e))))
            },
            Err(DbError::RowNotFound) => match request {
                MoreUser::Add(user) => {
                    let st = insert_member_statement(&user, &user_id, &org_id, timestamp_to_date(now).as_str());
                    let next = RegisterFlow { request: MoreUser::Add(user), user_id, org_id, now, stage: RegisterStage::AddingMember };
                    (next, Step::Run(st))
                },
                MoreUser::Create(creator) => {
                    let mut args: Vec<SqlValue> = Vec::new();
                    args.push(SqlValue::Uuid(org_id));
                    args.push(SqlValue::Text(creator.organization.clone()));
                    let st = Statement { sql: String::from_str("insert into public.organization values($1,$2)"), args, mode: FetchMode::Execute };
                    assert(st.args@.map_values(|v: SqlValue| v@) =~= seq![SqlArg::Uuid(org_id@), SqlArg::Text(creator.organization@)]);
                    let next = RegisterFlow { request: MoreUser::Create(creator), user_id, org_id, now, stage: RegisterStage::AddingOrganization };
                    (next, Step::Run(st))
                },
            },
        },
        RegisterStage::AddingMember => match reply {
            Ok(_) => {
                let mut args: Vec<SqlValue> = Vec::new();
                args.push(SqlValue::Uuid(user_id));
                let st = Statement {
                    sql: String::from_str("select u.organization org_id, org.name org_name from public.user u left join public.organization org on u.organization = org.id where u.id = $1 "),
                    args,
                    mode: FetchMode::FetchOne,
                };
                assert(st.args@.map_values(|v: SqlValue| v@) =~= seq![SqlArg::Uuid(user_id@)]);
                let next = RegisterFlow { request, user_id, org_id, now, stage: RegisterStage::ReadingOrganization };
                (next, Step::Run(st))
            },
            Err(e) => {
                let next = RegisterFlow { request, user_id, org_id, now, stage };
                (next, Step::Finish(Err(e)))
            },
        },
        RegisterStage::ReadingOrganization => {
            let result = match &request {
                MoreUser::Add(user) => match reply {
                    Ok(Some((org, org_name))) => registered(&user.name, &user_id, uuid_to_string(&org), org_name),
                    _ => registered(&user.name, &user_id, String::new(), String::new()),
                },
                MoreUser::Create(_) => {
                    proof { assert(false); }
                    Err(DbError::RowNotFound)
                },
            };
            let next = RegisterFlow { request, user_id, org_id, now, stage };
            (next, Step::Finish(result))
        },
        RegisterStage::AddingOrganization => match request {
            MoreUser::Create(creator) => match reply {
                Ok(_) => {
                    let st = insert_creator_statement(&creator, &user_id, &org_id, timestamp_to_date(now).as_str());
                    let next = RegisterFlow { request: MoreUser::Create(creator), user_id, org_id, now, stage: RegisterStage::AddingCreator };
                    (next, Step::Run(st))
                },
                Err(e) => {
                    let next = RegisterFlow { request: MoreUser::Create(creator), user_id, org_id, now, stage };
                    (next, Step::Finish(Err(e)))
                },
            },
            MoreUser::Add(user) => {
                proof { assert(false); }
                let next = RegisterFlow { request: MoreUser::Add(user), user_id, org_id, now, stage };
                (next, Step::Finish(Err(DbError::RowNotFound)))
            },
        },
        RegisterStage::AddingCreator => match request {
            MoreUser::Create(creator) => {
                let result = match reply {
                    Err(DbError::Other(e)) => Err(DbError::Other(e)),
                    _ => registered(&creator.name, &user_id, uuid_to_string(&org_id), creator.organization.clone()),
                };
                let next = RegisterFlow { request: MoreUser::Create(creator), user_id, org_id, now, stage };
                (next, Step::Finish(result))
            },
            MoreUser::Add(user) => {
                proof { assert(false); }
                let next = RegisterFlow { request: MoreUser::Add(user), user_id, org_id, now, stage };
                (next, Step::Finish(Err(DbError::RowNotFound)))
            },
        },
    }
}

/// The login lookup: the account whose stored password matches and whose
/// email (or phone) is the login key, with its organisation's name.
pub open spec fn user_msg_sql(login_key: Seq<char>, pwd: Seq<char>, is_email: bool) -> Seq<char> {
    let condition = if is_email {
        "email = '"@ + login_key + "'"@
    } else {
        "phone = '"@ + login_key + "'"@
    };
    "select u.*,org.name org_name from public.user u left join public.organization org on u.organization = org.id where pwd = '"@
        + password_hash(pwd) + "' and "@ + condition
}

/// The statement that looks up the account of a login.
pub fn get_user_msg(login_key: &str, pwd: &str, is_email: bool) -> (st: Statement)
    ensures
        st.is(user_msg_sql(login_key@, pwd@, is_email), Seq::empty(), FetchMode::FetchOne),
{
    let mut sql = String::from_str("select u.*,org.name org_name from public.user u left join public.organization org on u.organization = org.id where pwd = '");
    sql.append(password_digest(pwd).as_str());
    sql.append("' and ");
    if is_email {
        sql.append("email = '");
    } else {
        sql.append("phone = '");
    }
    sql.append(login_key);
    sql.append("'");
    assert(sql@ =~= user_msg_sql(login_key@, pwd@, is_email));
    plain_statement(sql, FetchMode::FetchOne)
}

/// `s` without a final comma.
pub open spec fn drop_trailing_comma(s: Seq<char>) -> Seq<char> {
    if s.len() > 0 && s.last() == ',' { s.drop_last() } else { s }
}

pub open spec fn set_if(cond: bool, assignment: Seq<char>) -> Seq<char> {
    if cond { assignment } else { Seq::empty() }
}

/// The update of a profile: an assignment (comma after each) for each field
/// that is given and, for name, phone and email, that the validator accepted;
/// the last comma dropped; then the user's id.
pub open spec fn edit_user_sql(user: User, name_valid: bool, phone_valid: bool, email_valid: bool) -> Seq<char> {
    drop_trailing_comma("update public.user set "@
        + set_if(user.name is Some && name_valid, "name = $1,"@)
        + set_if(user.pwd is Some, "pwd = $2,"@)
        + set_if(user.phone is Some && phone_valid, "phone = $3,"@)
        + set_if(user.gender is Some, "gender = $4,"@)
        + set_if(user.email is Some && email_valid, "email = $5,"@)
        + set_if(user.avatar is Some, "avatar = $6,"@)
        + set_if(user.background is Some, "background = $7,"@)
        + set_if(user.work_id is Some, "work_id = $8,"@))
        + " where id = $9"@
}

/// Ends in a character other than a comma, and where it ends in a comma the
/// one before is none.
pub open spec fn at_most_one_final_comma(x: Seq<char>) -> bool {
    &&& x.len() >= 1
    &&& x.last() == ',' ==> x.len() >= 2 && x[x.len() - 2] != ','
}

proof fn lemma_append_assignment(x: Seq<char>, cond: bool, piece: Seq<char>)
    requires
        at_most_one_final_comma(x),
        piece.len() >= 2,
        piece.last() == ',',
        piece[piece.len() - 2] != ',',
    ensures
        at_most_one_final_comma(x + set_if(cond, piece)),
{
    if cond {
        let y = x + piece;
        assert(y.last() == piece.last());
        assert(y[y.len() - 2] == piece[piece.len() - 2]);
    } else {
        assert(x + Seq::<char>::empty() =~= x);
    }
}

pub open spec fn edit_set_text(user: User, name_valid: bool, phone_valid: bool, email_valid: bool) -> Seq<char> {
    "update public.user set "@
        + set_if(user.name is Some && name_valid, "name = $1,"@)
        + set_if(user.pwd is Some, "pwd = $2,"@)
        + set_if(user.phone is Some && phone_valid, "phone = $3,"@)
        + set_if(user.gender is Some, "gender = $4,"@)
        + set_if(user.email is Some && email_valid, "email = $5,"@)
        + set_if(user.avatar is Some, "avatar = $6,"@)
        + set_if(user.background is Some, "background = $7,"@)
        + set_if(user.work_id is Some, "work_id = $8,"@)
}

#[verifier::rlimit(30)]
proof fn lemma_edit_set_text_commas(user: User, name_valid: bool, phone_valid: bool, email_valid: bool)
    ensures
        at_most_one_final_comma(edit_set_text(user, name_valid, phone_valid, email_valid)),
{
    reveal_strlit("update public.user set ");
    reveal_strlit("name = $1,");
    reveal_strlit("pwd = $2,");
    reveal_strlit("phone = $3,");
    reveal_strlit("gender = $4,");
    reveal_strlit("email = $5,");
    reveal_strlit("avatar = $6,");
    reveal_strlit("background = $7,");
    reveal_strlit("work_id = $8,");
    let x0 = "update public.user set "@;
    let x1 = x0 + set_if(user.name is Some && name_valid, "name = $1,"@);
    lemma_append_assignment(x0, user.name is Some && name_valid, "name = $1,"@);
    let x2 = x1 + set_if(user.pwd is Some, "pwd = $2,"@);
    lemma_append_assignment(x1, user.pwd is Some, "pwd = $2,"@);
    let x3 = x2 + set_if(user.phone is Some && phone_valid, "phone = $3,"@);
    lemma_append_assignment(x2, user.phone is Some && phone_valid, "phone = $3,"@);
    let x4 = x3 + set_if(user.gender is Some, "gender = $4,"@);
    lemma_append_assignment(x3, user.gender is Some, "gender = $4,"@);
    let x5 = x4 + set_if(user.email is Some && email_valid, "email = $5,"@);
    lemma_append_assignment(x4, user.email is Some && email_valid, "email = $5,"@);
    let x6 = x5 + set_if(user.avatar is Some, "avatar = $6,"@);
    lemma_append_assignment(x5, user.avatar is Some, "avatar = $6,"@);
    let x7 = x6 + set_if(user.background is Some, "background = $7,"@);
    lemma_append_assignment(x6, user.background is Some, "background = $7,"@);
    lemma_append_assignment(x7, user.work_id is Some, "work_id = $8,"@);
}

/// A profile update never leaves a comma in front of its `where`, whichever
/// fields it assigns.
pub proof fn lemma_edit_user_sql_no_dangling_comma(user: User, name_valid: bool, phone_valid: bool, email_valid: bool)
    ensures
        edit_user_sql(user, name_valid, phone_valid, email_valid).len() > 14,
        edit_user_sql(user, name_valid, phone_valid, email_valid)[
            edit_user_sql(user, name_valid, phone_valid, email_valid).len() - 15] != ',',
{
    lemma_edit_set_text_commas(user, name_valid, phone_valid, email_valid);
    let x = edit_set_text(user, name_valid, phone_valid, email_valid);
    let d = drop_trailing_comma(x);
    assert(d.len() >= 1 && d.last() != ',');
    reveal_strlit(" where id = $9");
    let full = d + " where id = $9"@;
    assert(full == edit_user_sql(user, name_valid, phone_valid, email_valid));
    assert(full[full.len() - 15] == d.last());
}

/// All nine values are bound, whichever fields the text assigns; the password
/// goes in its stored form.
pub open spec fn edit_user_args(user: User, id: Seq<u8>) -> Seq<SqlArg> {
    seq![
        SqlArg::OptText(opt_text(user.name)),
        SqlArg::OptText(match user.pwd { Some(p) => Some(password_hash(p@)), None => None }),
        SqlArg::OptText(opt_text(user.phone)),
        SqlArg::OptText(opt_text(user.gender)),
        SqlArg::OptText(opt_text(user.email)),
        SqlArg::OptText(opt_text(user.avatar)),
        SqlArg::OptText(opt_text(user.background)),
        SqlArg::OptText(opt_text(user.work_id)),
        SqlArg::Uuid(id),
    ]
}

fn append_if(sql: &mut String, cond: bool, assignment: &str, any: bool) -> (any_after: bool)
    requires
        old(sql)@.len() > 0,
        any <==> old(sql)@.last() == ',',
        assignment@.len() > 0,
        assignment@.last() == ',',
    ensures
        final(sql)@ == old(sql)@ + set_if(cond, assignment@),
        final(sql)@.len() > 0,
        any_after <==> final(sql)@.last() == ',',
{
    if cond {
        sql.append(assignment);
        true
    } else {
        assert(old(sql)@ + Seq::<char>::empty() =~= old(sql)@);
        any
    }
}

/// `update public.user set ` and the chosen assignments, the last comma dropped.
#[verifier::rlimit(40)]
fn edit_assignment_text(name: bool, pwd: bool, phone: bool, gender: bool, email: bool, avatar: bool,
    background: bool, work_id: bool) -> (sql: String)
    ensures
        sql@ == drop_trailing_comma("update public.user set "@
            + set_if(name, "name = $1,"@) + set_if(pwd, "pwd = $2,"@) + set_if(phone, "phone = $3,"@)
            + set_if(gender, "gender = $4,"@) + set_if(email, "email = $5,"@) + set_if(avatar, "avatar = $6,"@)
            + set_if(background, "background = $7,"@) + set_if(work_id, "work_id = $8,"@)),
{
    let mut sql = String::from_str("update public.user set ");
    proof {
        reveal_strlit("update public.user set ");
        reveal_strlit("name = $1,");
        reveal_strlit("pwd = $2,");
        reveal_strlit("phone = $3,");
        reveal_strlit("gender = $4,");
        reveal_strlit("email = $5,");
        reveal_strlit("avatar = $6,");
        reveal_strlit("background = $7,");
        reveal_strlit("work_id = $8,");
    }
    let ghost start = sql@;
    let mut any = false;
    any = append_if(&mut sql, name, "name = $1,", any);
    any = append_if(&mut sql, pwd, "pwd = $2,", any);
    any = append_if(&mut sql, phone, "phone = $3,", any);
    any = append_if(&mut sql, gender, "gender = $4,", any);
    any = append_if(&mut sql, email, "email = $5,", any);
    any = append_if(&mut sql, avatar, "avatar = $6,", any);
    any = append_if(&mut sql, background, "background = $7,", any);
    any = append_if(&mut sql, work_id, "work_id = $8,", any);
    let ghost full = sql@;
    if any {
        sql.pop();
    }
    assert(full =~= start
        + set_if(name, "name = $1,"@) + set_if(pwd, "pwd = $2,"@) + set_if(phone, "phone = $3,"@)
        + set_if(gender, "gender = $4,"@) + set_if(email, "email = $5,"@) + set_if(avatar, "avatar = $6,"@)
        + set_if(background, "background = $7,"@) + set_if(work_id, "work_id = $8,"@));
    sql
}

fn edit_user_values(user: User, id: [u8; 16]) -> (args: Vec<SqlValue>)
    ensures
        args@.map_values(|v: SqlValue| v@) == edit_user_args(user, id@),
{
    let ghost u = user;
    let (name, pwd, phone, gender, email, avatar, background, work_id) = user.into_fields();
    let pwd_stored = match &pwd {
        Some(p) => Some(password_digest(p.as_str())),
        None => None,
    };
    let mut args: Vec<SqlValue> = Vec::new();
    args.push(SqlValue::OptText(name));
    args.push(SqlValue::OptText(pwd_stored));
    args.push(SqlValue::OptText(phone));
    args.push(SqlValue::OptText(gender));
    args.push(SqlValue::OptText(email));
    args.push(SqlValue::OptText(avatar));
    args.push(SqlValue::OptText(background));
    args.push(SqlValue::OptText(work_id));
    args.push(SqlValue::Uuid(id));
    assert(args@.map_values(|v: SqlValue| v@) =~= edit_user_args(u, id@));
    args
}

/// The statement of a profile edit. The validator's verdicts on the new name,
/// phone and email come from the caller; they count only for fields given.
pub fn edit_user_statement(user: User, name_valid: bool, phone_valid: bool, email_valid: bool) -> (st: Statement)
    requires
        parse_uuid_text(user.id@) is Some,
    ensures
        st.is(edit_user_sql(user, name_valid, phone_valid, email_valid),
            edit_user_args(user, parse_uuid_text(user.id@)->0), FetchMode::Execute),
{
    let id = match parse_uuid(user.id.as_str()) {
        Some(b) => b,
        None => {
            proof { assert(false); }
            [0u8; 16]
        },
    };
    let mut sql = edit_assignment_text(user.name.is_some() && name_valid, user.pwd.is_some(),
        user.phone.is_some() && phone_valid, user.gender.is_some(), user.email.is_some() && email_valid,
        user.avatar.is_some(), user.background.is_some(), user.work_id.is_some());
    sql.append(" where id = $9");
    let args = edit_user_values(user, id);
    Statement { sql, args, mode: FetchMode::Execute }
}

pub open spec fn edit_user_message() -> Seq<char> {
    "更新用户信息成功"@
}

/// The result of a profile edit from the reply to its statement.
pub fn edit_user_result(reply: DbQueryResult<()>) -> (r: DbQueryResult<SingleEditResult>)
    ensures
        reply is Ok ==> (r matches Ok(SingleEditResult::Success(m)) && m@ == edit_user_message()),
        reply matches Err(e) ==> r == Err::<SingleEditResult, DbError>(e),
{
    match reply {
        Ok(_) => Ok(SingleEditResult::Success(String::from_str("更新用户信息成功"))),
        Err(err) => Err(err),
    }
}

/// The statement listing the members of an organisation.
pub fn select_partners_statement(org_id: &str) -> (st: Statement)
    requires
        parse_uuid_text(org_id@) is Some,
    ensures
        st.is("select * from public.user where organization = $1"@,
            seq![SqlArg::Uuid(parse_uuid_text(org_id@)->0)], FetchMode::FetchAll),
{
    let id = match parse_uuid(org_id) {
        Some(b) => b,
        None => {
            proof { assert(false); }
            [0u8; 16]
        },
    };
    let mut args: Vec<SqlValue> = Vec::new();
    args.push(SqlValue::Uuid(id));
    let st = Statement { sql: String::from_str("select * from public.user where organization = $1"), args, mode: FetchMode::FetchAll };
    assert(st.args@.map_values(|v: SqlValue| v@) =~= seq![SqlArg::Uuid(id@)]);
    st
}

/// The members of an organisation from the rows that came back.
pub fn select_partners(rows: DbQueryResult<Vec<UserGetter>>) -> (r: DbQueryResult<UserCollector>)
    ensures
        match rows {
            Ok(v) => r matches Ok(c) && c.collector == v,
            Err(e) => r == Err::<UserCollector, DbError>(e),
        },
{
    match rows {
        Ok(partners) => Ok(UserCollector { collector: partners }),
        Err(err) => Err(err),
    }
}

/// Registering a member stores every field in its own column. The insert
/// lists the columns `id, name, pwd, phone, gender, email, organization,
/// work_id` against `$1` to `$8` (then the creation time, then `role` against
/// `$9`), and each placeholder carries the value of its column: the new id,
/// the name, the stored form of the password, the phone, the gender, the
/// email, the organisation, the work id, and role 1. So a later login with
/// the same email (or phone) and password finds the account.
pub proof fn lemma_member_insert_binds_each_column(flow: RegisterFlow, next: RegisterFlow, step: Step<RegisterResult>)
    requires
        flow.stage == RegisterStage::CheckingAccount,
        register_transition(flow, Err(DbError::RowNotFound), next, step),
    ensures
        flow.request matches MoreUser::Add(user) ==> (step matches Step::Run(st) && {
            &&& st.sql@ == insert_member_sql(timestamp_text(flow.now))
            &&& st.args@.len() == 9
            &&& st.bound(1) == SqlArg::Uuid(flow.user_id@)
            &&& st.bound(2) == SqlArg::Text(user.name@)
            &&& st.bound(3) == SqlArg::Text(password_hash(user.pwd@))
            &&& st.bound(4) == SqlArg::OptText(opt_text(user.phone))
            &&& st.bound(5) == SqlArg::OptText(opt_text(user.gender))
            &&& st.bound(6) == SqlArg::OptText(opt_text(user.email))
            &&& st.bound(7) == SqlArg::Uuid(flow.org_id@)
            &&& st.bound(8) == SqlArg::OptText(opt_text(user.work_id))
            &&& st.bound(9) == SqlArg::Int(1)
        }),
{
    if let MoreUser::Add(user) = flow.request {
        let st = step->Run_0;
        assert(st.args@.map_values(|v: SqlValue| v@) == insert_member_args(user, flow.user_id@, flow.org_id@));
        assert(st.args@.map_values(|v: SqlValue| v@).len() == st.args@.len());
        assert forall|k: int| 1 <= k <= 9 implies st.bound(k) == #[trigger] insert_member_args(user, flow.user_id@, flow.org_id@)[k - 1] by {
            assert(st.args@.map_values(|v: SqlValue| v@)[k - 1] == st.args@[k - 1]@);
        }
        assert(st.bound(1) == insert_member_args(user, flow.user_id@, flow.org_id@)[0]);
        assert(st.bound(2) == insert_member_args(user, flow.user_id@, flow.org_id@)[1]);
        assert(st.bound(3) == insert_member_args(user, flow.user_id@, flow.org_id@)[2]);
        assert(st.bound(4) == insert_member_args(user, flow.user_id@, flow.org_id@)[3]);
        assert(st.bound(5) == insert_member_args(user, flow.user_id@, flow.org_id@)[4]);
        assert(st.bound(6) == insert_member_args(user, flow.user_id@, flow.org_id@)[5]);
        assert(st.bound(7) == insert_member_args(user, flow.user_id@, flow.org_id@)[6]);
        assert(st.bound(8) == insert_member_args(user, flow.user_id@, flow.org_id@)[7]);
        assert(st.bound(9) == insert_member_args(user, flow.user_id@, flow.org_id@)[8]);
    }
}

/// A profile edit writes each given field into its own column: the text
/// assigns `name`, `pwd`, `phone`, `gender`, `email`, `avatar`, `background`
/// and `work_id` from `$1` to `$8` and picks the row by `$9`, and each
/// placeholder carries that column's new value: the name, the stored form of
/// the password, the phone, the gender, the email, the avatar, the
/// background, the work id, and the user's id.
pub proof fn lemma_edit_binds_each_column(user: User, name_valid: bool, phone_valid: bool, email_valid: bool, st: Statement)
    requires
        parse_uuid_text(user.id@) is Some,
        st.is(edit_user_sql(user, name_valid, phone_valid, email_valid),
            edit_user_args(user, parse_uuid_text(user.id@)->0), FetchMode::Execute),
    ensures
        st.args@.len() == 9,
        st.bound(1) == SqlArg::OptText(opt_text(user.name)),
        user.pwd matches Some(p) ==> st.bound(2) == SqlArg::OptText(Some(password_hash(p@))),
        user.pwd is None ==> st.bound(2) == SqlArg::OptText(None),
        st.bound(3) == SqlArg::OptText(opt_text(user.phone)),
        st.bound(4) == SqlArg::OptText(opt_text(user.gender)),
        st.bound(5) == SqlArg::OptText(opt_text(user.email)),
        st.bound(6) == SqlArg::OptText(opt_text(user.avatar)),
        st.bound(7) == SqlArg::OptText(opt_text(user.background)),
        st.bound(8) == SqlArg::OptText(opt_text(user.work_id)),
        st.bound(9) == SqlArg::Uuid(parse_uuid_text(user.id@)->0),
{
    let a = edit_user_args(user, parse_uuid_text(user.id@)->0);
    assert(st.args@.map_values(|v: SqlValue| v@).len() == st.args@.len());
    assert forall|k: int| 1 <= k <= 9 implies st.bound(k) == #[trigger] a[k - 1] by {
        assert(st.args@.map_values(|v: SqlValue| v@)[k - 1] == st.args@[k - 1]@);
    }
    assert(st.bound(1) == a[0]);
    assert(st.bound(2) == a[1]);
    assert(st.bound(3) == a[2]);
    assert(st.bound(4) == a[3]);
    assert(st.bound(5) == a[4]);
    assert(st.bound(6) == a[5]);
    assert(st.bound(7) == a[6]);
    assert(st.bound(8) == a[7]);
    assert(st.bound(9) == a[8]);
}

/// Creating an organisation stores its new id under `$1` and the name the
/// creator gave under `$2`, in that order of the table's columns.
pub proof fn lemma_organization_insert_binds_id_then_name(flow: RegisterFlow, next: RegisterFlow, step: Step<RegisterResult>)
    requires
        flow.stage == RegisterStage::CheckingAccount,
        register_transition(flow, Err(DbError::RowNotFound), next, step),
    ensures
        flow.request matches MoreUser::Create(creator) ==> (step matches Step::Run(st) && {
            &&& st.sql@ == insert_organization_sql()
            &&& st.args@.len() == 2
            &&& st.bound(1) == SqlArg::Uuid(flow.org_id@)
            &&& st.bound(2) == SqlArg::Text(creator.organization@)
        }),
{
    if let MoreUser::Create(creator) = flow.request {
        let st = step->Run_0;
        let a = seq![SqlArg::Uuid(flow.org_id@), SqlArg::Text(creator.organization@)];
        assert(st.args@.map_values(|v: SqlValue| v@).len() == st.args@.len());
        assert(st.args@.map_values(|v: SqlValue| v@)[0] == st.args@[0]@);
        assert(st.args@.map_values(|v: SqlValue| v@)[1] == st.args@[1]@);
        assert(st.bound(1) == a[0]);
        assert(st.bound(2) == a[1]);
    }
}

} // verus!
