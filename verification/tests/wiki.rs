use gd_backend::db::{write_step, DbError, FetchMode, SqlValue, Step, WriteStage};
use gd_backend::project::db_service::{save_space_start, save_space_step, SpaceKind};
use gd_backend::project::route::{star_start, star_step, RouteStep};
use gd_backend::types::{ProjectSetter, SingleEditResult};
use gd_backend::uuid_text::parse_uuid;
use gd_backend::wiki::db_service::{all_articles_statement, article_start, select_space, try_get_all_articles, try_set_article, try_set_wiki};
use gd_backend::wiki::types::{ArticleCollector, ArticleGetter, ArticleSetter};

const ORG: &str = "11111111-2222-3333-4444-555555555555";
const USER: &str = "99999999-8888-7777-6666-555555555555";
const WIKI: &str = "abcdefab-cdef-abcd-efab-cdefabcdefab";
const NEW_ID: [u8; 16] = [0x12; 16];
const NEW_TEXT: &str = "12121212-1212-1212-1212-121212121212";

fn space(private: Option<bool>) -> ProjectSetter {
    ProjectSetter {
        user_id: USER.to_string(),
        id: None,
        name: "Docs".to_string(),
        logo: "d.png".to_string(),
        organization: ORG.to_string(),
        description: None,
        last_update: None,
        private,
    }
}

#[test]
fn new_wiki_space() {
    let (flow, st) = save_space_start(SpaceKind::Wiki, space(Some(true)), NEW_ID, 0);
    assert_eq!(st.sql, "create SEQUENCE wiki_doc_12121212_1212_1212_1212_121212121212_id_seq");
    let (flow, step) = save_space_step(flow, Ok(()));
    match step {
        Step::Run(st) => assert_eq!(st.sql, format!("insert into public.wiki values('{NEW_TEXT}','Docs','d.png','{ORG}',$1,'1970-01-01 08:00:00','true')on conflict(id) do update set name = 'Docs',logo = 'd.png',organization = '{ORG}',description = $2, last_update = '1970-01-01 08:00:00',private = 'true'")),
        other => panic!("{:?}", other),
    }
    let (flow, step) = save_space_step(flow, Ok(()));
    match step {
        Step::Run(st) => assert_eq!(st.sql, format!("insert into public.wiki_participation (user_id, wiki_id,  star) values('{USER}','{NEW_TEXT}','0')")),
        other => panic!("{:?}", other),
    }
    let (_, step) = save_space_step(flow, Ok(()));
    assert_eq!(step, Step::Finish(Ok(SingleEditResult::Success("participate wiki successfully".into()))));
}

#[test]
fn wiki_space_private_defaults_to_false() {
    let (flow, _) = save_space_start(SpaceKind::Wiki, space(None), NEW_ID, 0);
    let (_, step) = save_space_step(flow, Ok(()));
    match step {
        Step::Run(st) => assert!(st.sql.ends_with("private = 'false'")),
        other => panic!("{:?}", other),
    }
}

#[test]
fn failed_wiki_sequence_ends_the_save() {
    let (flow, _) = save_space_start(SpaceKind::Wiki, space(None), NEW_ID, 0);
    let (_, step) = save_space_step(flow, Err(DbError::Other("exists".into())));
    assert_eq!(step, Step::Finish(Err(DbError::Other("exists".into()))));
}

#[test]
fn wiki_with_fresh_id() {
    let (flow, st) = try_set_wiki(space(None)).unwrap();
    assert!(st.sql.starts_with("create SEQUENCE wiki_doc_"));
    assert_eq!(flow.kind, SpaceKind::Wiki);
}

#[test]
fn wiki_listings() {
    let st = select_space(USER);
    assert!(st.sql.contains("WHERE wp.user_id = $1;"));
    assert_eq!(st.mode, FetchMode::FetchAll);
    let st = all_articles_statement(WIKI);
    assert_eq!(st.sql, "select a.id, a.title,  a.content, a.last_update, a.father_id, a.last_update u.name update_name, u.avatar update_avatar from public.article a left join public.user u on a.update_id = u.id where a.wiki_id = $1");
    assert_eq!(st.args, vec![SqlValue::Uuid(parse_uuid(WIKI).unwrap())]);
}

#[test]
fn starring_a_wiki() {
    let (flow, st) = star_start(SpaceKind::Wiki, USER, WIKI, true);
    assert_eq!(st.sql, "select * from public.wiki_participation where user_id = $1 and wiki_id = $2");
    match star_step(flow, Err(DbError::RowNotFound)).1 {
        RouteStep::Answer(Ok(a)) => assert_eq!(a.data, SingleEditResult::Fail("no this wiki".into())),
        other => panic!("{:?}", other),
    }
    let (flow, _) = star_start(SpaceKind::Wiki, USER, WIKI, false);
    match star_step(flow, Ok(())).1 {
        RouteStep::Run(st) => assert_eq!(st.sql, "update public.wiki_participation set star = $1 where user_id = $2 and wiki_id = $3"),
        other => panic!("{:?}", other),
    }
}

fn article(id: Option<i32>, last_update: Option<&str>) -> ArticleSetter {
    ArticleSetter {
        id,
        wiki_id: WIKI.to_string(),
        title: "T".to_string(),
        content: "C".to_string(),
        update_id: USER.to_string(),
        father_id: None,
        last_update: last_update.map(|s| s.to_string()),
    }
}

#[test]
fn new_article() {
    let (flow, st) = article_start(article(None, Some("2024-05-06T07:08:09")), 0);
    assert_eq!(st.sql, "alter table public.article alter column id set default NEXTVAL('wiki_doc_abcdefab_cdef_abcd_efab_cdefabcdefab_id_seq')");
    assert_eq!(flow.stage, WriteStage::Preparing);
    let (flow, step) = write_step(flow, Ok(()));
    match step {
        Step::Run(st) => {
            assert_eq!(st.sql, "insert into public.article (wiki_id, title, content, update_id, last_update, father_id ) values ($1,$2,$3,$4,'2024-05-06 07:08:09',$5)");
            assert_eq!(st.args, vec![
                SqlValue::Uuid(parse_uuid(WIKI).unwrap()),
                SqlValue::Text("T".into()),
                SqlValue::Text("C".into()),
                SqlValue::Uuid(parse_uuid(USER).unwrap()),
                SqlValue::OptInt(None),
            ]);
        },
        other => panic!("{:?}", other),
    }
    let (_, step) = write_step(flow, Ok(()));
    assert_eq!(step, Step::Finish(Ok(SingleEditResult::Success("insert article success".into()))));
}

#[test]
fn updated_article_uses_now_without_a_time() {
    let (flow, st) = article_start(article(Some(5), None), 1_546_300_800);
    assert_eq!(st.sql, "update public.article set title = $1, content = $2, update_id = $3,last_update = '2019-01-01 08:00:00',father_id = $4 where id = $5 and wiki_id = $6");
    assert_eq!(st.args[4], SqlValue::Int(5));
    assert_eq!(st.args[5], SqlValue::Uuid(parse_uuid(WIKI).unwrap()));
    let (_, step) = write_step(flow, Err(DbError::RowNotFound));
    assert_eq!(step, Step::Finish(Ok(SingleEditResult::Success("update article success".into()))));
    assert!(try_set_article(article(Some(5), None)).is_some());
}

fn read_article(id: i32, title: &str) -> ArticleGetter {
    ArticleGetter {
        id,
        title: title.into(),
        content: "body".into(),
        update_name: "ann".into(),
        update_avatar: "a.png".into(),
        last_update: "2023-11-14 22:13:20".into(),
        father_id: if id > 1 { Some(1) } else { None },
    }
}

#[test]
fn articles_keep_row_order() {
    let rows = vec![read_article(2, "second"), read_article(1, "first")];
    let got = try_get_all_articles(Ok(rows.clone())).unwrap();
    assert_eq!(got, ArticleCollector { collector: rows });
    assert_eq!(got.collector[0].id, 2);
    let empty = try_get_all_articles(Ok(vec![])).unwrap();
    assert!(empty.collector.is_empty());
}

#[test]
fn articles_pass_on_the_error() {
    assert_eq!(try_get_all_articles(Err(DbError::RowNotFound)), Err(DbError::RowNotFound));
    assert_eq!(try_get_all_articles(Err(DbError::Other("down".into()))), Err(DbError::Other("down".into())));
}

#[test]
fn new_wiki_id_is_a_fresh_v4_uuid() {
    let (flow_a, _) = try_set_wiki(space(None)).unwrap();
    let (flow_b, _) = try_set_wiki(space(None)).unwrap();
    let a = flow_a.setter.id.clone().unwrap();
    let b = flow_b.setter.id.clone().unwrap();
    let bytes = parse_uuid(&a).unwrap();
    assert_eq!(bytes[6] >> 4, 4);
    assert_eq!(bytes[8] >> 6, 2);
    assert_eq!(a.chars().nth(14), Some('4'));
    assert_ne!(a, b);
}

#[test]
fn article_in_a_new_wiki_uses_its_sequence() {
    let (flow, st) = try_set_wiki(space(None)).unwrap();
    let seq = st.sql.strip_prefix("create SEQUENCE ").unwrap().to_string();
    let article = ArticleSetter {
        id: None,
        wiki_id: flow.setter.id.clone().unwrap(),
        title: "t".into(),
        content: "c".into(),
        update_id: USER.into(),
        father_id: None,
        last_update: Some("2024-01-02T03:04:05".into()),
    };
    let (_, first) = try_set_article(article).unwrap();
    assert_eq!(first.sql, format!("alter table public.article alter column id set default NEXTVAL('{seq}')"));
}
