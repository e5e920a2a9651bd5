//! The wiki statements, and the saving of spaces and articles.
use vstd::prelude::*;
use crate::db::{DbError, DbQueryResult, FetchMode, SqlArg, SqlValue, Statement, WriteFlow, WriteStage, plain_statement};
use crate::project::db_service::{SpaceFlow, SpaceKind, create_sequence_sql, new_space_id, save_space_begin, space_request_ok, space_started, statement_with_uuid, uuid_of};
use crate::text::{replace_char, replaced};
use crate::types::{ObjectTypes, ProjectSetter};
use crate::state::current_timestamp;
use crate::utils::{timestamp_fits, get_sequence_name, sequence_name, timestamp_in_range, timestamp_text, timestamp_to_date};
use crate::uuid_text::parse_uuid_text;
use crate::wiki::types::{ArticleCollector, ArticleGetter, ArticleSetter};

verus! {

pub open spec fn select_space_sql() -> Seq<char> {
    "\n    SELECT\n        w.id,\n        w.name,\n        w.logo,\n        w.description,\n        w.last_update,\n        admin.name AS admin_name,\n        wp.star\n    FROM public.wiki w\n    JOIN public.wiki_participation wp ON w.id = wp.wiki_id\n    LEFT JOIN public.user admin ON wp.user_id = admin.id\n    WHERE wp.user_id = $1;\n    "@
}

/// The wiki spaces that a user takes part in, with their admins and stars.
pub fn select_space(user_id: &str) -> (st: Statement)
    requires
        parse_uuid_text(user_id@) is Some,
    ensures
        st.is(select_space_sql(), seq![SqlArg::Uuid(parse_uuid_text(user_id@)->0)], FetchMode::FetchAll),
{
    statement_with_uuid(String::from_str("\n    SELECT\n        w.id,\n        w.name,\n        w.logo,\n        w.description,\n        w.last_update,\n        admin.name AS admin_name,\n        wp.star\n    FROM public.wiki w\n    JOIN public.wiki_participation wp ON w.id = wp.wiki_id\n    LEFT JOIN public.user admin ON wp.user_id = admin.id\n    WHERE wp.user_id = $1;\n    "),
        uuid_of(user_id), FetchMode::FetchAll)
}

/// Starts saving a wiki space (see `save_space_begin`).
pub fn try_set_wiki(wiki_setter: ProjectSetter) -> (res: Option<(SpaceFlow, Statement)>)
    requires
        space_request_ok(wiki_setter),
    ensures
        res is None ==> wiki_setter.id is None,
        res matches Some((flow, st)) ==> exists|id: Seq<u8>, now: u64|
            new_space_id(id) && space_started(SpaceKind::Wiki, wiki_setter, id, now, flow, st),
{
    save_space_begin(SpaceKind::Wiki, wiki_setter)
}

pub open spec fn all_articles_sql() -> Seq<char> {
    "select a.id, a.title,  a.content, a.last_update, a.father_id, a.last_update u.name update_name, u.avatar update_avatar from public.article a left join public.user u on a.update_id = u.id where a.wiki_id = $1"@
}

/// The query for the articles of a wiki space with their last editors.
pub fn all_articles_statement(wiki_id: &str) -> (st: Statement)
    requires
        parse_uuid_text(wiki_id@) is Some,
    ensures
        st.is(all_articles_sql(), seq![SqlArg::Uuid(parse_uuid_text(wiki_id@)->0)], FetchMode::FetchAll),
{
    statement_with_uuid(String::from_str("select a.id, a.title,  a.content, a.last_update, a.father_id, a.last_update u.name update_name, u.avatar update_avatar from public.article a left join public.user u on a.update_id = u.id where a.wiki_id = $1"),
        uuid_of(wiki_id), FetchMode::FetchAll)
}

/// The articles of a wiki space from the rows that came back: every row, in
/// its order, or the database's error as it came.
pub fn try_get_all_articles(rows: DbQueryResult<Vec<ArticleGetter>>) -> (r: DbQueryResult<ArticleCollector>)
    ensures
        match rows {
            Ok(v) => r matches Ok(c) && c.collector@ == v@,
            Err(e) => r == Err::<ArticleCollector, DbError>(e),
        },
{
    match rows {
        Ok(articles) => Ok(ArticleCollector { collector: articles }),
        Err(err) => Err(err),
    }
}

/// The last-update time of an article: the form's, with `T` turned into a
/// space, or else `now`.
pub open spec fn article_time(article: ArticleSetter, now: u64) -> Seq<char> {
    match article.last_update {
        Some(v) => replace_char(v@, 'T', ' '),
        None => timestamp_text(now),
    }
}

/// Makes the space's sequence number the new article.
pub open spec fn use_article_sequence_sql(wiki_id: Seq<char>) -> Seq<char> {
    "alter table public.article alter column id set default NEXTVAL('"@
        + sequence_name(ObjectTypes::WIKI, wiki_id) + "')"@
}

pub open spec fn insert_article_sql(last_update: Seq<char>) -> Seq<char> {
    "insert into public.article (wiki_id, title, content, update_id, last_update, father_id ) values ($1,$2,$3,$4,'"@
        + last_update + "',$5)"@
}

pub open spec fn update_article_sql(last_update: Seq<char>) -> Seq<char> {
    "update public.article set title = $1, content = $2, update_id = $3,last_update = '"@ + last_update
        + "',father_id = $4 where id = $5 and wiki_id = $6"@
}

pub open spec fn insert_article_args(a: ArticleSetter) -> Seq<SqlArg> {
    seq![
        SqlArg::Uuid(parse_uuid_text(a.wiki_id@)->0),
        SqlArg::Text(a.title@),
        SqlArg::Text(a.content@),
        SqlArg::Uuid(parse_uuid_text(a.update_id@)->0),
        SqlArg::OptInt(a.father_id),
    ]
}

pub open spec fn update_article_args(a: ArticleSetter, id: i32) -> Seq<SqlArg> {
    seq![
        SqlArg::Text(a.title@),
        SqlArg::Text(a.content@),
        SqlArg::Uuid(parse_uuid_text(a.update_id@)->0),
        SqlArg::OptInt(a.father_id),
        SqlArg::Int(id),
        SqlArg::Uuid(parse_uuid_text(a.wiki_id@)->0),
    ]
}

/// How the saving of an article starts.
pub open spec fn article_started(article: ArticleSetter, now: u64, flow: WriteFlow, st: Statement) -> bool {
    &&& (article.id is None ==> {
            &&& st.is(use_article_sequence_sql(article.wiki_id@), Seq::empty(), FetchMode::Execute)
            &&& flow.stage == WriteStage::Preparing
            &&& flow.write.is(insert_article_sql(article_time(article, now)), insert_article_args(article), FetchMode::Execute)
            &&& flow.message@ == "insert article success"@
        })
    &&& (article.id matches Some(id) ==> {
            &&& st.is(update_article_sql(article_time(article, now)), update_article_args(article, id), FetchMode::Execute)
            &&& flow.stage == WriteStage::Writing
            &&& flow.write.same_as(st)
            &&& flow.message@ == "update article success"@
        })
}

/// Starts saving an article: a new one (no id) is numbered by its space's
/// sequence and inserted; an existing one is updated.
pub fn article_start(article: ArticleSetter, now: u64) -> (res: (WriteFlow, Statement))
    requires
        parse_uuid_text(article.wiki_id@) is Some,
        parse_uuid_text(article.update_id@) is Some,
        timestamp_in_range(now),
    ensures
        article_started(article, now, res.0, res.1),
{
    let wiki = uuid_of(article.wiki_id.as_str());
    let update_id = uuid_of(article.update_id.as_str());
    let now_text = timestamp_to_date(now);
    let last_update = match &article.last_update {
        Some(v) => replaced(v.as_str(), 'T', ' '),
        None => now_text,
    };
    match article.id {
        None => {
            let mut seq_sql = String::from_str("alter table public.article alter column id set default NEXTVAL('");
            seq_sql.append(get_sequence_name(ObjectTypes::WIKI, article.wiki_id.clone()).as_str());
            seq_sql.append("')");
            let prepare = plain_statement(seq_sql, FetchMode::Execute);
            let mut sql = String::from_str("insert into public.article (wiki_id, title, content, update_id, last_update, father_id ) values ($1,$2,$3,$4,'");
            sql.append(last_update.as_str());
            sql.append("',$5)");
            let mut args: Vec<SqlValue> = Vec::new();
            args.push(SqlValue::Uuid(wiki));
            args.push(SqlValue::Text(article.title.clone()));
            args.push(SqlValue::Text(article.content.clone()));
            args.push(SqlValue::Uuid(update_id));
            args.push(SqlValue::OptInt(article.father_id));
            let write = Statement { sql, args, mode: FetchMode::Execute };
            assert(write.args@.map_values(|v: SqlValue| v@) =~= insert_article_args(article));
            (WriteFlow { write, message: String::from_str("insert article success"), stage: WriteStage::Preparing }, prepare)
        },
        Some(id) => {
            let mut sql = String::from_str("update public.article set title = $1, content = $2, update_id = $3,last_update = '");
            sql.append(last_update.as_str());
            sql.append("',father_id = $4 where id = $5 and wiki_id = $6");
            let mut args: Vec<SqlValue> = Vec::new();
            args.push(SqlValue::Text(article.title.clone()));
            args.push(SqlValue::Text(article.content.clone()));
            args.push(SqlValue::Uuid(update_id));
            args.push(SqlValue::OptInt(article.father_id));
            args.push(SqlValue::Int(id));
            args.push(SqlValue::Uuid(wiki));
            let write = Statement { sql, args, mode: FetchMode::Execute };
            assert(write.args@.map_values(|v: SqlValue| v@) =~= update_article_args(article, id));
            let first = write.clone_statement();
            (WriteFlow { write, message: String::from_str("update article success"), stage: WriteStage::Writing }, first)
        },
    }
}

/// Starts saving an article at the current time; `None` where the clock reads
/// a time that cannot be written as a date.
pub fn try_set_article(article: ArticleSetter) -> (res: Option<(WriteFlow, Statement)>)
    requires
        parse_uuid_text(article.wiki_id@) is Some,
        parse_uuid_text(article.update_id@) is Some,
    ensures
        res matches Some((flow, st)) ==> exists|now: u64| timestamp_in_range(now) && article_started(article, now, flow, st),
{
    let now = current_timestamp();
    if timestamp_fits(now) {
        let r = article_start(article, now);
        assert(article_started(article, now, r.0, r.1));
        Some(r)
    } else {
        None
    }
}

/// An article written into a wiki space just created: the space's new id,
/// as the form carries it, is UUID text for the new id, so the article can be
/// saved; and its first statement points the article ids at the very sequence
/// that creating the space made.
pub proof fn lemma_article_in_new_wiki(
    setter: ProjectSetter,
    id: Seq<u8>,
    now: u64,
    flow: SpaceFlow,
    st: Statement,
    article: ArticleSetter,
)
    requires
        setter.id is None,
        new_space_id(id),
        space_started(SpaceKind::Wiki, setter, id, now, flow, st),
        flow.setter.id matches Some(w) && article.wiki_id@ == w@,
    ensures
        parse_uuid_text(article.wiki_id@) == Some(id),
        st.sql@ == create_sequence_sql(SpaceKind::Wiki, article.wiki_id@),
        create_sequence_sql(SpaceKind::Wiki, article.wiki_id@)
            == "create SEQUENCE "@ + sequence_name(ObjectTypes::WIKI, article.wiki_id@),
        use_article_sequence_sql(article.wiki_id@)
            == "alter table public.article alter column id set default NEXTVAL('"@
                + sequence_name(ObjectTypes::WIKI, article.wiki_id@) + "')"@,
{
}

/// A new article is inserted with each field in its own column: the insert
/// lists `wiki_id, title, content, update_id, last_update, father_id` with
/// `$1` to `$4`, the time, then `$5`, and each placeholder carries its
/// column's value: the space, the title, the content, the editor and the
/// parent article.
pub proof fn lemma_new_article_binds_each_column(article: ArticleSetter, now: u64, flow: WriteFlow, st: Statement)
    requires
        article.id is None,
        article_started(article, now, flow, st),
    ensures
        flow.write.args@.len() == 5,
        flow.write.bound(1) == SqlArg::Uuid(parse_uuid_text(article.wiki_id@)->0),
        flow.write.bound(2) == SqlArg::Text(article.title@),
        flow.write.bound(3) == SqlArg::Text(article.content@),
        flow.write.bound(4) == SqlArg::Uuid(parse_uuid_text(article.update_id@)->0),
        flow.write.bound(5) == SqlArg::OptInt(article.father_id),
{
    let w = flow.write;
    let a = insert_article_args(article);
    assert(w.args@.map_values(|v: SqlValue| v@).len() == w.args@.len());
    assert forall|k: int| 1 <= k <= 5 implies w.bound(k) == #[trigger] a[k - 1] by {
        assert(w.args@.map_values(|v: SqlValue| v@)[k - 1] == w.args@[k - 1]@);
    }
    assert(w.bound(1) == a[0]);
    assert(w.bound(2) == a[1]);
    assert(w.bound(3) == a[2]);
    assert(w.bound(4) == a[3]);
    assert(w.bound(5) == a[4]);
}

/// Updating an article writes each field into its own column: the update
/// assigns `title = $1, content = $2, update_id = $3, father_id = $4` and
/// picks the row by `id = $5` and `wiki_id = $6`, each placeholder carrying
/// that value of the form.
pub proof fn lemma_article_update_binds_each_column(article: ArticleSetter, now: u64, flow: WriteFlow, st: Statement)
    requires
        article_started(article, now, flow, st),
    ensures
        article.id matches Some(id) ==> {
            &&& st.args@.len() == 6
            &&& st.bound(1) == SqlArg::Text(article.title@)
            &&& st.bound(2) == SqlArg::Text(article.content@)
            &&& st.bound(3) == SqlArg::Uuid(parse_uuid_text(article.update_id@)->0)
            &&& st.bound(4) == SqlArg::OptInt(article.father_id)
            &&& st.bound(5) == SqlArg::Int(id)
            &&& st.bound(6) == SqlArg::Uuid(parse_uuid_text(article.wiki_id@)->0)
        },
{
    if let Some(id) = article.id {
        let a = update_article_args(article, id);
        assert(st.args@.map_values(|v: SqlValue| v@).len() == st.args@.len());
        assert forall|k: int| 1 <= k <= 6 implies st.bound(k) == #[trigger] a[k - 1] by {
            assert(st.args@.map_values(|v: SqlValue| v@)[k - 1] == st.args@[k - 1]@);
        }
        assert(st.bound(1) == a[0]);
        assert(st.bound(2) == a[1]);
        assert(st.bound(3) == a[2]);
        assert(st.bound(4) == a[3]);
        assert(st.bound(5) == a[4]);
        assert(st.bound(6) == a[5]);
    }
}

} // verus!
