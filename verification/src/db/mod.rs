//! What the library asks of the database and what it reads of the answers.
use vstd::prelude::*;

verus! {

/// What the handlers read of a failed query: whether no row came back, or
/// something else went wrong (with its description).
#[derive(Debug, Clone, PartialEq, Eq)]
pub enum DbError {
    RowNotFound,
    Other(String),
}

pub type DbQueryResult<T> = Result<T, DbError>;

/// A value bound to a `$n` placeholder.
#[derive(Debug, Clone, PartialEq, Eq)]
pub enum SqlValue {
    Uuid([u8; 16]),
    OptUuid(Option<[u8; 16]>),
    UuidList(Vec<[u8; 16]>),
    Text(String),
    OptText(Option<String>),
    Int(i32),
    OptInt(Option<i32>),
    Bool(bool),
}

/// How a statement is run: for its effect, for one row, or for all rows.
#[derive(Debug, Clone, Copy, PartialEq, Eq, Structural)]
pub enum FetchMode {
    Execute,
    FetchOne,
    FetchAll,
}

/// A statement to run, with the values for its placeholders in order.
#[derive(Debug, Clone, PartialEq, Eq)]
pub struct Statement {
    pub sql: String,
    pub args: Vec<SqlValue>,
    pub mode: FetchMode,
}

/// A bound value as the contracts see it: text by its characters, UUIDs by their bytes.
pub enum SqlArg {
    Uuid(Seq<u8>),
    OptUuid(Option<Seq<u8>>),
    UuidList(Seq<Seq<u8>>),
    Text(Seq<char>),
    OptText(Option<Seq<char>>),
    Int(i32),
    OptInt(Option<i32>),
    Bool(bool),
}

pub open spec fn opt_text(o: Option<String>) -> Option<Seq<char>> {
    match o {
        Some(s) => Some(s@),
        None => None,
    }
}

pub open spec fn opt_uuid(o: Option<[u8; 16]>) -> Option<Seq<u8>> {
    match o {
        Some(b) => Some(b@),
        None => None,
    }
}

impl View for SqlValue {
    type V = SqlArg;

    open spec fn view(&self) -> SqlArg {
        match self {
            SqlValue::Uuid(b) => SqlArg::Uuid(b@),
            SqlValue::OptUuid(b) => SqlArg::OptUuid(opt_uuid(*b)),
            SqlValue::UuidList(l) => SqlArg::UuidList(l@.map_values(|b: [u8; 16]| b@)),
            SqlValue::Text(s) => SqlArg::Text(s@),
            SqlValue::OptText(s) => SqlArg::OptText(opt_text(*s)),
            SqlValue::Int(i) => SqlArg::Int(*i),
            SqlValue::OptInt(i) => SqlArg::OptInt(*i),
            SqlValue::Bool(b) => SqlArg::Bool(*b),
        }
    }
}

impl SqlValue {
    pub fn clone_value(&self) -> (r: SqlValue)
        ensures
            r@ == self@,
    {
        match self {
            SqlValue::Uuid(b) => SqlValue::Uuid(*b),
            SqlValue::OptUuid(b) => SqlValue::OptUuid(*b),
            SqlValue::UuidList(l) => {
                let mut out: Vec<[u8; 16]> = Vec::new();
                let mut i: usize = 0;
                while i < l.len()
                    invariant
                        i <= l@.len(),
                        out@ == l@.subrange(0, i as int),
                    decreases l@.len() - i,
                {
                    out.push(l[i]);
                    assert(out@ =~= l@.subrange(0, i + 1));
                    i = i + 1;
                }
                assert(out@ =~= l@);
                SqlValue::UuidList(out)
            },
            SqlValue::Text(s) => SqlValue::Text(s.clone()),
            SqlValue::OptText(s) => SqlValue::OptText(match s {
                Some(t) => Some(t.clone()),
                None => None,
            }),
            SqlValue::Int(i) => SqlValue::Int(*i),
            SqlValue::OptInt(i) => SqlValue::OptInt(*i),
            SqlValue::Bool(b) => SqlValue::Bool(*b),
        }
    }
}

impl Statement {
    /// Both statements run the same text with the same values in the same way.
    pub open spec fn same_as(self, other: Statement) -> bool {
        &&& self.sql@ == other.sql@
        &&& self.args@.map_values(|v: SqlValue| v@) == other.args@.map_values(|v: SqlValue| v@)
        &&& self.mode == other.mode
    }

    pub fn clone_statement(&self) -> (r: Statement)
        ensures
            r.same_as(*self),
    {
        let mut args: Vec<SqlValue> = Vec::new();
        let mut i: usize = 0;
        while i < self.args.len()
            invariant
                i <= self.args@.len(),
                args@.len() == i,
                forall|j: int| 0 <= j < i ==> #[trigger] args@[j]@ == self.args@[j]@,
            decreases self.args@.len() - i,
        {
            args.push(self.args[i].clone_value());
            i = i + 1;
        }
        assert(args@.map_values(|v: SqlValue| v@) =~= self.args@.map_values(|v: SqlValue| v@));
        Statement { sql: self.sql.clone(), args, mode: self.mode }
    }

    /// The value bound to the placeholder `$k` (counting from 1).
    pub open spec fn bound(self, k: int) -> SqlArg {
        self.args@[k - 1]@
    }

    /// The statement runs `sql` in `mode` with `args` bound in order.
    pub open spec fn is(self, sql: Seq<char>, args: Seq<SqlArg>, mode: FetchMode) -> bool {
        &&& self.sql@ == sql
        &&& self.args@.map_values(|v: SqlValue| v@) == args
        &&& self.mode == mode
    }
}

/// What a flow does next: run a statement and report back, or stop with a result.
#[derive(Debug, PartialEq, Eq)]
pub enum Step<R> {
    Run(Statement),
    Finish(DbQueryResult<R>),
}

/// A statement without placeholders.
pub fn plain_statement(sql: String, mode: FetchMode) -> (s: Statement)
    ensures
        s.is(sql@, Seq::empty(), mode),
{
    let s = Statement { sql, args: Vec::new(), mode };
    assert(s.args@.map_values(|v: SqlValue| v@) =~= Seq::<SqlArg>::empty());
    s
}

/// Where a write stands: preparing (a statement whose failure ends the write),
/// or running the write itself.
#[derive(Debug, Clone, Copy, PartialEq, Eq, Structural)]
pub enum WriteStage {
    Preparing,
    Writing,
}

/// A write of one row, perhaps after a preparing statement. It succeeds with
/// `message` where the write reports success or no row.
#[derive(Debug, Clone, PartialEq, Eq)]
pub struct WriteFlow {
    pub write: Statement,
    pub message: String,
    pub stage: WriteStage,
}

/// One step of a write.
pub open spec fn write_transition(flow: WriteFlow, reply: DbQueryResult<()>, next: WriteFlow, step: Step<crate::types::SingleEditResult>) -> bool {
    match flow.stage {
        WriteStage::Preparing => match reply {
            Ok(_) => next.write.same_as(flow.write) && next.message@ == flow.message@ && next.stage == WriteStage::Writing
                && (step matches Step::Run(st) && st.same_as(flow.write)),
            Err(e) => step == Step::<crate::types::SingleEditResult>::Finish(Err(e)),
        },
        WriteStage::Writing => match reply {
            Err(DbError::Other(e)) => step == Step::<crate::types::SingleEditResult>::Finish(Err(DbError::Other(e))),
            _ => step matches Step::Finish(Ok(crate::types::SingleEditResult::Success(m))) && m@ == flow.message@,
        },
    }
}

/// Takes a write one step on.
pub fn write_step(flow: WriteFlow, reply: DbQueryResult<()>) -> (res: (WriteFlow, Step<crate::types::SingleEditResult>))
    ensures
        write_transition(flow, reply, res.0, res.1),
        res.1 is Run ==> res.0.stage == WriteStage::Writing,
{
    let WriteFlow { write, message, stage } = flow;
    match stage {
        WriteStage::Preparing => match reply {
            Ok(_) => {
                let next = WriteFlow { write: write.clone_statement(), message, stage: WriteStage::Writing };
                (next, Step::Run(write))
            },
            Err(e) => (WriteFlow { write, message, stage }, Step::Finish(Err(e))),
        },
        WriteStage::Writing => match reply {
            Err(DbError::Other(e)) => (WriteFlow { write, message, stage }, Step::Finish(Err(DbError::Other(e)))),
            _ => {
                let m = message.clone();
                (WriteFlow { write, message, stage }, Step::Finish(Ok(crate::types::SingleEditResult::Success(m))))
            },
        },
    }
}

} // verus!
