//! Parameterised statements: a fixed text with numbered placeholders, and the
//! values bound to them, in order. Caller data only ever travels as a bound
//! value; it never becomes part of the text.

use vstd::prelude::*;

verus! {

/// A value bound to one placeholder of a statement.
#[derive(Clone, Debug, PartialEq, Eq)]
pub enum Value {
    Integer(i64),
    Text(String),
}

/// Mathematical view of a bound value.
pub enum ValueView {
    Integer(int),
    Text(Seq<char>),
}

impl View for Value {
    type V = ValueView;

    open spec fn view(&self) -> ValueView {
        match self {
            Value::Integer(n) => ValueView::Integer(*n as int),
            Value::Text(s) => ValueView::Text(s@),
        }
    }
}

/// How the store is asked to answer a statement.
#[derive(Clone, Copy, Debug, PartialEq, Eq, Structural)]
pub enum Fetch {
    /// Run it and report the rows affected and the last id assigned.
    Execute,
    /// Return every row.
    All,
    /// Return the first row, if there is one.
    Optional,
    /// Return the single integer of the single row.
    Scalar,
}

/// A statement ready to be handed to the store.
#[derive(Debug)]
pub struct Statement {
    pub sql: &'static str,
    pub fetch: Fetch,
    pub binds: Vec<Value>,
}

/// Mathematical view of a statement.
pub struct StatementView {
    pub sql: Seq<char>,
    pub fetch: Fetch,
    pub binds: Seq<ValueView>,
}

impl View for Statement {
    type V = StatementView;

    open spec fn view(&self) -> StatementView {
        StatementView {
            sql: self.sql@,
            fetch: self.fetch,
            binds: self.binds@.map_values(|v: Value| v@),
        }
    }
}

/// What the store reports after executing a statement that returns no rows.
#[derive(Clone, Copy, Debug, PartialEq, Eq, Structural)]
pub struct ExecOutcome {
    pub rows_affected: u64,
    pub last_insert_rowid: i64,
}

impl Statement {
    /// A statement without bound values.
    pub fn plain(sql: &'static str, fetch: Fetch) -> (st: Statement)
        ensures
            st@ == (StatementView { sql: sql@, fetch: fetch, binds: Seq::empty() }),
    {
        let st = Statement { sql: sql, fetch: fetch, binds: Vec::new() };
        assert(st@.binds =~= Seq::empty());
        st
    }

    /// Binds `value` to the next placeholder.
    pub fn bind(self, value: Value) -> (st: Statement)
        ensures
            st@ == (StatementView {
                sql: self@.sql,
                fetch: self@.fetch,
                binds: self@.binds.push(value@),
            }),
    {
        let ghost before = self@.binds;
        let mut binds = self.binds;
        binds.push(value);
        let st = Statement { sql: self.sql, fetch: self.fetch, binds: binds };
        assert(st@.binds =~= before.push(value@));
        st
    }
}

} // verus!
