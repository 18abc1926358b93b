//! The shell's commands and what each one asks of the backend.

use vstd::prelude::*;
use crate::connect::ConnectOpts;
use crate::text::{decimal, spec_decimal};

verus! {

/// Rows shown by `head` when no size is given.
pub const DEFAULT_HEAD_SIZE: usize = 10;

/// `describe`: summarize a dataset.
#[derive(Clone, Debug)]
pub struct DescribeOpts {
    pub name: String,
}

/// `head`: show the first rows of a dataset.
#[derive(Clone, Debug)]
pub struct HeadOpts {
    pub name: String,
    pub size: Option<usize>,
}

/// `schema`: show the columns of a dataset.
#[derive(Clone, Debug)]
pub struct SchemaOpts {
    pub name: String,
}

/// `sql`: run a query.
#[derive(Clone, Debug)]
pub struct SqlOpts {
    pub query: String,
}

/// `list`: list the registered datasets.
#[derive(Clone, Copy, Debug)]
pub struct ListOpts;

#[derive(Clone, Debug)]
pub enum ReplCommands {
    Connect(ConnectOpts),
    List(ListOpts),
    Describe(DescribeOpts),
    Head(HeadOpts),
    Sql(SqlOpts),
    Schema(SchemaOpts),
}

#[derive(Clone, Debug)]
pub struct ReplCommand {
    pub command: ReplCommands,
}

/// What a command asks of the backend.
#[derive(Debug)]
pub enum BackendAction {
    /// Register the dataset.
    Connect(ConnectOpts),
    /// Run this SQL and show its result.
    Query(String),
    /// Run this SQL and show the summary of its result.
    Describe(String),
}

pub open spec fn select_all_sql(name: Seq<char>) -> Seq<char> {
    "SELECT * FROM "@ + name
}

pub open spec fn head_sql(name: Seq<char>, size: nat) -> Seq<char> {
    "SELECT * FROM "@ + name + " LIMIT "@ + spec_decimal(size)
}

pub open spec fn schema_sql(name: Seq<char>) -> Seq<char> {
    "DESCRIBE "@ + name
}

pub open spec fn list_sql() -> Seq<char> {
    "SELECT table_name, table_type FROM information_schema.tables WHERE table_schema = 'public'"@
}

pub open spec fn head_size(size: Option<usize>) -> usize {
    match size {
        Some(n) => n,
        None => DEFAULT_HEAD_SIZE,
    }
}

/// The reply to a successful `connect`.
pub fn connected_message(name: &str) -> (r: String)
    ensures
        r@ == "Connected to dataset "@ + name@,
{
    let mut r = String::from_str("Connected to dataset ");
    r.append(name);
    r
}

impl DescribeOpts {
    pub fn new(name: String) -> (r: DescribeOpts)
        ensures
            r.name@ == name@,
    {
        DescribeOpts { name }
    }
}

impl HeadOpts {
    pub fn new(name: String, size: Option<usize>) -> (r: HeadOpts)
        ensures
            r.name@ == name@,
            r.size == size,
    {
        HeadOpts { name, size }
    }
}

impl SchemaOpts {
    pub fn new(name: String) -> (r: SchemaOpts)
        ensures
            r.name@ == name@,
    {
        SchemaOpts { name }
    }
}

impl SqlOpts {
    pub fn new(sql: String) -> (r: SqlOpts)
        ensures
            r.query@ == sql@,
    {
        SqlOpts { query: sql }
    }
}

impl ReplCommands {
    /// The backend work of the command: `list` reads the information schema,
    /// `describe` summarizes every row of the dataset, `head` reads the first
    /// rows (ten unless a size is given), `schema` describes the columns and
    /// `sql` runs the query as given.
    pub fn into_action(self) -> (r: BackendAction)
        ensures
            match self {
                ReplCommands::Connect(o) => r matches BackendAction::Connect(c) && c.conn@ == o.conn@
                    && c.table == o.table && c.name@ == o.name@,
                ReplCommands::List(_) => r matches BackendAction::Query(q) && q@ == list_sql(),
                ReplCommands::Describe(o) => r matches BackendAction::Describe(q) && q@
                    == select_all_sql(o.name@),
                ReplCommands::Head(o) => r matches BackendAction::Query(q) && q@ == head_sql(
                    o.name@,
                    head_size(o.size) as nat,
                ),
                ReplCommands::Sql(o) => r matches BackendAction::Query(q) && q@ == o.query@,
                ReplCommands::Schema(o) => r matches BackendAction::Query(q) && q@ == schema_sql(
                    o.name@,
                ),
            },
    {
        match self {
            ReplCommands::Connect(o) => BackendAction::Connect(o),
            ReplCommands::List(_) => BackendAction::Query(
                String::from_str(
                    "SELECT table_name, table_type FROM information_schema.tables WHERE table_schema = 'public'",
                ),
            ),
            ReplCommands::Describe(o) => {
                let mut q = String::from_str("SELECT * FROM ");
                q.append(o.name.as_str());
                BackendAction::Describe(q)
            },
            ReplCommands::Head(o) => {
                let size = match o.size {
                    Some(n) => n,
                    None => DEFAULT_HEAD_SIZE,
                };
                let mut q = String::from_str("SELECT * FROM ");
                q.append(o.name.as_str());
                q.append(" LIMIT ");
                let digits = decimal(size as u64);
                q.append(digits.as_str());
                BackendAction::Query(q)
            },
            ReplCommands::Sql(o) => BackendAction::Query(o.query),
            ReplCommands::Schema(o) => {
                let mut q = String::from_str("DESCRIBE ");
                q.append(o.name.as_str());
                BackendAction::Query(q)
            },
        }
    }
}

} // verus!
