//! Dataset exploration: the statistical summary ("describe") engine, the
//! connection-string parser and the command model of an interactive shell.

pub mod commands;
pub mod connect;
pub mod describe;
pub mod method;
pub mod schema;
pub mod summary;
pub mod text;

pub use commands::{
    BackendAction, DescribeOpts, HeadOpts, ListOpts, ReplCommand, ReplCommands, SchemaOpts,
    SqlOpts,
};
pub use connect::{parse_dataset_conn, Compression, ConnectOpts, DatasetConn, FileOpts};
pub use describe::{DataFrameDescriber, DescribeError, EngineReply, NormalizedColumn};
pub use method::{Aggregate, AggregateExpr, AggregateQuery, DescribeMethod};
pub use schema::{ColumnType, DataType, DisplayCast, Field, Normalization};
pub use summary::{Cell, SummaryColumn, SummaryRow, SummaryTable};
