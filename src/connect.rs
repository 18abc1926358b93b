//! Connection strings: which kind of dataset a string names, and with which
//! file extension and compression.

use vstd::prelude::*;
use crate::text::{ends_with, spec_ends_with, spec_starts_with, starts_with, str_eq};

verus! {

/// The compression of a dataset file.
#[derive(Clone, Copy, Debug, PartialEq, Eq, Structural)]
pub enum Compression {
    Uncompressed,
    Gzip,
    Bzip2,
    Xz,
    Zstd,
}

/// A local file dataset: its path, the extension that names its format, and
/// its compression.
#[derive(Clone, Debug)]
pub struct FileOpts {
    pub filename: String,
    pub extension: String,
    pub compression: Compression,
}

/// Where a dataset comes from.
#[derive(Clone, Debug)]
pub enum DatasetConn {
    /// A database connection string.
    Postgres(String),
    /// A Parquet file path.
    Parquet(String),
    Csv(FileOpts),
    Json(FileOpts),
}

/// The options of the `connect` command.
#[derive(Clone, Debug)]
pub struct ConnectOpts {
    pub conn: DatasetConn,
    /// For a database, the table to read.
    pub table: Option<String>,
    /// The name under which the dataset is registered.
    pub name: String,
}

/// The content of a `DatasetConn`: for files, the path, the extension and
/// the compression.
pub enum ConnView {
    Postgres(Seq<char>),
    Parquet(Seq<char>),
    Csv(Seq<char>, Seq<char>, Compression),
    Json(Seq<char>, Seq<char>, Compression),
}

impl View for DatasetConn {
    type V = ConnView;

    open spec fn view(&self) -> ConnView {
        match self {
            DatasetConn::Postgres(s) => ConnView::Postgres(s@),
            DatasetConn::Parquet(s) => ConnView::Parquet(s@),
            DatasetConn::Csv(f) => ConnView::Csv(f.filename@, f.extension@, f.compression),
            DatasetConn::Json(f) => ConnView::Json(f.filename@, f.extension@, f.compression),
        }
    }
}

/// The pieces of `s` between the dots, from left to right; a string without
/// a dot is one piece.
pub open spec fn split_dots(s: Seq<char>) -> Seq<Seq<char>>
    decreases s.len(),
{
    if s.len() == 0 {
        seq![Seq::empty()]
    } else {
        let init = split_dots(s.drop_last());
        if s.last() == '.' {
            init.push(Seq::empty())
        } else {
            init.update(init.len() - 1, init.last().push(s.last()))
        }
    }
}

pub proof fn lemma_split_dots_nonempty(s: Seq<char>)
    ensures
        split_dots(s).len() >= 1,
    decreases s.len(),
{
    if s.len() > 0 {
        lemma_split_dots_nonempty(s.drop_last());
    }
}

pub open spec fn spec_compression(c: Seq<char>) -> Option<Compression> {
    if c == "gz"@ {
        Some(Compression::Gzip)
    } else if c == "bz2"@ {
        Some(Compression::Bzip2)
    } else if c == "xz"@ {
        Some(Compression::Xz)
    } else if c == "zstd"@ {
        Some(Compression::Zstd)
    } else {
        None
    }
}

pub open spec fn is_json_extension(t: Seq<char>) -> bool {
    t == "json"@ || t == "ndjson"@ || t == "jsonl"@
}

pub open spec fn unsupported(s: Seq<char>) -> Seq<char> {
    "Unsupported dataset connection: "@ + s
}

/// What a connection string names. A `postgres://` prefix names a database
/// and a `.parquet` suffix a Parquet file. Otherwise the second dot-separated
/// piece is the format (`csv`, or `json`, `ndjson`, `jsonl`) and the third,
/// if any, the compression (`gz`, `bz2`, `xz`, `zstd`); further pieces are
/// ignored.
pub open spec fn spec_parse_conn(s: Seq<char>) -> Result<ConnView, Seq<char>> {
    let parts = split_dots(s);
    if spec_starts_with(s, "postgres://"@) {
        Ok(ConnView::Postgres(s))
    } else if spec_ends_with(s, ".parquet"@) {
        Ok(ConnView::Parquet(s))
    } else if parts.len() >= 3 {
        let t = parts[1];
        let c = parts[2];
        match spec_compression(c) {
            None => Err("Invalid compression type: "@ + c),
            Some(comp) => if t == "csv"@ {
                Ok(ConnView::Csv(s, t, comp))
            } else if is_json_extension(t) {
                Ok(ConnView::Json(s, t, comp))
            } else {
                Err("Invalid file extension: "@ + t)
            },
        }
    } else if parts.len() == 2 {
        let t = parts[1];
        if t == "csv"@ {
            Ok(ConnView::Csv(s, t, Compression::Uncompressed))
        } else if is_json_extension(t) {
            Ok(ConnView::Json(s, t, Compression::Uncompressed))
        } else {
            Err(unsupported(s))
        }
    } else {
        Err(unsupported(s))
    }
}

/// Splits `s` at every dot.
fn split_at_dots(s: &str) -> (r: Vec<String>)
    ensures
        r@.map_values(|p: String| p@) == split_dots(s@),
{
    let n = s.unicode_len();
    let mut parts: Vec<String> = Vec::new();
    let mut start: usize = 0;
    let mut i: usize = 0;
    assert(s@.subrange(0, 0) =~= Seq::<char>::empty());
    assert(parts@.map_values(|p: String| p@).push(s@.subrange(0, 0)) =~= split_dots(
        s@.subrange(0, 0),
    ));
    while i < n
        invariant
            n == s@.len(),
            start <= i <= n,
            parts@.map_values(|p: String| p@).push(s@.subrange(start as int, i as int))
                =~= split_dots(s@.subrange(0, i as int)),
        decreases n - i,
    {
        let ghost pre = s@.subrange(0, i as int);
        let ghost post = s@.subrange(0, i + 1);
        assert(post.drop_last() =~= pre);
        assert(post.last() == s@[i as int]);
        let ghost before = parts@;
        if s.get_char(i) == '.' {
            let piece = String::from_str(s.substring_char(start, i));
            parts.push(piece);
            start = i + 1;
            assert(parts@.map_values(|p: String| p@) =~= before.map_values(|p: String| p@).push(
                piece@,
            ));
            assert(split_dots(post) == split_dots(pre).push(Seq::empty()));
            assert(s@.subrange(i + 1, i + 1) =~= Seq::<char>::empty());
        } else {
            let ghost init = split_dots(pre);
            assert(split_dots(post) == init.update(init.len() - 1, init.last().push(s@[i as int])));
            assert(s@.subrange(start as int, i + 1) =~= s@.subrange(start as int, i as int).push(
                s@[i as int],
            ));
            assert(before.map_values(|p: String| p@).push(s@.subrange(start as int, i + 1))
                =~= init.update(init.len() - 1, init.last().push(s@[i as int])));
        }
        i = i + 1;
    }
    let last = String::from_str(s.substring_char(start, n));
    let ghost before = parts@;
    parts.push(last);
    assert(s@.subrange(0, n as int) =~= s@);
    assert(parts@.map_values(|p: String| p@) =~= before.map_values(|p: String| p@).push(last@));
    parts
}

/// The compression that a file suffix names, if any.
pub fn compression_of(c: &str) -> (r: Option<Compression>)
    ensures
        r == spec_compression(c@),
{
    if str_eq(c, "gz") {
        Some(Compression::Gzip)
    } else if str_eq(c, "bz2") {
        Some(Compression::Bzip2)
    } else if str_eq(c, "xz") {
        Some(Compression::Xz)
    } else if str_eq(c, "zstd") {
        Some(Compression::Zstd)
    } else {
        None
    }
}

fn prefixed(prefix: &str, s: &str) -> (r: String)
    ensures
        r@ == prefix@ + s@,
{
    let mut r = String::from_str(prefix);
    r.append(s);
    r
}

/// The CSV or JSON dataset of path `s` with extension `t`, if `t` names one
/// of those formats.
fn file_conn(s: &str, t: &str, compression: Compression) -> (r: Option<DatasetConn>)
    ensures
        match r {
            Some(c) => (t@ == "csv"@ && c@ == ConnView::Csv(s@, t@, compression)) || (
            is_json_extension(t@) && t@ != "csv"@ && c@ == ConnView::Json(s@, t@, compression)),
            None => t@ != "csv"@ && !is_json_extension(t@),
        },
{
    let opts = FileOpts {
        filename: String::from_str(s),
        extension: String::from_str(t),
        compression,
    };
    if str_eq(t, "csv") {
        Some(DatasetConn::Csv(opts))
    } else if str_eq(t, "json") || str_eq(t, "ndjson") || str_eq(t, "jsonl") {
        Some(DatasetConn::Json(opts))
    } else {
        None
    }
}

/// Parses a connection string; the error is a message for the user.
pub fn parse_dataset_conn(s: &str) -> (r: Result<DatasetConn, String>)
    ensures
        match r {
            Ok(c) => spec_parse_conn(s@) == Ok::<ConnView, Seq<char>>(c@),
            Err(e) => spec_parse_conn(s@) == Err::<ConnView, Seq<char>>(e@),
        },
{
    if starts_with(s, "postgres://") {
        return Ok(DatasetConn::Postgres(String::from_str(s)));
    }
    if ends_with(s, ".parquet") {
        return Ok(DatasetConn::Parquet(String::from_str(s)));
    }
    let parts = split_at_dots(s);
    proof {
        lemma_split_dots_nonempty(s@);
    }
    let ghost views = parts@.map_values(|p: String| p@);
    if parts.len() >= 3 {
        assert(views[1] == parts@[1]@ && views[2] == parts@[2]@);
        let t = parts[1].as_str();
        let c = parts[2].as_str();
        match compression_of(c) {
            None => Err(prefixed("Invalid compression type: ", c)),
            Some(compression) => match file_conn(s, t, compression) {
                Some(conn) => Ok(conn),
                None => Err(prefixed("Invalid file extension: ", t)),
            },
        }
    } else if parts.len() == 2 {
        assert(views[1] == parts@[1]@);
        match file_conn(s, parts[1].as_str(), Compression::Uncompressed) {
            Some(conn) => Ok(conn),
            None => Err(prefixed("Unsupported dataset connection: ", s)),
        }
    } else {
        Err(prefixed("Unsupported dataset connection: ", s))
    }
}

impl ConnectOpts {
    pub fn new(conn: DatasetConn, table: Option<String>, name: String) -> (r: ConnectOpts)
        ensures
            r.conn@ == conn@,
            r.table == table,
            r.name@ == name@,
    {
        ConnectOpts { conn, table, name }
    }
}

} // verus!
