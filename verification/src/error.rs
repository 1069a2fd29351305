//! The application's error type: one variant per kind of failure, each
//! carrying the text of its cause. `display` is the English log text;
//! `user_message` the localized text shown to the user.
use vstd::prelude::*;

use crate::i18n::{ErrorMsg, Lang};
use crate::text::{concat2, concat3, str_to_string};

verus! {

/// What went wrong.
#[derive(Debug)]
pub enum Error {
    /// The configuration is invalid.
    Config(String),
    /// The configuration file could not be loaded.
    ConfigLoad(String),
    /// The configuration file has unsafe permissions.
    ConfigPermission(String),
    /// A connection (SSH or database) failed.
    Connection(String),
    /// The database refused or dropped the connection.
    DatabaseConnection(DbError),
    /// An SQL statement failed.
    Query(String),
    /// The database reported an error while running a query.
    QueryExecution(String),
    /// A query ran out of time.
    QueryTimeout,
    /// The terminal interface failed.
    Tui(String),
    /// Reading or writing failed.
    Io(String),
    /// Anything else; the text is shown as it is.
    Other(String),
}

/// The kind of a database driver failure, as far as the logic tells
/// them apart.
#[derive(Debug, Clone, Copy, PartialEq, Eq, Structural)]
pub enum DbErrorKind {
    /// No pooled connection became free in time.
    PoolTimedOut,
    /// The network failed.
    Io,
    /// The connection settings are invalid.
    Configuration,
    /// The TLS handshake failed.
    Tls,
    /// Anything else.
    Other,
}

/// A failure of the database driver: its kind and its message.
#[derive(Debug)]
pub struct DbError {
    pub kind: DbErrorKind,
    pub message: String,
}

/// A result whose error is an `Error`.
pub type Result<T> = std::result::Result<T, Error>;

/// The text of an error in a language: a fixed lead-in per kind followed
/// by the cause.
pub open spec fn error_text(e: Error, lang: Lang) -> Seq<char> {
    match lang {
        Lang::En => match e {
            Error::Config(d) => "Config error: "@ + d@,
            Error::ConfigLoad(d) => "Failed to load config: "@ + d@,
            Error::ConfigPermission(p) => "Invalid config file permission (recommended: 600): "@ + p@,
            Error::Connection(d) => "Connection error: "@ + d@,
            Error::DatabaseConnection(d) => "Database connection failed: "@ + d.message@,
            Error::Query(d) => "SQL execution failed: "@ + d@,
            Error::QueryExecution(d) => "SQL query execution failed: "@ + d@,
            Error::QueryTimeout => "Query execution timed out"@,
            Error::Tui(d) => "TUI error: "@ + d@,
            Error::Io(d) => "I/O error: "@ + d@,
            Error::Other(d) => d@,
        },
        Lang::Ja => match e {
            Error::Config(d) => "設定エラー: "@ + d@,
            Error::ConfigLoad(d) => "設定ファイルの読み込みに失敗しました: "@ + d@,
            Error::ConfigPermission(p) => "設定ファイルの権限が不正です（推奨: 600）: "@ + p@,
            Error::Connection(d) => "接続エラー: "@ + d@,
            Error::DatabaseConnection(d) => "データベースへの接続に失敗しました: "@ + d.message@,
            Error::Query(d) => "SQLの実行に失敗しました: "@ + d@,
            Error::QueryExecution(d) => "SQLクエリの実行に失敗しました: "@ + d@,
            Error::QueryTimeout => "クエリの実行がタイムアウトしました"@,
            Error::Tui(d) => "TUIエラー: "@ + d@,
            Error::Io(d) => "I/Oエラー: "@ + d@,
            Error::Other(d) => d@,
        },
    }
}

impl Error {
    /// The English text used in logs; it is the English user message.
    pub fn display(&self) -> (r: String)
        ensures
            r@ == error_text(*self, Lang::En),
    {
        match self {
            Error::Config(d) => concat2("Config error: ", d.as_str()),
            Error::ConfigLoad(d) => concat2("Failed to load config: ", d.as_str()),
            Error::ConfigPermission(p) => concat2(
                "Invalid config file permission (recommended: 600): ",
                p.as_str(),
            ),
            Error::Connection(d) => concat2("Connection error: ", d.as_str()),
            Error::DatabaseConnection(d) => concat2("Database connection failed: ", d.message.as_str()),
            Error::Query(d) => concat2("SQL execution failed: ", d.as_str()),
            Error::QueryExecution(d) => concat2("SQL query execution failed: ", d.as_str()),
            Error::QueryTimeout => str_to_string("Query execution timed out"),
            Error::Tui(d) => concat2("TUI error: ", d.as_str()),
            Error::Io(d) => concat2("I/O error: ", d.as_str()),
            Error::Other(d) => str_to_string(d.as_str()),
        }
    }

    /// The message shown to the user, in `lang`, from the error catalog.
    pub fn user_message(&self, lang: Lang) -> (r: String)
        ensures
            r@ == error_text(*self, lang),
    {
        match self {
            Error::Config(d) => ErrorMsg::Config { detail: d.as_str() }.translate(lang),
            Error::ConfigLoad(d) => ErrorMsg::ConfigLoad { detail: d.as_str() }.translate(lang),
            Error::ConfigPermission(p) => ErrorMsg::ConfigPermission { path: p.as_str() }.translate(
                lang,
            ),
            Error::Connection(d) => ErrorMsg::Connection { detail: d.as_str() }.translate(lang),
            Error::DatabaseConnection(d) => ErrorMsg::DatabaseConnection {
                detail: d.message.as_str(),
            }.translate(lang),
            Error::Query(d) => ErrorMsg::Query { detail: d.as_str() }.translate(lang),
            Error::QueryExecution(d) => ErrorMsg::QueryExecution { detail: d.as_str() }.translate(
                lang,
            ),
            Error::QueryTimeout => ErrorMsg::QueryTimeout.translate(lang),
            Error::Tui(d) => ErrorMsg::Tui { detail: d.as_str() }.translate(lang),
            Error::Io(d) => ErrorMsg::Io { detail: d.as_str() }.translate(lang),
            Error::Other(d) => ErrorMsg::Other { detail: d.as_str() }.translate(lang),
        }
    }

    /// A connection error with the given text.
    pub fn connection(msg: &str) -> (r: Error)
        ensures
            r matches Error::Connection(d) && d@ == msg@,
    {
        Error::Connection(str_to_string(msg))
    }

    /// A connection error naming the operation that failed and why.
    pub fn connection_context(operation: &str, error: &str) -> (r: Error)
        ensures
            r matches Error::Connection(d) && d@ == operation@ + ": "@ + error@,
    {
        Error::Connection(concat3(operation, ": ", error))
    }

    /// A configuration error with the given text.
    pub fn config(msg: &str) -> (r: Error)
        ensures
            r matches Error::Config(d) && d@ == msg@,
    {
        Error::Config(str_to_string(msg))
    }

    /// The error for a failed database connection, from the driver's
    /// failure.
    pub fn database_connection_detail(err: DbError) -> (r: Error)
        ensures
            r == Error::DatabaseConnection(err),
    {
        Error::DatabaseConnection(err)
    }
}

} // verus!
