//! Messages in English and Japanese, and the language setting.
//!
//! The language is set once (the first setting wins) and defaults to
//! English; the process keeps it in a `LangCell`.
use vstd::prelude::*;

use crate::text::{push_char, str_eq, str_to_string, concat3};

verus! {

/// A supported language.
#[derive(Debug, Clone, Copy, PartialEq, Eq, Structural)]
pub enum Lang {
    /// English (the default).
    En,
    /// Japanese.
    Ja,
}

impl Default for Lang {
    fn default() -> (r: Self)
        ensures
            r == Lang::En,
    {
        Lang::En
    }
}

/// The language named by a setting: exactly `en` or `ja`.
pub open spec fn lang_named(s: Seq<char>) -> Option<Lang> {
    if s == "en"@ {
        Some(Lang::En)
    } else if s == "ja"@ {
        Some(Lang::Ja)
    } else {
        None
    }
}

/// The message for a language setting that names no supported language.
pub open spec fn unsupported_lang_text(s: Seq<char>) -> Seq<char> {
    "Unsupported language: '"@ + s + "'. Supported: en, ja"@
}

/// Parses a language setting: `en` or `ja`, otherwise an error naming
/// the value and the supported ones.
pub fn parse_lang(s: &str) -> (r: Result<Lang, String>)
    ensures
        r matches Ok(l) ==> lang_named(s@) == Some(l),
        r is Err <==> lang_named(s@) is None,
        r matches Err(e) ==> e@ == unsupported_lang_text(s@),
{
    if str_eq(s, "en") {
        Ok(Lang::En)
    } else if str_eq(s, "ja") {
        Ok(Lang::Ja)
    } else {
        Err(concat3("Unsupported language: '", s, "'. Supported: en, ja"))
    }
}

impl std::str::FromStr for Lang {
    type Err = String;

    fn from_str(s: &str) -> (r: Result<Self, Self::Err>)
        ensures
            r matches Ok(l) ==> lang_named(s@) == Some(l),
            r is Err <==> lang_named(s@) is None,
            r matches Err(e) ==> e@ == unsupported_lang_text(s@),
    {
        parse_lang(s)
    }
}

/// The language of the process: set at most once, English until then.
pub struct LangCell {
    value: Option<Lang>,
}

impl View for LangCell {
    type V = Option<Lang>;

    closed spec fn view(&self) -> Option<Lang> {
        self.value
    }
}

impl LangCell {
    /// A cell with no language set.
    pub fn new() -> (c: Self)
        ensures
            c@ is None,
    {
        LangCell { value: None }
    }
}

/// The language in effect: the one set, or English.
pub open spec fn lang_in_effect(c: Option<Lang>) -> Lang {
    match c {
        Some(l) => l,
        None => Lang::En,
    }
}

/// The cell's value after a setting: the value already set, if any,
/// otherwise `lang`.
pub open spec fn after_setting(c: Option<Lang>, lang: Lang) -> Option<Lang> {
    match c {
        Some(l) => Some(l),
        None => Some(lang),
    }
}

/// The cell's value after the settings `langs`, in order.
pub open spec fn after_settings(c: Option<Lang>, langs: Seq<Lang>) -> Option<Lang>
    decreases langs.len(),
{
    if langs.len() == 0 {
        c
    } else {
        after_settings(after_setting(c, langs[0]), langs.drop_first())
    }
}

/// Sets the language; ignored when one is set already (the first setting wins).
pub fn set_lang(cell: &mut LangCell, lang: Lang)
    ensures
        final(cell)@ == after_setting(old(cell)@, lang),
{
    if cell.value.is_none() {
        cell.value = Some(lang);
    }
}

/// The language in effect (English when none was set).
pub fn get_lang(cell: &LangCell) -> (r: Lang)
    ensures
        r == lang_in_effect(cell@),
{
    match cell.value {
        Some(l) => l,
        None => Lang::En,
    }
}

/// Only the first setting counts: after any number of settings, the
/// value is the one set before them, else the first of them, else none
/// (and the language in effect is English while none was ever set).
pub proof fn law_first_setting_wins(c0: Option<Lang>, langs: Seq<Lang>)
    ensures
        after_settings(c0, langs) == match c0 {
            Some(l) => Some(l),
            None => if langs.len() == 0 {
                None
            } else {
                Some(langs[0])
            },
        },
        lang_in_effect(after_settings(None, langs)) == if langs.len() == 0 {
            Lang::En
        } else {
            langs[0]
        },
    decreases langs.len(),
{
    if langs.len() > 0 {
        law_first_setting_wins(after_setting(c0, langs[0]), langs.drop_first());
        law_first_setting_wins(after_setting(None, langs[0]), langs.drop_first());
    }
}

// ---------------------------------------------------------------------
// Octal numbers
// ---------------------------------------------------------------------

/// The octal digit for `d` (0 to 7).
pub open spec fn octal_digit(d: nat) -> char {
    if d == 0 {
        '0'
    } else if d == 1 {
        '1'
    } else if d == 2 {
        '2'
    } else if d == 3 {
        '3'
    } else if d == 4 {
        '4'
    } else if d == 5 {
        '5'
    } else if d == 6 {
        '6'
    } else {
        '7'
    }
}

/// `n` written in octal, without leading zeros (`0` for zero).
pub open spec fn octal(n: nat) -> Seq<char>
    decreases n,
{
    if n < 8 {
        seq![octal_digit(n)]
    } else {
        octal(n / 8) + seq![octal_digit(n % 8)]
    }
}

fn octal_digit_exec(d: u32) -> (c: char)
    requires
        d < 8,
    ensures
        c == octal_digit(d as nat),
{
    if d == 0 {
        '0'
    } else if d == 1 {
        '1'
    } else if d == 2 {
        '2'
    } else if d == 3 {
        '3'
    } else if d == 4 {
        '4'
    } else if d == 5 {
        '5'
    } else if d == 6 {
        '6'
    } else {
        '7'
    }
}

/// `n` written in octal (as `{:o}` formats it).
pub fn octal_string(n: u32) -> (r: String)
    ensures
        r@ == octal(n as nat),
    decreases n,
{
    if n < 8 {
        let mut s = String::new();
        push_char(&mut s, octal_digit_exec(n));
        s
    } else {
        let mut s = octal_string(n / 8);
        push_char(&mut s, octal_digit_exec(n % 8));
        s
    }
}

// ---------------------------------------------------------------------
// Catalogs
// ---------------------------------------------------------------------

/// Configuration messages.
pub enum ConfigMsg<'a> {
    /// The configuration file does not exist.
    NotFound { path: &'a str },
    /// The TOML could not be parsed.
    ParseFailed { detail: &'a str },
    /// No connection is defined.
    NoConnections,
    /// A required field is empty.
    FieldEmpty { field: &'a str },
    /// A port is 0.
    InvalidPort { field: &'a str },
    /// The file could not be read.
    FileReadFailed { detail: &'a str },
    /// The file is readable by others (the mode is shown in octal).
    PermissionWarning { mode: u32, path: &'a str },
}

/// The English text of each message.
pub open spec fn config_msg_en<'a>(m: ConfigMsg<'a>) -> Seq<char> {
    match m {
        ConfigMsg::NotFound { path } => "Config file not found: "@ + path@ + "\n\nCreate the file:\nmkdir -p ~/.config/sqsh\nvi ~/.config/sqsh/config.toml\n\nExample:\n[[connections]]\nname = \"local\"\n\n[connections.mysql]\nhost = \"127.0.0.1\"\nport = 3306\ndatabase = \"mydb\"\nuser = \"root\"\npassword = \"root\"\nssl_mode = \"disabled\""@,
        ConfigMsg::ParseFailed { detail } => "Failed to parse config file: "@ + detail@,
        ConfigMsg::NoConnections => "No connections defined in config"@,
        ConfigMsg::FieldEmpty { field } => field@ + " is empty"@,
        ConfigMsg::InvalidPort { field } => field@ + " is 0. Please specify a valid port number."@,
        ConfigMsg::FileReadFailed { detail } => "Failed to read file: "@ + detail@,
        ConfigMsg::PermissionWarning { mode, path } => "Config file permission is "@ + octal(mode as nat) + ". chmod 600 is recommended for security: "@ + path@,
    }
}

/// The Japanese text of each message.
pub open spec fn config_msg_ja<'a>(m: ConfigMsg<'a>) -> Seq<char> {
    match m {
        ConfigMsg::NotFound { path } => "設定ファイルが見つかりません: "@ + path@ + "\n\n以下のようにファイルを作成してください:\nmkdir -p ~/.config/sqsh\nvi ~/.config/sqsh/config.toml\n\n設定例:\n[[connections]]\nname = \"local\"\n\n[connections.mysql]\nhost = \"127.0.0.1\"\nport = 3306\ndatabase = \"mydb\"\nuser = \"root\"\npassword = \"root\"\nssl_mode = \"disabled\""@,
        ConfigMsg::ParseFailed { detail } => "設定ファイルの解析に失敗しました: "@ + detail@,
        ConfigMsg::NoConnections => "接続先が1つも定義されていません"@,
        ConfigMsg::FieldEmpty { field } => field@ + "が空です"@,
        ConfigMsg::InvalidPort { field } => field@ + "が0です。正しいポート番号を指定してください。"@,
        ConfigMsg::FileReadFailed { detail } => "ファイルの読み込みに失敗しました: "@ + detail@,
        ConfigMsg::PermissionWarning { mode, path } => "設定ファイルのパーミッションが"@ + octal(mode as nat) + "です。認証情報を含むため chmod 600 を推奨します: "@ + path@,
    }
}

impl<'a> ConfigMsg<'a> {
    /// The English text (see `config_msg_en`).
    pub fn en(&self) -> (r: String)
        ensures
            r@ == config_msg_en(*self),
    {
        match self {
            ConfigMsg::NotFound { path } => {
                let mut s = str_to_string("Config file not found: ");
                s.append(path);
                s.append("\n\nCreate the file:\nmkdir -p ~/.config/sqsh\nvi ~/.config/sqsh/config.toml\n\nExample:\n[[connections]]\nname = \"local\"\n\n[connections.mysql]\nhost = \"127.0.0.1\"\nport = 3306\ndatabase = \"mydb\"\nuser = \"root\"\npassword = \"root\"\nssl_mode = \"disabled\"");
                s
            },
            ConfigMsg::ParseFailed { detail } => {
                let mut s = str_to_string("Failed to parse config file: ");
                s.append(detail);
                s
            },
            ConfigMsg::NoConnections => {
                str_to_string("No connections defined in config")
            },
            ConfigMsg::FieldEmpty { field } => {
                let mut s = str_to_string(field);
                s.append(" is empty");
                s
            },
            ConfigMsg::InvalidPort { field } => {
                let mut s = str_to_string(field);
                s.append(" is 0. Please specify a valid port number.");
                s
            },
            ConfigMsg::FileReadFailed { detail } => {
                let mut s = str_to_string("Failed to read file: ");
                s.append(detail);
                s
            },
            ConfigMsg::PermissionWarning { mode, path } => {
                let mut s = str_to_string("Config file permission is ");
                let o = octal_string(*mode);
                s.append(o.as_str());
                s.append(". chmod 600 is recommended for security: ");
                s.append(path);
                s
            },
        }
    }

    /// The Japanese text (see `config_msg_ja`).
    pub fn ja(&self) -> (r: String)
        ensures
            r@ == config_msg_ja(*self),
    {
        match self {
            ConfigMsg::NotFound { path } => {
                let mut s = str_to_string("設定ファイルが見つかりません: ");
                s.append(path);
                s.append("\n\n以下のようにファイルを作成してください:\nmkdir -p ~/.config/sqsh\nvi ~/.config/sqsh/config.toml\n\n設定例:\n[[connections]]\nname = \"local\"\n\n[connections.mysql]\nhost = \"127.0.0.1\"\nport = 3306\ndatabase = \"mydb\"\nuser = \"root\"\npassword = \"root\"\nssl_mode = \"disabled\"");
                s
            },
            ConfigMsg::ParseFailed { detail } => {
                let mut s = str_to_string("設定ファイルの解析に失敗しました: ");
                s.append(detail);
                s
            },
            ConfigMsg::NoConnections => {
                str_to_string("接続先が1つも定義されていません")
            },
            ConfigMsg::FieldEmpty { field } => {
                let mut s = str_to_string(field);
                s.append("が空です");
                s
            },
            ConfigMsg::InvalidPort { field } => {
                let mut s = str_to_string(field);
                s.append("が0です。正しいポート番号を指定してください。");
                s
            },
            ConfigMsg::FileReadFailed { detail } => {
                let mut s = str_to_string("ファイルの読み込みに失敗しました: ");
                s.append(detail);
                s
            },
            ConfigMsg::PermissionWarning { mode, path } => {
                let mut s = str_to_string("設定ファイルのパーミッションが");
                let o = octal_string(*mode);
                s.append(o.as_str());
                s.append("です。認証情報を含むため chmod 600 を推奨します: ");
                s.append(path);
                s
            },
        }
    }

    /// The text in the given language.
    pub fn translate(&self, lang: Lang) -> (r: String)
        ensures
            r@ == match lang {
                Lang::En => config_msg_en(*self),
                Lang::Ja => config_msg_ja(*self),
            },
    {
        match lang {
            Lang::En => self.en(),
            Lang::Ja => self.ja(),
        }
    }
}

/// `a` occurs in `s` as a run of consecutive characters.
pub open spec fn appears_in(a: Seq<char>, s: Seq<char>) -> bool {
    exists|i: int| 0 <= i && i + a.len() <= s.len() && #[trigger] s.subrange(i, i + a.len()) == a
}

/// The text a configuration message carries from its caller: the path,
/// the detail or the field name; none for `NoConnections`.
pub open spec fn config_msg_argument<'a>(m: ConfigMsg<'a>) -> Option<Seq<char>> {
    match m {
        ConfigMsg::NotFound { path } => Some(path@),
        ConfigMsg::ParseFailed { detail } => Some(detail@),
        ConfigMsg::NoConnections => None,
        ConfigMsg::FieldEmpty { field } => Some(field@),
        ConfigMsg::InvalidPort { field } => Some(field@),
        ConfigMsg::FileReadFailed { detail } => Some(detail@),
        ConfigMsg::PermissionWarning { path, .. } => Some(path@),
    }
}

proof fn lemma_appears(s: Seq<char>, p: Seq<char>, a: Seq<char>, q: Seq<char>)
    requires
        s == p + a + q,
    ensures
        appears_in(a, s),
{
    assert(s.subrange(p.len() as int, (p.len() + a.len()) as int) =~= a);
}

/// Every configuration message, in either language, shows the text it
/// was given (the path, the detail or the field name) verbatim.
pub proof fn law_config_messages_show_their_argument<'a>(m: ConfigMsg<'a>, lang: Lang)
    ensures
        config_msg_argument(m) matches Some(a) ==> appears_in(
            a,
            match lang {
                Lang::En => config_msg_en(m),
                Lang::Ja => config_msg_ja(m),
            },
        ),
{
    let e = Seq::<char>::empty();
    let t = match lang {
        Lang::En => config_msg_en(m),
        Lang::Ja => config_msg_ja(m),
    };
    match m {
        ConfigMsg::NotFound { path } => {
            let p = match lang {
                Lang::En => "Config file not found: "@,
                Lang::Ja => "設定ファイルが見つかりません: "@,
            };
            let q = t.subrange((p.len() + path@.len()) as int, t.len() as int);
            assert(t =~= p + path@ + q);
            lemma_appears(t, p, path@, q);
        },
        ConfigMsg::ParseFailed { detail } => {
            let p = match lang {
                Lang::En => "Failed to parse config file: "@,
                Lang::Ja => "設定ファイルの解析に失敗しました: "@,
            };
            assert(t =~= p + detail@ + e);
            lemma_appears(t, p, detail@, e);
        },
        ConfigMsg::NoConnections => {},
        ConfigMsg::FieldEmpty { field } => {
            let q = match lang {
                Lang::En => " is empty"@,
                Lang::Ja => "が空です"@,
            };
            assert(t =~= e + field@ + q);
            lemma_appears(t, e, field@, q);
        },
        ConfigMsg::InvalidPort { field } => {
            let q = match lang {
                Lang::En => " is 0. Please specify a valid port number."@,
                Lang::Ja => "が0です。正しいポート番号を指定してください。"@,
            };
            assert(t =~= e + field@ + q);
            lemma_appears(t, e, field@, q);
        },
        ConfigMsg::FileReadFailed { detail } => {
            let p = match lang {
                Lang::En => "Failed to read file: "@,
                Lang::Ja => "ファイルの読み込みに失敗しました: "@,
            };
            assert(t =~= p + detail@ + e);
            lemma_appears(t, p, detail@, e);
        },
        ConfigMsg::PermissionWarning { mode, path } => {
            let p = match lang {
                Lang::En => "Config file permission is "@ + octal(mode as nat) + ". chmod 600 is recommended for security: "@,
                Lang::Ja => "設定ファイルのパーミッションが"@ + octal(mode as nat) + "です。認証情報を含むため chmod 600 を推奨します: "@,
            };
            assert(t =~= p + path@ + e);
            lemma_appears(t, p, path@, e);
        },
    }
}

/// Error messages, one per kind of error.
pub enum ErrorMsg<'a> {
    Config { detail: &'a str },
    ConfigLoad { detail: &'a str },
    ConfigPermission { path: &'a str },
    Connection { detail: &'a str },
    DatabaseConnection { detail: &'a str },
    Query { detail: &'a str },
    QueryExecution { detail: &'a str },
    QueryTimeout,
    Tui { detail: &'a str },
    Io { detail: &'a str },
    Other { detail: &'a str },
}

/// The English text of each message.
pub open spec fn error_msg_en<'a>(m: ErrorMsg<'a>) -> Seq<char> {
    match m {
        ErrorMsg::Config { detail } => "Config error: "@ + detail@,
        ErrorMsg::ConfigLoad { detail } => "Failed to load config: "@ + detail@,
        ErrorMsg::ConfigPermission { path } => "Invalid config file permission (recommended: 600): "@ + path@,
        ErrorMsg::Connection { detail } => "Connection error: "@ + detail@,
        ErrorMsg::DatabaseConnection { detail } => "Database connection failed: "@ + detail@,
        ErrorMsg::Query { detail } => "SQL execution failed: "@ + detail@,
        ErrorMsg::QueryExecution { detail } => "SQL query execution failed: "@ + detail@,
        ErrorMsg::QueryTimeout => "Query execution timed out"@,
        ErrorMsg::Tui { detail } => "TUI error: "@ + detail@,
        ErrorMsg::Io { detail } => "I/O error: "@ + detail@,
        ErrorMsg::Other { detail } => detail@,
    }
}

/// The Japanese text of each message.
pub open spec fn error_msg_ja<'a>(m: ErrorMsg<'a>) -> Seq<char> {
    match m {
        ErrorMsg::Config { detail } => "設定エラー: "@ + detail@,
        ErrorMsg::ConfigLoad { detail } => "設定ファイルの読み込みに失敗しました: "@ + detail@,
        ErrorMsg::ConfigPermission { path } => "設定ファイルの権限が不正です（推奨: 600）: "@ + path@,
        ErrorMsg::Connection { detail } => "接続エラー: "@ + detail@,
        ErrorMsg::DatabaseConnection { detail } => "データベースへの接続に失敗しました: "@ + detail@,
        ErrorMsg::Query { detail } => "SQLの実行に失敗しました: "@ + detail@,
        ErrorMsg::QueryExecution { detail } => "SQLクエリの実行に失敗しました: "@ + detail@,
        ErrorMsg::QueryTimeout => "クエリの実行がタイムアウトしました"@,
        ErrorMsg::Tui { detail } => "TUIエラー: "@ + detail@,
        ErrorMsg::Io { detail } => "I/Oエラー: "@ + detail@,
        ErrorMsg::Other { detail } => detail@,
    }
}

impl<'a> ErrorMsg<'a> {
    /// The English text (see `error_msg_en`).
    pub fn en(&self) -> (r: String)
        ensures
            r@ == error_msg_en(*self),
    {
        match self {
            ErrorMsg::Config { detail } => {
                let mut s = str_to_string("Config error: ");
                s.append(detail);
                s
            },
            ErrorMsg::ConfigLoad { detail } => {
                let mut s = str_to_string("Failed to load config: ");
                s.append(detail);
                s
            },
            ErrorMsg::ConfigPermission { path } => {
                let mut s = str_to_string("Invalid config file permission (recommended: 600): ");
                s.append(path);
                s
            },
            ErrorMsg::Connection { detail } => {
                let mut s = str_to_string("Connection error: ");
                s.append(detail);
                s
            },
            ErrorMsg::DatabaseConnection { detail } => {
                let mut s = str_to_string("Database connection failed: ");
                s.append(detail);
                s
            },
            ErrorMsg::Query { detail } => {
                let mut s = str_to_string("SQL execution failed: ");
                s.append(detail);
                s
            },
            ErrorMsg::QueryExecution { detail } => {
                let mut s = str_to_string("SQL query execution failed: ");
                s.append(detail);
                s
            },
            ErrorMsg::QueryTimeout => {
                str_to_string("Query execution timed out")
            },
            ErrorMsg::Tui { detail } => {
                let mut s = str_to_string("TUI error: ");
                s.append(detail);
                s
            },
            ErrorMsg::Io { detail } => {
                let mut s = str_to_string("I/O error: ");
                s.append(detail);
                s
            },
            ErrorMsg::Other { detail } => {
                str_to_string(detail)
            },
        }
    }

    /// The Japanese text (see `error_msg_ja`).
    pub fn ja(&self) -> (r: String)
        ensures
            r@ == error_msg_ja(*self),
    {
        match self {
            ErrorMsg::Config { detail } => {
                let mut s = str_to_string("設定エラー: ");
                s.append(detail);
                s
            },
            ErrorMsg::ConfigLoad { detail } => {
                let mut s = str_to_string("設定ファイルの読み込みに失敗しました: ");
                s.append(detail);
                s
            },
            ErrorMsg::ConfigPermission { path } => {
                let mut s = str_to_string("設定ファイルの権限が不正です（推奨: 600）: ");
                s.append(path);
                s
            },
            ErrorMsg::Connection { detail } => {
                let mut s = str_to_string("接続エラー: ");
                s.append(detail);
                s
            },
            ErrorMsg::DatabaseConnection { detail } => {
                let mut s = str_to_string("データベースへの接続に失敗しました: ");
                s.append(detail);
                s
            },
            ErrorMsg::Query { detail } => {
                let mut s = str_to_string("SQLの実行に失敗しました: ");
                s.append(detail);
                s
            },
            ErrorMsg::QueryExecution { detail } => {
                let mut s = str_to_string("SQLクエリの実行に失敗しました: ");
                s.append(detail);
                s
            },
            ErrorMsg::QueryTimeout => {
                str_to_string("クエリの実行がタイムアウトしました")
            },
            ErrorMsg::Tui { detail } => {
                let mut s = str_to_string("TUIエラー: ");
                s.append(detail);
                s
            },
            ErrorMsg::Io { detail } => {
                let mut s = str_to_string("I/Oエラー: ");
                s.append(detail);
                s
            },
            ErrorMsg::Other { detail } => {
                str_to_string(detail)
            },
        }
    }

    /// The text in the given language.
    pub fn translate(&self, lang: Lang) -> (r: String)
        ensures
            r@ == match lang {
                Lang::En => error_msg_en(*self),
                Lang::Ja => error_msg_ja(*self),
            },
    {
        match lang {
            Lang::En => self.en(),
            Lang::Ja => self.ja(),
        }
    }
}

/// Texts of the terminal screens.
pub enum TuiMsg<'a> {
    SelectingTitle,
    SelectingHelp,
    SqlInputTitle,
    SqlInputReadonlyLabel,
    SqlInputTitleSuffix,
    SqlInputHint,
    ConnectionInfo,
    ConnectionTarget,
    Host,
    Database,
    SelectedDatabase,
    ConnectedHelp,
    QueryHelp,
    ConnectingTitle,
    ConnectingMessage { connection_name: &'a str },
    ExecutingQueryTitle,
    StatusTitle,
    ExecutingMessage,
    ColumnSelecting,
    SelectedRecordTitle,
    ErrorTitle,
    ErrorHelp,
    QueryResultPrompt,
    SkimInitError,
    SelectConnectionPrompt,
    ColumnSelectPrompt { table: &'a str },
    NoColumnsFound { table: &'a str },
    QueryFailed { detail: &'a str },
    QueryCancelled { query: &'a str },
    QueryTaskFailed { detail: &'a str },
    ReadonlyBlocked,
}

/// The English text of each message.
pub open spec fn tui_msg_en<'a>(m: TuiMsg<'a>) -> Seq<char> {
    match m {
        TuiMsg::SelectingTitle => "Select Connection"@,
        TuiMsg::SelectingHelp => "Enter: select | q: quit"@,
        TuiMsg::SqlInputTitle => "SQL Input"@,
        TuiMsg::SqlInputReadonlyLabel => "[READONLY]"@,
        TuiMsg::SqlInputTitleSuffix => "(Enter: run, Ctrl+D: databases, Ctrl+T: tables)"@,
        TuiMsg::SqlInputHint => "Enter SQL and press Enter to execute."@,
        TuiMsg::ConnectionInfo => "Connection Info"@,
        TuiMsg::ConnectionTarget => "Target"@,
        TuiMsg::Host => "Host"@,
        TuiMsg::Database => "Database"@,
        TuiMsg::SelectedDatabase => "Selected Database"@,
        TuiMsg::ConnectedHelp => "Enter: run | Ctrl+D: SHOW DATABASES | Ctrl+T: SHOW TABLES | Ctrl+S: select columns | q: quit | sd/st/sc: alias"@,
        TuiMsg::QueryHelp => "Enter: run query | q: quit"@,
        TuiMsg::ConnectingTitle => "Connecting"@,
        TuiMsg::ConnectingMessage { connection_name } => "Connecting to '"@ + connection_name@ + "'..."@,
        TuiMsg::ExecutingQueryTitle => "Executing Query"@,
        TuiMsg::StatusTitle => "Status"@,
        TuiMsg::ExecutingMessage => "Executing query..."@,
        TuiMsg::ColumnSelecting => "Selecting columns..."@,
        TuiMsg::SelectedRecordTitle => "Selected Record"@,
        TuiMsg::ErrorTitle => "Error"@,
        TuiMsg::ErrorHelp => "Enter/ESC/q: close"@,
        TuiMsg::QueryResultPrompt => "Result > "@,
        TuiMsg::SkimInitError => "skim initialization error"@,
        TuiMsg::SelectConnectionPrompt => "Select connection > "@,
        TuiMsg::ColumnSelectPrompt { table } => table@ + ": select columns (Tab: multi-select, Enter: confirm) > "@,
        TuiMsg::NoColumnsFound { table } => "No columns found for table '"@ + table@ + "'"@,
        TuiMsg::QueryFailed { detail } => "Query execution failed: "@ + detail@,
        TuiMsg::QueryCancelled { query } => "Query execution was cancelled: "@ + query@,
        TuiMsg::QueryTaskFailed { detail } => "Query execution task crashed: "@ + detail@,
        TuiMsg::ReadonlyBlocked => "Write operations are not allowed in readonly mode."@,
    }
}

/// The Japanese text of each message.
pub open spec fn tui_msg_ja<'a>(m: TuiMsg<'a>) -> Seq<char> {
    match m {
        TuiMsg::SelectingTitle => "接続先選択"@,
        TuiMsg::SelectingHelp => "Enter: 選択 | q: 終了"@,
        TuiMsg::SqlInputTitle => "SQL入力"@,
        TuiMsg::SqlInputReadonlyLabel => "[READONLY]"@,
        TuiMsg::SqlInputTitleSuffix => "(Enter: 実行, Ctrl+D: DB一覧, Ctrl+T: テーブル一覧)"@,
        TuiMsg::SqlInputHint => "SQLを入力してEnterで実行してください。"@,
        TuiMsg::ConnectionInfo => "接続情報"@,
        TuiMsg::ConnectionTarget => "接続先"@,
        TuiMsg::Host => "ホスト"@,
        TuiMsg::Database => "データベース"@,
        TuiMsg::SelectedDatabase => "選択データベース"@,
        TuiMsg::ConnectedHelp => "Enter: 実行 | Ctrl+D: SHOW DATABASES | Ctrl+T: SHOW TABLES | Ctrl+S: カラム選択 | q: 終了 | sd/st/sc: エイリアス"@,
        TuiMsg::QueryHelp => "Enter: クエリ実行 | q: 終了"@,
        TuiMsg::ConnectingTitle => "接続中"@,
        TuiMsg::ConnectingMessage { connection_name } => "'"@ + connection_name@ + "' に接続しています..."@,
        TuiMsg::ExecutingQueryTitle => "実行中のクエリ"@,
        TuiMsg::StatusTitle => "ステータス"@,
        TuiMsg::ExecutingMessage => "クエリを実行しています..."@,
        TuiMsg::ColumnSelecting => "カラム選択中..."@,
        TuiMsg::SelectedRecordTitle => "選択レコード"@,
        TuiMsg::ErrorTitle => "エラー"@,
        TuiMsg::ErrorHelp => "Enter/ESC/q: 閉じる"@,
        TuiMsg::QueryResultPrompt => "結果 > "@,
        TuiMsg::SkimInitError => "skim初期化エラー"@,
        TuiMsg::SelectConnectionPrompt => "接続先を選択してください > "@,
        TuiMsg::ColumnSelectPrompt { table } => table@ + " のカラムを選択 (Tab: 複数選択, Enter: 確定) > "@,
        TuiMsg::NoColumnsFound { table } => "テーブル '"@ + table@ + "' のカラムが見つかりません"@,
        TuiMsg::QueryFailed { detail } => "クエリ実行に失敗しました: "@ + detail@,
        TuiMsg::QueryCancelled { query } => "クエリ実行がキャンセルされました: "@ + query@,
        TuiMsg::QueryTaskFailed { detail } => "クエリ実行タスクが異常終了しました: "@ + detail@,
        TuiMsg::ReadonlyBlocked => "readonlyモードのため、書き込み操作は実行できません。"@,
    }
}

impl<'a> TuiMsg<'a> {
    /// The English text (see `tui_msg_en`).
    pub fn en(&self) -> (r: String)
        ensures
            r@ == tui_msg_en(*self),
    {
        match self {
            TuiMsg::SelectingTitle => {
                str_to_string("Select Connection")
            },
            TuiMsg::SelectingHelp => {
                str_to_string("Enter: select | q: quit")
            },
            TuiMsg::SqlInputTitle => {
                str_to_string("SQL Input")
            },
            TuiMsg::SqlInputReadonlyLabel => {
                str_to_string("[READONLY]")
            },
            TuiMsg::SqlInputTitleSuffix => {
                str_to_string("(Enter: run, Ctrl+D: databases, Ctrl+T: tables)")
            },
            TuiMsg::SqlInputHint => {
                str_to_string("Enter SQL and press Enter to execute.")
            },
            TuiMsg::ConnectionInfo => {
                str_to_string("Connection Info")
            },
            TuiMsg::ConnectionTarget => {
                str_to_string("Target")
            },
            TuiMsg::Host => {
                str_to_string("Host")
            },
            TuiMsg::Database => {
                str_to_string("Database")
            },
            TuiMsg::SelectedDatabase => {
                str_to_string("Selected Database")
            },
            TuiMsg::ConnectedHelp => {
                str_to_string("Enter: run | Ctrl+D: SHOW DATABASES | Ctrl+T: SHOW TABLES | Ctrl+S: select columns | q: quit | sd/st/sc: alias")
            },
            TuiMsg::QueryHelp => {
                str_to_string("Enter: run query | q: quit")
            },
            TuiMsg::ConnectingTitle => {
                str_to_string("Connecting")
            },
            TuiMsg::ConnectingMessage { connection_name } => {
                let mut s = str_to_string("Connecting to '");
                s.append(connection_name);
                s.append("'...");
                s
            },
            TuiMsg::ExecutingQueryTitle => {
                str_to_string("Executing Query")
            },
            TuiMsg::StatusTitle => {
                str_to_string("Status")
            },
            TuiMsg::ExecutingMessage => {
                str_to_string("Executing query...")
            },
            TuiMsg::ColumnSelecting => {
                str_to_string("Selecting columns...")
            },
            TuiMsg::SelectedRecordTitle => {
                str_to_string("Selected Record")
            },
            TuiMsg::ErrorTitle => {
                str_to_string("Error")
            },
            TuiMsg::ErrorHelp => {
                str_to_string("Enter/ESC/q: close")
            },
            TuiMsg::QueryResultPrompt => {
                str_to_string("Result > ")
            },
            TuiMsg::SkimInitError => {
                str_to_string("skim initialization error")
            },
            TuiMsg::SelectConnectionPrompt => {
                str_to_string("Select connection > ")
            },
            TuiMsg::ColumnSelectPrompt { table } => {
                let mut s = str_to_string(table);
                s.append(": select columns (Tab: multi-select, Enter: confirm) > ");
                s
            },
            TuiMsg::NoColumnsFound { table } => {
                let mut s = str_to_string("No columns found for table '");
                s.append(table);
                s.append("'");
                s
            },
            TuiMsg::QueryFailed { detail } => {
                let mut s = str_to_string("Query execution failed: ");
                s.append(detail);
                s
            },
            TuiMsg::QueryCancelled { query } => {
                let mut s = str_to_string("Query execution was cancelled: ");
                s.append(query);
                s
            },
            TuiMsg::QueryTaskFailed { detail } => {
                let mut s = str_to_string("Query execution task crashed: ");
                s.append(detail);
                s
            },
            TuiMsg::ReadonlyBlocked => {
                str_to_string("Write operations are not allowed in readonly mode.")
            },
        }
    }

    /// The Japanese text (see `tui_msg_ja`).
    pub fn ja(&self) -> (r: String)
        ensures
            r@ == tui_msg_ja(*self),
    {
        match self {
            TuiMsg::SelectingTitle => {
                str_to_string("接続先選択")
            },
            TuiMsg::SelectingHelp => {
                str_to_string("Enter: 選択 | q: 終了")
            },
            TuiMsg::SqlInputTitle => {
                str_to_string("SQL入力")
            },
            TuiMsg::SqlInputReadonlyLabel => {
                str_to_string("[READONLY]")
            },
            TuiMsg::SqlInputTitleSuffix => {
                str_to_string("(Enter: 実行, Ctrl+D: DB一覧, Ctrl+T: テーブル一覧)")
            },
            TuiMsg::SqlInputHint => {
                str_to_string("SQLを入力してEnterで実行してください。")
            },
            TuiMsg::ConnectionInfo => {
                str_to_string("接続情報")
            },
            TuiMsg::ConnectionTarget => {
                str_to_string("接続先")
            },
            TuiMsg::Host => {
                str_to_string("ホスト")
            },
            TuiMsg::Database => {
                str_to_string("データベース")
            },
            TuiMsg::SelectedDatabase => {
                str_to_string("選択データベース")
            },
            TuiMsg::ConnectedHelp => {
                str_to_string("Enter: 実行 | Ctrl+D: SHOW DATABASES | Ctrl+T: SHOW TABLES | Ctrl+S: カラム選択 | q: 終了 | sd/st/sc: エイリアス")
            },
            TuiMsg::QueryHelp => {
                str_to_string("Enter: クエリ実行 | q: 終了")
            },
            TuiMsg::ConnectingTitle => {
                str_to_string("接続中")
            },
            TuiMsg::ConnectingMessage { connection_name } => {
                let mut s = str_to_string("'");
                s.append(connection_name);
                s.append("' に接続しています...");
                s
            },
            TuiMsg::ExecutingQueryTitle => {
                str_to_string("実行中のクエリ")
            },
            TuiMsg::StatusTitle => {
                str_to_string("ステータス")
            },
            TuiMsg::ExecutingMessage => {
                str_to_string("クエリを実行しています...")
            },
            TuiMsg::ColumnSelecting => {
                str_to_string("カラム選択中...")
            },
            TuiMsg::SelectedRecordTitle => {
                str_to_string("選択レコード")
            },
            TuiMsg::ErrorTitle => {
                str_to_string("エラー")
            },
            TuiMsg::ErrorHelp => {
                str_to_string("Enter/ESC/q: 閉じる")
            },
            TuiMsg::QueryResultPrompt => {
                str_to_string("結果 > ")
            },
            TuiMsg::SkimInitError => {
                str_to_string("skim初期化エラー")
            },
            TuiMsg::SelectConnectionPrompt => {
                str_to_string("接続先を選択してください > ")
            },
            TuiMsg::ColumnSelectPrompt { table } => {
                let mut s = str_to_string(table);
                s.append(" のカラムを選択 (Tab: 複数選択, Enter: 確定) > ");
                s
            },
            TuiMsg::NoColumnsFound { table } => {
                let mut s = str_to_string("テーブル '");
                s.append(table);
                s.append("' のカラムが見つかりません");
                s
            },
            TuiMsg::QueryFailed { detail } => {
                let mut s = str_to_string("クエリ実行に失敗しました: ");
                s.append(detail);
                s
            },
            TuiMsg::QueryCancelled { query } => {
                let mut s = str_to_string("クエリ実行がキャンセルされました: ");
                s.append(query);
                s
            },
            TuiMsg::QueryTaskFailed { detail } => {
                let mut s = str_to_string("クエリ実行タスクが異常終了しました: ");
                s.append(detail);
                s
            },
            TuiMsg::ReadonlyBlocked => {
                str_to_string("readonlyモードのため、書き込み操作は実行できません。")
            },
        }
    }

    /// The text in the given language.
    pub fn translate(&self, lang: Lang) -> (r: String)
        ensures
            r@ == match lang {
                Lang::En => tui_msg_en(*self),
                Lang::Ja => tui_msg_ja(*self),
            },
    {
        match lang {
            Lang::En => self.en(),
            Lang::Ja => self.ja(),
        }
    }
}

/// Connection messages.
pub enum ConnectionMsg<'a> {
    /// Read-only mode could not be set.
    ReadonlySetFailed { detail: &'a str },
    /// The connection failed for an unknown reason.
    ConnectionFailed,
    /// Both key and agent SSH authentication failed.
    SshAuthFailed { key_err: &'a str, agent_err: &'a str },
    /// SSH agent authentication failed.
    SshAgentAuthFailed { detail: &'a str },
    /// SSH authentication failed.
    SshAuthError,
}

/// The English text of each message.
pub open spec fn connection_msg_en<'a>(m: ConnectionMsg<'a>) -> Seq<char> {
    match m {
        ConnectionMsg::ReadonlySetFailed { detail } => "Failed to set readonly mode: "@ + detail@,
        ConnectionMsg::ConnectionFailed => "Connection failed (unknown cause)"@,
        ConnectionMsg::SshAuthFailed { key_err, agent_err } => "SSH authentication failed. Key authentication error: "@ + key_err@ + ". SSH agent authentication error: "@ + agent_err@,
        ConnectionMsg::SshAgentAuthFailed { detail } => "SSH agent authentication failed: "@ + detail@ + ". Please set key_path or register your key in the SSH agent (e.g., 1Password)."@,
        ConnectionMsg::SshAuthError => "SSH authentication failed. Please check your credentials."@,
    }
}

/// The Japanese text of each message.
pub open spec fn connection_msg_ja<'a>(m: ConnectionMsg<'a>) -> Seq<char> {
    match m {
        ConnectionMsg::ReadonlySetFailed { detail } => "readonlyモード設定に失敗: "@ + detail@,
        ConnectionMsg::ConnectionFailed => "接続に失敗しました（原因不明）"@,
        ConnectionMsg::SshAuthFailed { key_err, agent_err } => "SSH認証に失敗しました。鍵ファイル認証エラー: "@ + key_err@ + "。SSH agent認証エラー: "@ + agent_err@,
        ConnectionMsg::SshAgentAuthFailed { detail } => "SSH agent認証に失敗しました: "@ + detail@ + "。key_pathを設定するか、利用中のSSH agent（例: 1Password）に鍵を登録してください。"@,
        ConnectionMsg::SshAuthError => "SSH認証に失敗しました。認証情報を確認してください。"@,
    }
}

impl<'a> ConnectionMsg<'a> {
    /// The English text (see `connection_msg_en`).
    pub fn en(&self) -> (r: String)
        ensures
            r@ == connection_msg_en(*self),
    {
        match self {
            ConnectionMsg::ReadonlySetFailed { detail } => {
                let mut s = str_to_string("Failed to set readonly mode: ");
                s.append(detail);
                s
            },
            ConnectionMsg::ConnectionFailed => {
                str_to_string("Connection failed (unknown cause)")
            },
            ConnectionMsg::SshAuthFailed { key_err, agent_err } => {
                let mut s = str_to_string("SSH authentication failed. Key authentication error: ");
                s.append(key_err);
                s.append(". SSH agent authentication error: ");
                s.append(agent_err);
                s
            },
            ConnectionMsg::SshAgentAuthFailed { detail } => {
                let mut s = str_to_string("SSH agent authentication failed: ");
                s.append(detail);
                s.append(". Please set key_path or register your key in the SSH agent (e.g., 1Password).");
                s
            },
            ConnectionMsg::SshAuthError => {
                str_to_string("SSH authentication failed. Please check your credentials.")
            },
        }
    }

    /// The Japanese text (see `connection_msg_ja`).
    pub fn ja(&self) -> (r: String)
        ensures
            r@ == connection_msg_ja(*self),
    {
        match self {
            ConnectionMsg::ReadonlySetFailed { detail } => {
                let mut s = str_to_string("readonlyモード設定に失敗: ");
                s.append(detail);
                s
            },
            ConnectionMsg::ConnectionFailed => {
                str_to_string("接続に失敗しました（原因不明）")
            },
            ConnectionMsg::SshAuthFailed { key_err, agent_err } => {
                let mut s = str_to_string("SSH認証に失敗しました。鍵ファイル認証エラー: ");
                s.append(key_err);
                s.append("。SSH agent認証エラー: ");
                s.append(agent_err);
                s
            },
            ConnectionMsg::SshAgentAuthFailed { detail } => {
                let mut s = str_to_string("SSH agent認証に失敗しました: ");
                s.append(detail);
                s.append("。key_pathを設定するか、利用中のSSH agent（例: 1Password）に鍵を登録してください。");
                s
            },
            ConnectionMsg::SshAuthError => {
                str_to_string("SSH認証に失敗しました。認証情報を確認してください。")
            },
        }
    }

    /// The text in the given language.
    pub fn translate(&self, lang: Lang) -> (r: String)
        ensures
            r@ == match lang {
                Lang::En => connection_msg_en(*self),
                Lang::Ja => connection_msg_ja(*self),
            },
    {
        match lang {
            Lang::En => self.en(),
            Lang::Ja => self.ja(),
        }
    }
}
} // verus!
