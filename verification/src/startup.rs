//! Start-up decisions: which configuration file is read, which language
//! the interface speaks, how much is logged, and the errors of loading
//! the configuration.
use vstd::prelude::*;

use crate::error::Error;
use crate::i18n::{
    config_msg_en, config_msg_ja, lang_named, parse_lang, unsupported_lang_text, ConfigMsg,
    Lang,
};
use crate::text::{concat2, str_to_string};

verus! {

/// Whether tilde expansion applies to `path`: it is `~` alone or starts
/// with `~/` (or `~` and a backslash, which counts only on Windows); `~user` does not.
pub open spec fn expands_tilde(path: Seq<char>) -> bool {
    path.len() > 0 && path[0] == '~' && (path.len() == 1 || path[1] == '/' || path[1] == '\\')
}

/// What tilde expansion may give for `path`: where expansion applies (see
/// `expands_tilde`), the path itself or some home directory followed by
/// what comes after the `~`; otherwise the path itself.
pub open spec fn tilde_result(path: Seq<char>, r: Seq<char>) -> bool {
    if expands_tilde(path) {
        r == path || exists|home: Seq<char>| r == home + path.subrange(1, path.len() as int)
    } else {
        r == path
    }
}

/// Calls `shellexpand::tilde`: `~` alone or `~/...` comes back with the
/// `~` replaced by the home directory, or unchanged when there is none;
/// any other path (`~user/...` included) comes back unchanged. Which home
/// directory (it comes from the environment) is not stated.
#[verifier::external_body]
pub(crate) fn expand_tilde(path: &str) -> (r: String)
    ensures
        tilde_result(path@, r@),
{
    shellexpand::tilde(path).to_string()
}

/// The standard place of the configuration file, before tilde expansion.
pub open spec fn standard_config_path() -> Seq<char> {
    "~/.config/sqsh/config.toml"@
}

/// The configuration file in the working directory.
pub open spec fn local_config_path() -> Seq<char> {
    "config.toml"@
}

/// The configuration file to read when none is given on the command
/// line: the standard file (`standard`, already expanded) if it exists,
/// else `config.toml` here if it exists, else the standard file, whose
/// absence loading then reports.
pub fn default_config_path(standard: String, standard_exists: bool, local_exists: bool) -> (r: String)
    ensures
        r@ == (if !standard_exists && local_exists {
            local_config_path()
        } else {
            standard@
        }),
{
    if !standard_exists && local_exists {
        proof {
            reveal_strlit("config.toml");
        }
        str_to_string("config.toml")
    } else {
        standard
    }
}

/// The configuration file to read: the path given on the command line
/// (tilde-expanded); otherwise the choice of `default_config_path`, asked
/// of `file_exists` (which tells whether a file exists) first for the
/// expanded standard file and then, if that one is missing, for
/// `config.toml`.
pub fn resolve_config_path<F: Fn(&str) -> bool>(explicit: Option<&str>, file_exists: F) -> (r: String)
    requires
        forall|p: &str| call_requires(file_exists, (p,)),
    ensures
        explicit matches Some(e) ==> tilde_result(e@, r@),
        explicit is None ==> exists|standard: &str, found: bool|
            #![trigger call_ensures(file_exists, (standard,), found)]
            tilde_result(standard_config_path(), standard@) && call_ensures(file_exists, (standard,), found) && if found {
                r@ == standard@
            } else {
                exists|local: bool|
                    #![trigger call_ensures(file_exists, ("config.toml",), local)]
                    call_ensures(file_exists, ("config.toml",), local) && r@ == (if local {
                        local_config_path()
                    } else {
                        standard@
                    })
            },
{
    match explicit {
        Some(path) => expand_tilde(path),
        None => {
            let standard = expand_tilde("~/.config/sqsh/config.toml");
            proof {
                reveal_strlit("~/.config/sqsh/config.toml");
                reveal_strlit("config.toml");
            }
            let found = file_exists(standard.as_str());
            if found {
                return default_config_path(standard, true, false);
            }
            let local = file_exists("config.toml");
            default_config_path(standard, false, local)
        },
    }
}

/// Where the interface language comes from when an invalid setting stops
/// the start.
#[derive(Debug, Clone, Copy, PartialEq, Eq, Structural)]
pub enum LangSource {
    CommandLine,
    ConfigFile,
}

/// The language in effect: the command-line option, else the setting of
/// the configuration file, else English; an invalid value in the first
/// one given is an error naming its source.
pub open spec fn lang_choice(cli: Option<Seq<char>>, config: Option<Seq<char>>) -> Result<Lang, LangSource> {
    match cli {
        Some(c) => match lang_named(c) {
            Some(l) => Ok(l),
            None => Err(LangSource::CommandLine),
        },
        None => match config {
            Some(c) => match lang_named(c) {
                Some(l) => Ok(l),
                None => Err(LangSource::ConfigFile),
            },
            None => Ok(Lang::En),
        },
    }
}

/// `view` of an optional string slice.
pub open spec fn opt_str(o: Option<&str>) -> Option<Seq<char>> {
    match o {
        Some(s) => Some(s@),
        None => None,
    }
}

/// The message of an invalid language value from `source` that the
/// parser rejected with `reason`.
pub open spec fn invalid_lang_text(source: LangSource, reason: Seq<char>) -> Seq<char> {
    match source {
        LangSource::CommandLine => "Invalid --lang value: "@ + reason,
        LangSource::ConfigFile => "Invalid language in config.toml: "@ + reason,
    }
}

/// The language of the interface (see `lang_choice`); an invalid value
/// gives the message the program stops with.
pub fn resolve_lang(cli: Option<&str>, config: Option<&str>) -> (r: Result<Lang, String>)
    ensures
        match lang_choice(opt_str(cli), opt_str(config)) {
            Ok(l) => r == Ok::<Lang, String>(l),
            Err(LangSource::CommandLine) => r matches Err(m) && m@ == invalid_lang_text(
                LangSource::CommandLine,
                unsupported_lang_text(opt_str(cli)->0),
            ),
            Err(LangSource::ConfigFile) => r matches Err(m) && m@ == invalid_lang_text(
                LangSource::ConfigFile,
                unsupported_lang_text(opt_str(config)->0),
            ),
        },
{
    match cli {
        Some(c) => match parse_lang(c) {
            Ok(l) => Ok(l),
            Err(e) => {
                let m = concat2("Invalid --lang value: ", e.as_str());
                assert(m@ == invalid_lang_text(LangSource::CommandLine, e@));
                Err(m)
            },
        },
        None => match config {
            Some(c) => match parse_lang(c) {
                Ok(l) => Ok(l),
                Err(e) => {
                    let m = concat2("Invalid language in config.toml: ", e.as_str());
                    assert(m@ == invalid_lang_text(LangSource::ConfigFile, e@));
                    Err(m)
                },
            },
            None => Ok(Lang::En),
        },
    }
}

/// The log level when the environment sets none: `debug` when verbose,
/// `info` otherwise.
pub fn default_log_filter(verbose: bool) -> (r: String)
    ensures
        r@ == (if verbose {
            "debug"@
        } else {
            "info"@
        }),
{
    if verbose {
        str_to_string("debug")
    } else {
        str_to_string("info")
    }
}

/// A configuration message in `lang`.
pub open spec fn config_text<'a>(m: ConfigMsg<'a>, lang: Lang) -> Seq<char> {
    match lang {
        Lang::En => config_msg_en(m),
        Lang::Ja => config_msg_ja(m),
    }
}

/// The error for a configuration file that does not exist.
pub fn config_not_found(path: &str, lang: Lang) -> (e: Error)
    ensures
        e matches Error::ConfigLoad(d) && d@ == config_text(ConfigMsg::NotFound { path }, lang),
{
    Error::ConfigLoad(ConfigMsg::NotFound { path }.translate(lang))
}

/// The error for a configuration file that could not be read.
pub fn config_read_failed(detail: &str, lang: Lang) -> (e: Error)
    ensures
        e matches Error::ConfigLoad(d) && d@ == config_text(ConfigMsg::FileReadFailed { detail }, lang),
{
    Error::ConfigLoad(ConfigMsg::FileReadFailed { detail }.translate(lang))
}

/// The error for a configuration file that is not valid TOML of the
/// expected shape.
pub fn config_parse_failed(detail: &str, lang: Lang) -> (e: Error)
    ensures
        e matches Error::Config(d) && d@ == config_text(ConfigMsg::ParseFailed { detail }, lang),
{
    Error::Config(ConfigMsg::ParseFailed { detail }.translate(lang))
}

} // verus!
