//! How a connection attempt is retried, and where the database is
//! reached.
use vstd::prelude::*;

use crate::config::{BastionConfig, BastionSetting, ConnectionConfig};
use crate::startup::{expand_tilde, tilde_result};
use crate::error::{DbErrorKind, Error};
use crate::i18n::{connection_msg_en, connection_msg_ja, ConnectionMsg, Lang};
use crate::text::{contains, lowercased, str_contains, to_lowercase};

verus! {

/// Connection attempts before giving up.
pub const MAX_RETRIES: u32 = 3;

/// The wait before the first retry, in milliseconds; it doubles each time.
pub const BASE_DELAY_MS: u64 = 100;

/// Text that reports a time-out: `timeout` or `timed out`, and for
/// connection errors also `タイムアウト`, in the lower-cased message.
pub open spec fn mentions_timeout(msg: Seq<char>, japanese_too: bool) -> bool {
    let lower = lowercased(msg);
    contains(lower, "timeout"@) || contains(lower, "timed out"@) || (japanese_too && contains(
        lower,
        "タイムアウト"@,
    ))
}

/// A time-out: the pool gave no connection in time, the driver's network
/// failure reports a time-out, or a connection error (SSH, DNS) reports
/// one. Such a failure is not retried.
pub open spec fn is_timeout_spec(e: Error) -> bool {
    match e {
        Error::DatabaseConnection(d) => match d.kind {
            DbErrorKind::PoolTimedOut => true,
            DbErrorKind::Io => mentions_timeout(d.message@, false),
            _ => false,
        },
        Error::Connection(msg) => mentions_timeout(msg@, true),
        _ => false,
    }
}

/// Whether a failed connection attempt timed out (see `is_timeout_spec`).
pub fn is_timeout_error(error: &Error) -> (r: bool)
    ensures
        r == is_timeout_spec(*error),
{
    match error {
        Error::DatabaseConnection(d) => match d.kind {
            DbErrorKind::PoolTimedOut => true,
            DbErrorKind::Io => {
                let lower = to_lowercase(d.message.as_str());
                str_contains(lower.as_str(), "timeout") || str_contains(lower.as_str(), "timed out")
            },
            _ => false,
        },
        Error::Connection(msg) => {
            let lower = to_lowercase(msg.as_str());
            str_contains(lower.as_str(), "timeout") || str_contains(lower.as_str(), "timed out")
                || str_contains(lower.as_str(), "タイムアウト")
        },
        _ => false,
    }
}

/// What follows a failed connection attempt.
#[derive(Debug, Clone, Copy, PartialEq, Eq, Structural)]
pub enum RetryStep {
    /// Fail now with this attempt's error.
    FailNow,
    /// Wait this many milliseconds and try again.
    RetryAfterMs(u64),
    /// No attempt is left: fail with this attempt's error.
    GiveUp,
}

/// `2^n`.
pub open spec fn pow2(n: nat) -> nat
    decreases n,
{
    if n == 0 {
        1
    } else {
        2 * pow2((n - 1) as nat)
    }
}

/// After attempt `attempt` (counted from zero) failed with `error`: a
/// time-out fails at once; otherwise, unless it was the last attempt, the
/// next one follows after `BASE_DELAY_MS * 2^attempt` milliseconds.
pub fn after_failed_attempt(attempt: u32, error: &Error) -> (r: RetryStep)
    requires
        attempt < MAX_RETRIES,
    ensures
        is_timeout_spec(*error) ==> r == RetryStep::FailNow,
        !is_timeout_spec(*error) && attempt + 1 < MAX_RETRIES ==> r == RetryStep::RetryAfterMs(
            (BASE_DELAY_MS * pow2(attempt as nat)) as u64,
        ),
        !is_timeout_spec(*error) && attempt + 1 >= MAX_RETRIES ==> r == RetryStep::GiveUp,
{
    if is_timeout_error(error) {
        return RetryStep::FailNow;
    }
    if attempt < MAX_RETRIES - 1 {
        let mut delay: u64 = BASE_DELAY_MS;
        let mut i: u32 = 0;
        while i < attempt
            invariant
                i <= attempt < MAX_RETRIES,
                delay == BASE_DELAY_MS * pow2(i as nat),
                i == 0 ==> delay == 100,
                i == 1 ==> delay == 200,
            decreases attempt - i,
        {
            delay = delay * 2;
            i = i + 1;
        }
        RetryStep::RetryAfterMs(delay)
    } else {
        RetryStep::GiveUp
    }
}

/// Where the database is reached: through the tunnel's local end when
/// the connection goes through its own bastion, otherwise at the
/// configured host and port.
pub open spec fn endpoint_spec(c: ConnectionConfig, tunnel_port: u16) -> (Seq<char>, u16) {
    match c.bastion {
        Some(BastionSetting::Config(_)) => ("127.0.0.1"@, tunnel_port),
        _ => (c.mysql.host@, c.mysql.port),
    }
}

/// Whether the connection goes through its own bastion, and so needs a
/// tunnel.
pub fn needs_tunnel(conn: &ConnectionConfig) -> (r: bool)
    ensures
        r == (conn.bastion matches Some(BastionSetting::Config(_))),
{
    match &conn.bastion {
        Some(BastionSetting::Config(_)) => true,
        _ => false,
    }
}

/// The host and port to open the database connection on (see
/// `endpoint_spec`); `tunnel_port` is the tunnel's local port when there is
/// a tunnel.
pub fn mysql_endpoint(conn: &ConnectionConfig, tunnel_port: u16) -> (r: (String, u16))
    ensures
        (r.0@, r.1) == endpoint_spec(*conn, tunnel_port),
{
    match &conn.bastion {
        Some(BastionSetting::Config(_)) => (crate::text::str_to_string("127.0.0.1"), tunnel_port),
        _ => (conn.mysql.host.clone(), conn.mysql.port),
    }
}


/// The private key file to authenticate with at a bastion, with `~`
/// expanded (see `tilde_result`); `None` when the SSH agent is to be used.
pub fn bastion_key_file(bastion: &BastionConfig) -> (r: Option<String>)
    ensures
        bastion.key_path is None ==> r is None,
        bastion.key_path matches Some(k) ==> (r matches Some(p) && tilde_result(k@, p@)),
{
    match &bastion.key_path {
        Some(k) => Some(expand_tilde(k.as_str())),
        None => None,
    }
}


/// The statement that makes a session refuse writes.
pub open spec fn readonly_session_text() -> Seq<char> {
    "SET SESSION transaction_read_only = ON"@
}

/// What to run on a new connection before use: in read-only mode the
/// statement that makes the session refuse writes (the server's side of
/// read-only mode), otherwise nothing.
pub fn session_setup_statement(readonly: bool) -> (r: Option<String>)
    ensures
        readonly ==> (r matches Some(s) && s@ == readonly_session_text()),
        !readonly ==> r is None,
{
    if readonly {
        Some(crate::text::str_to_string("SET SESSION transaction_read_only = ON"))
    } else {
        None
    }
}


/// A connection message in `lang`.
pub open spec fn connection_text<'a>(m: ConnectionMsg<'a>, lang: Lang) -> Seq<char> {
    match lang {
        Lang::En => connection_msg_en(m),
        Lang::Ja => connection_msg_ja(m),
    }
}

/// The error when SSH authentication at a bastion failed. Authentication
/// tries the key file when one is configured and then the SSH agent: with
/// a key file the error reports both failures (`key_error` and
/// `agent_error`); without one, the agent's.
pub fn ssh_auth_error(key_error: Option<&str>, agent_error: &str, lang: Lang) -> (e: Error)
    ensures
        key_error matches Some(k) ==> (e matches Error::Connection(d) && d@ == connection_text(
            ConnectionMsg::SshAuthFailed { key_err: k, agent_err: agent_error },
            lang,
        )),
        key_error is None ==> (e matches Error::Connection(d) && d@ == connection_text(
            ConnectionMsg::SshAgentAuthFailed { detail: agent_error },
            lang,
        )),
{
    match key_error {
        Some(k) => Error::Connection(ConnectionMsg::SshAuthFailed { key_err: k, agent_err: agent_error }.translate(lang)),
        None => Error::Connection(ConnectionMsg::SshAgentAuthFailed { detail: agent_error }.translate(lang)),
    }
}

/// The error when the session is still not authenticated after an
/// accepted attempt.
pub fn ssh_not_authenticated(lang: Lang) -> (e: Error)
    ensures
        e matches Error::Connection(d) && d@ == connection_text(ConnectionMsg::SshAuthError, lang),
{
    Error::Connection(ConnectionMsg::SshAuthError.translate(lang))
}

} // verus!
