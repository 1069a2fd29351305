//! Choosing the connection to open from the configured ones with an
//! interactive picker. The picker itself is handed in by the caller; this
//! module decides what is offered and what its answer means.
use vstd::prelude::*;

use crate::config::ConnectionConfig;
use crate::error::{Error, Result};
use crate::i18n::{tui_msg_en, tui_msg_ja, Lang, TuiMsg};
use crate::text::{concat3, str_to_string};

verus! {

/// One entry offered by the picker: the position of the connection in the
/// configured list and the text shown for it.
pub struct ConnectionItem {
    pub index: usize,
    pub display: String,
}

/// What the picker reported.
pub enum PickerOutcome {
    /// The picker returned no output at all.
    NoOutput,
    /// The user aborted the picker.
    Aborted,
    /// The picker finished with nothing selected.
    NoneSelected,
    /// The first selected entry is not one of the offered entries.
    Unrecognized,
    /// The first selected entry.
    Selected(ConnectionItem),
}

/// Message when no connection is configured.
pub open spec fn no_connections_text() -> Seq<char> {
    "接続先が定義されていません"@
}

/// Message when the picker was cancelled or aborted.
pub open spec fn cancelled_text() -> Seq<char> {
    "接続先の選択がキャンセルされました"@
}

/// Message when the picker finished with nothing selected.
pub open spec fn nothing_selected_text() -> Seq<char> {
    "接続先が選択されていません"@
}

/// Message when the selected entry cannot be traced back to a connection.
pub open spec fn unrecognized_text() -> Seq<char> {
    "選択された接続先の情報を復元できません"@
}

/// Message when the selected entry points past the configured list.
pub open spec fn not_found_text() -> Seq<char> {
    "選択された接続先が見つかりません"@
}

/// The prompt of the picker, in `lang`.
pub open spec fn prompt_text(lang: Lang) -> Seq<char> {
    match lang {
        Lang::En => tui_msg_en(TuiMsg::SelectConnectionPrompt),
        Lang::Ja => tui_msg_ja(TuiMsg::SelectConnectionPrompt),
    }
}

/// `r` is the error `Error::Other` with text `t`.
pub open spec fn is_other_error<T>(r: Result<T>, t: Seq<char>) -> bool {
    r matches Err(Error::Other(d)) && d@ == t
}

/// The connection that the selected entry stands for: the one at its
/// position, or an error when the position is past the list.
pub open spec fn selected_result(
    item: ConnectionItem,
    connections: Seq<ConnectionConfig>,
    r: Result<ConnectionConfig>,
) -> bool {
    if item.index < connections.len() {
        r == Ok::<ConnectionConfig, Error>(connections[item.index as int])
    } else {
        is_other_error(r, not_found_text())
    }
}

/// What an answer of the picker gives: a failure of the picker is passed
/// on, cancelling and aborting are one error, an empty or unknown
/// selection each have their own error, and a selected entry gives its
/// connection.
pub open spec fn outcome_result(
    outcome: Result<PickerOutcome>,
    connections: Seq<ConnectionConfig>,
    r: Result<ConnectionConfig>,
) -> bool {
    match outcome {
        Err(e) => r == Err::<ConnectionConfig, Error>(e),
        Ok(PickerOutcome::NoOutput) => is_other_error(r, cancelled_text()),
        Ok(PickerOutcome::Aborted) => is_other_error(r, cancelled_text()),
        Ok(PickerOutcome::NoneSelected) => is_other_error(r, nothing_selected_text()),
        Ok(PickerOutcome::Unrecognized) => is_other_error(r, unrecognized_text()),
        Ok(PickerOutcome::Selected(item)) => selected_result(item, connections, r),
    }
}

/// `items` offers every connection in order, each shown by its name.
pub open spec fn offers_all(items: Seq<ConnectionItem>, connections: Seq<ConnectionConfig>) -> bool {
    &&& items.len() == connections.len()
    &&& forall|i: int|
        0 <= i < items.len() ==> (#[trigger] items[i]).index == i && items[i].display@
            == connections[i].name@
}

/// The text the picker shows for a connection: its name.
pub fn format_connection_display(conn: &ConnectionConfig) -> (r: String)
    ensures
        r@ == conn.name@,
{
    conn.name.clone()
}

/// One entry per connection, in order.
pub fn connection_items(connections: &[ConnectionConfig]) -> (items: Vec<ConnectionItem>)
    ensures
        offers_all(items@, connections@),
{
    let mut items: Vec<ConnectionItem> = Vec::new();
    let mut i: usize = 0;
    while i < connections.len()
        invariant
            i <= connections@.len(),
            offers_all(items@, connections@.take(i as int)),
        decreases connections@.len() - i,
    {
        let display = format_connection_display(&connections[i]);
        items.push(ConnectionItem { index: i, display });
        i = i + 1;
    }
    assert(connections@.take(connections@.len() as int) =~= connections@);
    items
}

/// The connection a selected entry stands for.
pub fn connection_from_selected_item(selected: &ConnectionItem, connections: &[ConnectionConfig]) -> (r: Result<ConnectionConfig>)
    ensures
        selected_result(*selected, connections@, r),
{
    if selected.index < connections.len() {
        Ok(connections[selected.index].clone())
    } else {
        Err(Error::Other(str_to_string("選択された接続先が見つかりません")))
    }
}

/// The meaning of the picker's answer (see `outcome_result`).
pub fn connection_from_outcome(outcome: Result<PickerOutcome>, connections: &[ConnectionConfig]) -> (r: Result<ConnectionConfig>)
    ensures
        outcome_result(outcome, connections@, r),
{
    match outcome {
        Err(e) => Err(e),
        Ok(PickerOutcome::NoOutput) => Err(
            Error::Other(str_to_string("接続先の選択がキャンセルされました")),
        ),
        Ok(PickerOutcome::Aborted) => Err(
            Error::Other(str_to_string("接続先の選択がキャンセルされました")),
        ),
        Ok(PickerOutcome::NoneSelected) => Err(
            Error::Other(str_to_string("接続先が選択されていません")),
        ),
        Ok(PickerOutcome::Unrecognized) => Err(
            Error::Other(str_to_string("選択された接続先の情報を復元できません")),
        ),
        Ok(PickerOutcome::Selected(item)) => connection_from_selected_item(&item, connections),
    }
}

/// The error for a picker that could not be set up: the localized
/// `skim initialization error`, a colon and the cause.
pub fn picker_init_error(detail: &str, lang: Lang) -> (e: Error)
    ensures
        e matches Error::Other(d) && d@ == (match lang {
            Lang::En => tui_msg_en(TuiMsg::SkimInitError),
            Lang::Ja => tui_msg_ja(TuiMsg::SkimInitError),
        }) + ": "@ + detail@,
{
    let lead = TuiMsg::SkimInitError.translate(lang);
    Error::Other(concat3(lead.as_str(), ": ", detail))
}

/// Lets the user choose a connection. With no connection configured it
/// fails at once, without asking. Otherwise `pick` is called once with
/// one entry per connection (shown by its name) and the localized prompt,
/// and its answer decides the result (see `outcome_result`).
pub fn select_connection<F>(connections: &[ConnectionConfig], lang: Lang, pick: F) -> (r: Result<ConnectionConfig>)
    where
        F: FnOnce(Vec<ConnectionItem>, String) -> Result<PickerOutcome>,
    requires
        forall|items: Vec<ConnectionItem>, prompt: String| call_requires(pick, (items, prompt)),
    ensures
        connections@.len() == 0 ==> (r matches Err(Error::Config(d)) && d@ == no_connections_text()),
        connections@.len() > 0 ==> exists|
            items: Vec<ConnectionItem>,
            prompt: String,
            outcome: Result<PickerOutcome>,
        |
            #![trigger call_ensures(pick, (items, prompt), outcome)]
            offers_all(items@, connections@) && prompt@ == prompt_text(lang) && call_ensures(
                pick,
                (items, prompt),
                outcome,
            ) && outcome_result(outcome, connections@, r),
{
    if connections.len() == 0 {
        return Err(Error::config("接続先が定義されていません"));
    }
    let items = connection_items(connections);
    let prompt = TuiMsg::SelectConnectionPrompt.translate(lang);
    let ghost items_view = items;
    let ghost prompt_view = prompt;
    let outcome = pick(items, prompt);
    let r = connection_from_outcome(outcome, connections);
    assert(call_ensures(pick, (items_view, prompt_view), outcome));
    r
}

} // verus!
