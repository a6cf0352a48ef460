//! The persisted watermark and its record on disk.

use vstd::prelude::*;
use vstd::string::*;

verus! {

/// The watermark: the identifier of the newest transaction that was
/// announced. Empty while nothing has been announced.
#[derive(Debug, Clone)]
pub struct AppState {
    pub last_tx_id: String,
}

/// The name under which the record holds the watermark.
pub open spec fn state_key() -> Seq<char> {
    "lastNotifiedTxId"@
}

/// The text that `serde_json` writes, pretty-printed, for the JSON object
/// with the single member `key` whose value is the string `value`; `None`
/// where it reports an error.
pub uninterp spec fn json_record_text(key: Seq<char>, value: Seq<char>) -> Option<Seq<char>>;

/// The string that `serde_json` finds under `key` after parsing `text` as
/// JSON; `None` where `text` does not parse, is no object, has no such
/// member, or the member is no string.
pub uninterp spec fn json_text_field(text: Seq<char>, key: Seq<char>) -> Option<Seq<char>>;

/// Calls `serde_json::to_string_pretty` on the object `{key: value}`.
/// Trusted: the result is named `json_record_text`, nothing more is said.
#[verifier::external_body]
fn encode_record(key: &str, value: &str) -> (text: Option<String>)
    ensures
        match text {
            Some(t) => json_record_text(key@, value@) == Some(t@),
            None => json_record_text(key@, value@) is None,
        },
{
    let mut record = serde_json::Map::new();
    record.insert(key.to_string(), serde_json::Value::String(value.to_string()));
    serde_json::to_string_pretty(&serde_json::Value::Object(record)).ok()
}

/// Calls `serde_json::from_str` to parse `text` into a `serde_json::Value`
/// and hands out the string member `key` of it (`Value::get`, then
/// `Value::as_str`). Trusted: the result is named `json_text_field`,
/// nothing more is said.
#[verifier::external_body]
fn decode_field(text: &str, key: &str) -> (value: Option<String>)
    ensures
        match value {
            Some(v) => json_text_field(text@, key@) == Some(v@),
            None => json_text_field(text@, key@) is None,
        },
{
    let record = serde_json::from_str::<serde_json::Value>(text).ok()?;
    Some(record.get(key)?.as_str()?.to_string())
}

impl AppState {
    /// The state before anything was announced.
    pub fn initial() -> (state: AppState)
        ensures
            state.last_tx_id@ == Seq::<char>::empty(),
    {
        AppState { last_tx_id: String::new() }
    }
}

/// The record to write for `state`: a JSON object that holds the watermark
/// under `lastNotifiedTxId`. The caller overwrites the state file with it.
pub fn save(state: &AppState) -> (text: Option<String>)
    ensures
        match text {
            Some(t) => json_record_text(state_key(), state.last_tx_id@) == Some(t@),
            None => json_record_text(state_key(), state.last_tx_id@) is None,
        },
{
    encode_record("lastNotifiedTxId", state.last_tx_id.as_str())
}

/// The state that a decoded record gives: its watermark, or the initial
/// state where the record gave none.
pub fn restore(watermark: Option<String>) -> (state: AppState)
    ensures
        state.last_tx_id@ == match watermark {
            Some(id) => id@,
            None => Seq::<char>::empty(),
        },
{
    match watermark {
        Some(id) => AppState { last_tx_id: id },
        None => AppState::initial(),
    }
}

/// The state to start from. `stored` is the content of the state file, or
/// `None` where the file is absent or unreadable. A record that does not
/// decode counts like an absent one: the watcher starts from the initial
/// state.
pub fn load(stored: Option<&str>) -> (state: AppState)
    ensures
        state.last_tx_id@ == match stored {
            Some(text) => match json_text_field(text@, state_key()) {
                Some(id) => id,
                None => Seq::<char>::empty(),
            },
            None => Seq::<char>::empty(),
        },
{
    match stored {
        Some(text) => restore(decode_field(text, "lastNotifiedTxId")),
        None => restore(None),
    }
}

} // verus!
