use ergnotifier::state::{load, restore, save, AppState};

#[test]
fn initial_state_has_empty_watermark() {
    assert_eq!(AppState::initial().last_tx_id, "");
}

#[test]
fn save_writes_the_record() {
    let text = save(&AppState { last_tx_id: "abc".to_string() });
    assert_eq!(text, Some("{\n  \"lastNotifiedTxId\": \"abc\"\n}".to_string()));
}

#[test]
fn save_escapes_the_watermark() {
    let text = save(&AppState { last_tx_id: "a\"b\\c\n".to_string() }).unwrap();
    let parsed: serde_json::Value = serde_json::from_str(&text).unwrap();
    assert_eq!(parsed.get("lastNotifiedTxId").and_then(|v| v.as_str()), Some("a\"b\\c\n"));
    assert_eq!(parsed.as_object().map(|o| o.len()), Some(1));
}

#[test]
fn load_reads_the_record() {
    assert_eq!(load(Some("{\"lastNotifiedTxId\": \"abc\"}")).last_tx_id, "abc");
    assert_eq!(load(Some(" { \"other\": 1, \"lastNotifiedTxId\" : \"x y\" } ")).last_tx_id, "x y");
}

#[test]
fn load_after_save_gives_the_same_watermark() {
    let state = AppState { last_tx_id: "9f\"quoted\"\u{e9}".to_string() };
    let text = save(&state).unwrap();
    assert_eq!(load(Some(&text)).last_tx_id, state.last_tx_id);
    let empty = save(&AppState::initial()).unwrap();
    assert_eq!(load(Some(&empty)).last_tx_id, "");
}

#[test]
fn load_without_a_file_starts_from_nothing() {
    assert_eq!(load(None).last_tx_id, "");
}

#[test]
fn load_of_a_broken_record_starts_from_nothing() {
    assert_eq!(load(Some("")).last_tx_id, "");
    assert_eq!(load(Some("not json")).last_tx_id, "");
    assert_eq!(load(Some("{\"lastNotifiedTxId\": \"abc\"")).last_tx_id, "");
    assert_eq!(load(Some("{\"last_tx_id\": \"abc\"}")).last_tx_id, "");
    assert_eq!(load(Some("{\"lastNotifiedTxId\": 5}")).last_tx_id, "");
    assert_eq!(load(Some("[\"abc\"]")).last_tx_id, "");
    assert_eq!(load(Some("\"lastNotifiedTxId\"")).last_tx_id, "");
}

#[test]
fn restore_takes_the_decoded_watermark() {
    assert_eq!(restore(Some("abc".to_string())).last_tx_id, "abc");
    assert_eq!(restore(None).last_tx_id, "");
}
