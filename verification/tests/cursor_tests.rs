use ergnotifier::cursor::PageCursor;
use ergnotifier::node::{ErgoTransaction, FetchError, NodeAPIResponse};

fn tx(id: &str) -> ErgoTransaction {
    ErgoTransaction {
        id: id.to_string(),
        inputs: vec![],
        outputs: vec![],
        num_confirmations: 0,
        inclusion_height: None,
    }
}

fn history(n: usize) -> Vec<ErgoTransaction> {
    let mut v = vec![];
    for i in 0..n {
        v.push(tx(&format!("tx{}", i)));
    }
    v
}

fn serve(history: &Vec<ErgoTransaction>, offset: u64, limit: u64) -> NodeAPIResponse<Vec<ErgoTransaction>> {
    let from = (offset as usize).min(history.len());
    let to = ((offset + limit) as usize).min(history.len());
    NodeAPIResponse { items: history[from..to].to_vec(), total: history.len() as u32 }
}

fn ids(txs: &Vec<ErgoTransaction>) -> Vec<String> {
    txs.iter().map(|t| t.id.clone()).collect()
}

fn run(history: &Vec<ErgoTransaction>, watermark: &str) -> (Vec<String>, usize) {
    let watermark = watermark.to_string();
    let mut cursor = PageCursor::new();
    let mut requests = 0;
    while let Some((offset, limit)) = cursor.next_request() {
        requests += 1;
        assert!(requests < 1000);
        cursor.accept_page(Ok(serve(history, offset, limit)), &watermark);
    }
    assert!(cursor.is_done());
    (ids(&cursor.into_transactions()), requests)
}

#[test]
fn new_cursor_asks_for_the_first_page() {
    let cursor = PageCursor::new();
    assert_eq!(cursor.next_request(), Some((0, 20)));
    assert!(!cursor.is_done());
    assert_eq!(cursor.len(), 0);
}

#[test]
fn watermark_on_second_page_takes_two_requests() {
    let h = history(45);
    let (got, requests) = run(&h, "tx25");
    assert_eq!(got, ids(&h[..25].to_vec()));
    assert_eq!(requests, 2);
}

#[test]
fn watermark_last_on_first_page_takes_one_request() {
    let h = history(45);
    let (got, requests) = run(&h, "tx19");
    assert_eq!(got, ids(&h[..19].to_vec()));
    assert_eq!(requests, 1);
}

#[test]
fn watermark_first_on_second_page_takes_two_requests() {
    let h = history(45);
    let (got, requests) = run(&h, "tx20");
    assert_eq!(got, ids(&h[..20].to_vec()));
    assert_eq!(requests, 2);
}

#[test]
fn watermark_at_the_newest_gathers_nothing() {
    let h = history(45);
    let (got, requests) = run(&h, "tx0");
    assert_eq!(got, Vec::<String>::new());
    assert_eq!(requests, 1);
}

#[test]
fn watermark_at_the_oldest_gathers_all_before_it() {
    let h = history(45);
    let (got, requests) = run(&h, "tx44");
    assert_eq!(got, ids(&h[..44].to_vec()));
    assert_eq!(requests, 3);
}

#[test]
fn empty_watermark_runs_to_the_end_of_history() {
    let h = history(45);
    let (got, requests) = run(&h, "");
    assert_eq!(got, ids(&h));
    assert_eq!(requests, 3);
}

#[test]
fn empty_watermark_never_matches_an_empty_identifier() {
    let h = vec![tx("a"), tx(""), tx("b")];
    let (got, requests) = run(&h, "");
    assert_eq!(got, vec!["a".to_string(), "".to_string(), "b".to_string()]);
    assert_eq!(requests, 1);
}

#[test]
fn unknown_watermark_runs_to_the_end_of_history() {
    let h = history(40);
    let (got, requests) = run(&h, "nowhere");
    assert_eq!(got, ids(&h));
    assert_eq!(requests, 3);
}

#[test]
fn empty_history_takes_one_request() {
    let h = history(0);
    let (got, requests) = run(&h, "tx3");
    assert_eq!(got, Vec::<String>::new());
    assert_eq!(requests, 1);
}

#[test]
fn failure_keeps_what_was_gathered() {
    let h = history(45);
    let watermark = "tx30".to_string();
    let mut cursor = PageCursor::new();
    cursor.accept_page(Ok(serve(&h, 0, 20)), &watermark);
    assert_eq!(cursor.next_request(), Some((20, 20)));
    cursor.accept_page(Err(FetchError::Transport), &watermark);
    assert!(cursor.is_done());
    assert_eq!(cursor.next_request(), None);
    assert_eq!(cursor.len(), 20);
    assert_eq!(ids(&cursor.into_transactions()), ids(&h[..20].to_vec()));
}

#[test]
fn failure_on_the_first_page_gathers_nothing() {
    let watermark = "tx30".to_string();
    let mut cursor = PageCursor::new();
    cursor.accept_page(Err(FetchError::Decode), &watermark);
    assert!(cursor.is_done());
    assert_eq!(cursor.len(), 0);
}

#[test]
fn answers_after_the_end_change_nothing() {
    let h = history(5);
    let watermark = String::new();
    let mut cursor = PageCursor::new();
    cursor.accept_page(Ok(serve(&h, 0, 20)), &watermark);
    assert!(cursor.is_done());
    cursor.accept_page(Ok(serve(&h, 0, 20)), &watermark);
    assert!(cursor.is_done());
    assert_eq!(cursor.len(), 5);
}

#[test]
fn first_of_two_equal_identifiers_is_the_cut() {
    let h = vec![tx("a"), tx("w"), tx("b"), tx("w")];
    let (got, _) = run(&h, "w");
    assert_eq!(got, vec!["a".to_string()]);
}
