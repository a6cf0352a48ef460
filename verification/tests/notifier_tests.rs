use ergnotifier::node::FetchError;
use ergnotifier::notifier::{
    build_email_payload, dispatch_succeeded, Notification, NotificationServiceConfig,
    COIN_DECIMALS,
};
use ergnotifier::text::to_decimal;

fn number(text: String) -> f64 {
    text.parse().unwrap()
}

#[test]
fn test_to_decimal_zero() {
    assert_eq!(number(to_decimal(0, 9)), 0.0);
}

#[test]
fn test_to_decimal_no_decimals() {
    assert_eq!(number(to_decimal(12345, 0)), 12345.0);
}

#[test]
fn test_to_decimal_basic() {
    assert_eq!(number(to_decimal(1000000000, 9)), 1.0);
}

#[test]
fn test_to_decimal_fractional() {
    let result = number(to_decimal(123456789, 6));
    assert!((result - 123.456789).abs() < 1e-6);
}

#[test]
fn test_to_decimal_large_decimals() {
    let result = number(to_decimal(1, 12));
    assert!((result - 0.000000000001).abs() < 1e-15);
}

#[test]
fn to_decimal_writes_exact_text() {
    assert_eq!(to_decimal(0, 9), "0");
    assert_eq!(to_decimal(0, 0), "0");
    assert_eq!(to_decimal(12345, 0), "12345");
    assert_eq!(to_decimal(1000000000, 9), "1");
    assert_eq!(to_decimal(1500000000, 9), "1.5");
    assert_eq!(to_decimal(123456789, 6), "123.456789");
    assert_eq!(to_decimal(1, 12), "0.000000000001");
    assert_eq!(to_decimal(1, 9), "0.000000001");
    assert_eq!(to_decimal(100, 2), "1");
    assert_eq!(to_decimal(120, 2), "1.2");
    assert_eq!(to_decimal(1020, 3), "1.02");
    assert_eq!(to_decimal(10, 0), "10");
    assert_eq!(to_decimal(u64::MAX, 9), "18446744073.709551615");
    assert_eq!(to_decimal(u64::MAX, 20), "0.18446744073709551615");
    assert_eq!(to_decimal(5, 1), "0.5");
}

#[test]
fn a_coin_has_nine_decimals() {
    assert_eq!(COIN_DECIMALS, 9);
}

fn config() -> NotificationServiceConfig {
    NotificationServiceConfig {
        sender_email: "from@example.org".to_string(),
        receiver_email: "to@example.org".to_string(),
        api_key: "k".to_string(),
    }
}

fn note(id: &str, amount: u64) -> Notification {
    Notification {
        tx_id: id.to_string(),
        coin: "ERG".to_string(),
        wallet: "9fWallet".to_string(),
        amount,
    }
}

#[test]
fn payload_names_sender_receiver_and_subject() {
    let p = build_email_payload(&vec![note("b", 5)], &config());
    assert_eq!(p.sender.name, "Ergo Notifier");
    assert_eq!(p.sender.email, "from@example.org");
    assert_eq!(p.to.len(), 1);
    assert_eq!(p.to[0].email, "to@example.org");
    assert_eq!(p.subject, "Ergo Transactions Notification");
}

#[test]
fn payload_text_for_one_transfer() {
    let p = build_email_payload(&vec![note("b", 5)], &config());
    assert_eq!(
        p.text_content,
        "Wallet Address: 9fWallet\nBlockchain: ERG\nCoin: ERG\nAmount: 0.000000005\nTransaction Hash: b"
    );
}

#[test]
fn payload_text_lists_every_transfer_in_order() {
    let p = build_email_payload(&vec![note("b", 1500000000), note("a", 0)], &config());
    assert_eq!(
        p.text_content,
        "Wallet Address: 9fWallet\nBlockchain: ERG\nCoin: ERG\nAmount: 1.5\nTransaction Hash: b\n\
         Wallet Address: 9fWallet\nBlockchain: ERG\nCoin: ERG\nAmount: 0\nTransaction Hash: a"
    );
}

#[test]
fn payload_text_of_empty_batch_is_empty() {
    let p = build_email_payload(&vec![], &config());
    assert_eq!(p.text_content, "");
    assert_eq!(p.to.len(), 1);
}

#[test]
fn only_a_success_status_counts_as_delivered() {
    assert!(!dispatch_succeeded(Ok(199)));
    assert!(dispatch_succeeded(Ok(200)));
    assert!(dispatch_succeeded(Ok(201)));
    assert!(dispatch_succeeded(Ok(299)));
    assert!(!dispatch_succeeded(Ok(300)));
    assert!(!dispatch_succeeded(Ok(401)));
    assert!(!dispatch_succeeded(Ok(500)));
    assert!(!dispatch_succeeded(Ok(0)));
}

#[test]
fn a_failed_request_is_not_delivered() {
    assert!(!dispatch_succeeded(Err(FetchError::Transport)));
    assert!(!dispatch_succeeded(Err(FetchError::Decode)));
}

#[test]
fn payload_text_of_one_transfer_has_no_surrounding_whitespace() {
    let notification = Notification {
        tx_id: "abc".to_string(),
        coin: "ERG".to_string(),
        wallet: "9fW".to_string(),
        amount: 1_500_000_000,
    };
    let text = build_email_payload(&vec![notification], &config()).text_content;
    assert!(text.starts_with("Wallet Address: 9fW"));
    assert!(text.ends_with("Transaction Hash: abc"));
    assert!(text.contains("Blockchain: ERG"));
    assert!(text.contains("Coin: ERG"));
    assert!(text.contains("Amount: 1.5"));
    assert_eq!(text, text.trim());
    assert_eq!(
        text,
        "Wallet Address: 9fW\nBlockchain: ERG\nCoin: ERG\nAmount: 1.5\nTransaction Hash: abc"
    );
}

#[test]
fn payload_text_joins_transfers_with_one_line_feed() {
    let text = build_email_payload(&vec![note("c", 1), note("b", 2), note("a", 3)], &config())
        .text_content;
    assert_eq!(text.lines().count(), 15);
    assert_eq!(text.matches("\n").count(), 14);
    assert!(!text.contains("\n\n"));
    assert!(text.ends_with("Transaction Hash: a"));
    assert!(text.starts_with("Wallet Address: 9fWallet\n"));
}
