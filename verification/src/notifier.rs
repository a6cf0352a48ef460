//! What a notification says, and when it counts as delivered.

use vstd::prelude::*;
use vstd::string::*;
use crate::node::FetchError;
use crate::text::{decimal_text, to_decimal};

verus! {

/// How many decimal digits of an amount make the fraction of one coin.
pub const COIN_DECIMALS: u32 = 9;

/// One incoming transfer to announce.
#[derive(Debug, Clone)]
pub struct Notification {
    pub tx_id: String,
    pub coin: String,
    pub wallet: String,
    /// What the transfer pays to the wallet, in the coin's smallest unit.
    pub amount: u64,
}

/// A notification as plain values.
pub struct NotificationView {
    pub tx_id: Seq<char>,
    pub coin: Seq<char>,
    pub wallet: Seq<char>,
    pub amount: u64,
}

impl View for Notification {
    type V = NotificationView;

    open spec fn view(&self) -> NotificationView {
        NotificationView {
            tx_id: self.tx_id@,
            coin: self.coin@,
            wallet: self.wallet@,
            amount: self.amount,
        }
    }
}

/// The notifications of a batch as plain values, in order.
pub open spec fn batch_view(batch: Seq<Notification>) -> Seq<NotificationView> {
    batch.map_values(|n: Notification| n@)
}

/// Who sends the mail, who receives it, and the provider's credential.
#[derive(Debug, Clone)]
pub struct NotificationServiceConfig {
    pub sender_email: String,
    pub receiver_email: String,
    pub api_key: String,
}

#[derive(Debug, Clone)]
pub struct Sender {
    pub name: String,
    pub email: String,
}

#[derive(Debug, Clone)]
pub struct Recipient {
    pub email: String,
}

/// The mail to submit to the provider.
#[derive(Debug, Clone)]
pub struct EmailPayload {
    pub sender: Sender,
    pub to: Vec<Recipient>,
    pub subject: String,
    pub text_content: String,
}

/// The five lines that announce one transfer, with the amount in whole
/// coins. The first line begins the text and the last line ends it: there
/// is no line feed after the transaction's identifier.
pub open spec fn notification_text(n: NotificationView) -> Seq<char> {
    "Wallet Address: "@ + n.wallet + "\nBlockchain: ERG\nCoin: "@ + n.coin
        + "\nAmount: "@ + decimal_text(n.amount as nat, COIN_DECIMALS as nat)
        + "\nTransaction Hash: "@ + n.tx_id
}

/// The body of the mail for a batch: the lines of each transfer, in the
/// batch's order, joined by one line feed, with none before the first
/// transfer and none after the last. The empty batch has the empty body.
pub open spec fn batch_text(batch: Seq<NotificationView>) -> Seq<char>
    decreases batch.len(),
{
    if batch.len() == 0 {
        Seq::empty()
    } else if batch.len() == 1 {
        notification_text(batch.last())
    } else {
        batch_text(batch.drop_last()) + "\n"@ + notification_text(batch.last())
    }
}

/// The body for a single transfer is that transfer's five lines and
/// nothing more: it begins with `Wallet Address: ` and ends with the
/// transaction's identifier.
pub proof fn lemma_batch_text_of_one(n: NotificationView)
    ensures
        batch_text(seq![n]) == notification_text(n),
        notification_text(n).len() >= n.tx_id.len(),
        notification_text(n).skip(notification_text(n).len() - n.tx_id.len()) == n.tx_id,
        "Wallet Address: "@.is_prefix_of(notification_text(n)),
{
    let text = notification_text(n);
    assert(seq![n].last() == n);
    assert(text.skip(text.len() - n.tx_id.len()) =~= n.tx_id);
    let head = "Wallet Address: "@;
    assert(text.subrange(0, head.len() as int) =~= head);
}

fn append_notification(text: &mut String, notification: &Notification)
    ensures
        final(text)@ == old(text)@ + notification_text(notification@),
{
    let ghost before = text@;
    text.append("Wallet Address: ");
    text.append(notification.wallet.as_str());
    text.append("\nBlockchain: ERG\nCoin: ");
    text.append(notification.coin.as_str());
    text.append("\nAmount: ");
    let amount = to_decimal(notification.amount, COIN_DECIMALS);
    text.append(amount.as_str());
    text.append("\nTransaction Hash: ");
    text.append(notification.tx_id.as_str());
    assert(text@ =~= before + notification_text(notification@));
}

/// Builds the mail that announces `batch`: from the configured sender to
/// the configured receiver, with every transfer of the batch listed in the
/// body, in order.
pub fn build_email_payload(batch: &Vec<Notification>, config: &NotificationServiceConfig) -> (payload:
    EmailPayload)
    ensures
        payload.sender.name@ == "Ergo Notifier"@,
        payload.sender.email@ == config.sender_email@,
        payload.to@.len() == 1,
        payload.to@[0].email@ == config.receiver_email@,
        payload.subject@ == "Ergo Transactions Notification"@,
        payload.text_content@ == batch_text(batch_view(batch@)),
{
    let mut text = String::new();
    let mut i: usize = 0;
    while i < batch.len()
        invariant
            i <= batch.len(),
            text@ == batch_text(batch_view(batch@.take(i as int))),
        decreases batch.len() - i,
    {
        assert(batch_view(batch@.take(i + 1)).drop_last() =~= batch_view(batch@.take(i as int)));
        assert(batch_view(batch@.take(i + 1)).last() == batch@[i as int]@);
        if i > 0 {
            text.append("\n");
        } else {
            assert(text@ =~= Seq::<char>::empty());
        }
        append_notification(&mut text, &batch[i]);
        assert(text@ =~= batch_text(batch_view(batch@.take(i + 1))));
        i += 1;
    }
    assert(batch@.take(i as int) =~= batch@);
    let mut to: Vec<Recipient> = Vec::new();
    to.push(Recipient { email: config.receiver_email.clone() });
    EmailPayload {
        sender: Sender {
            name: String::from_str("Ergo Notifier"),
            email: config.sender_email.clone(),
        },
        to,
        subject: String::from_str("Ergo Transactions Notification"),
        text_content: text,
    }
}

/// Whether the provider's answer means the mail was accepted: a status
/// from 200 to 299.
pub open spec fn is_success_status(status: u16) -> bool {
    200 <= status < 300
}

/// Whether a dispatch counts as delivered. `outcome` is the status of the
/// provider's answer, or the reason there was none. Only an answer with a
/// success status counts.
pub fn dispatch_succeeded(outcome: Result<u16, FetchError>) -> (delivered: bool)
    ensures
        delivered == match outcome {
            Ok(status) => is_success_status(status),
            Err(_) => false,
        },
{
    match outcome {
        Ok(status) => 200 <= status && status < 300,
        Err(_) => false,
    }
}

} // verus!
