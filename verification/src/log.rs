//! The entries of a user's transaction log, in the two forms in which a
//! `CCash` instance sends them, and how an entry reads as a line of text.

use crate::text::{decimal, decimal_u64};
use vstd::prelude::*;
use vstd::string::StringExecFns;

verus! {

/// The text that `chrono` writes for the date and time in UTC that lies
/// `seconds` and `nanoseconds` after the start of 1970, such as
/// `2015-05-15 00:00:00 UTC`; `None` where `chrono` has no date and time for
/// them, as it has none beyond the ends of its calendar.
pub uninterp spec fn utc_text(seconds: i64, nanoseconds: u32) -> Option<Seq<char>>;

/// Calls `chrono::DateTime::from_timestamp` and writes the date and time
/// that it gives, where it gives one, by that type's `Display`. Both depend
/// on the two numbers alone.
#[verifier::external_body]
fn utc_time(seconds: i64, nanoseconds: u32) -> (r: Option<String>)
    ensures
        r.deep_view() == utc_text(seconds, nanoseconds),
{
    match chrono::DateTime::from_timestamp(seconds, nanoseconds) {
        Some(time) => Some(time.to_string()),
        None => None,
    }
}

/// The text of the time of a log entry, which is a whole number of seconds.
pub open spec fn time_of_entry(seconds: i64) -> Option<Seq<char>> {
    utc_text(seconds, 0)
}

/// An entry of the log in its first form, which newer instances have
/// replaced by `TransactionLogV2`: who sent how much to whom, and when.
#[derive(Debug)]
pub struct TransactionLog {
    to: String,
    from: String,
    amount: u32,
    time: i64,
}

/// The view of a `TransactionLog`.
pub struct TransferView {
    pub to: Seq<char>,
    pub from: Seq<char>,
    pub amount: u32,
    pub time: i64,
}

impl View for TransactionLog {
    type V = TransferView;

    closed spec fn view(&self) -> TransferView {
        TransferView { to: self.to@, from: self.from@, amount: self.amount, time: self.time }
    }
}

/// The line for an entry of the first form, with `time` as the text of its
/// time.
pub open spec fn transfer_line(entry: TransferView, time: Seq<char>) -> Seq<char> {
    time + ": "@ + entry.from + " ("@ + decimal(entry.amount as int) + " CSH) -> "@ + entry.to
}

impl TransactionLog {
    /// Puts an entry together.
    pub fn new(to: String, from: String, amount: u32, time: i64) -> (r: TransactionLog)
        ensures
            r@ == (TransferView { to: to@, from: from@, amount, time }),
    {
        TransactionLog { to, from, amount, time }
    }

    /// The account that received the funds.
    pub fn get_to_account(&self) -> (r: &str)
        ensures
            r@ == self@.to,
    {
        self.to.as_str()
    }

    /// The account that sent the funds.
    pub fn get_from_account(&self) -> (r: &str)
        ensures
            r@ == self@.from,
    {
        self.from.as_str()
    }

    /// The amount that was sent.
    pub fn get_amount(&self) -> (r: u32)
        ensures
            r == self@.amount,
    {
        self.amount
    }

    /// When the funds were sent, in seconds since the start of 1970.
    pub fn get_time(&self) -> (r: i64)
        ensures
            r == self@.time,
    {
        self.time
    }

    /// The entry as a line of text, with `time` in the place of its time.
    pub fn render(&self, time: &str) -> (r: String)
        ensures
            r@ == transfer_line(self@, time@),
    {
        let mut line = String::from_str(time);
        line.append(": ");
        line.append(self.from.as_str());
        line.append(" (");
        line.append(decimal_u64(self.amount as u64).as_str());
        line.append(" CSH) -> ");
        line.append(self.to.as_str());
        line
    }

    /// The entry as a line of text, with its time as a date in UTC. There is
    /// none where the time lies outside the calendar.
    pub fn to_text(&self) -> (r: Option<String>)
        ensures
            r.deep_view() == match time_of_entry(self@.time) {
                Some(time) => Some(transfer_line(self@, time)),
                None => None,
            },
    {
        match utc_time(self.time, 0) {
            Some(time) => Some(self.render(time.as_str())),
            None => None,
        }
    }
}

/// An entry of the log in its second form: the other account, the
/// direction, the amount, and when.
#[derive(Debug)]
pub struct TransactionLogV2 {
    counterparty: String,
    receiving: bool,
    amount: u32,
    time: i64,
}

/// The view of a `TransactionLogV2`.
pub struct TransactionView {
    pub counterparty: Seq<char>,
    pub receiving: bool,
    pub amount: u32,
    pub time: i64,
}

impl View for TransactionLogV2 {
    type V = TransactionView;

    closed spec fn view(&self) -> TransactionView {
        TransactionView {
            counterparty: self.counterparty@,
            receiving: self.receiving,
            amount: self.amount,
            time: self.time,
        }
    }
}

/// The line for an entry of the second form, with `time` as the text of its
/// time.
pub open spec fn transaction_line(entry: TransactionView, time: Seq<char>) -> Seq<char> {
    if entry.receiving {
        time + ": Received "@ + decimal(entry.amount as int) + " CSH from "@ + entry.counterparty
    } else {
        time + ": Sent "@ + decimal(entry.amount as int) + " CSH to "@ + entry.counterparty
    }
}

impl TransactionLogV2 {
    /// Puts an entry together.
    pub fn new(counterparty: String, receiving: bool, amount: u32, time: i64) -> (r:
        TransactionLogV2)
        ensures
            r@ == (TransactionView { counterparty: counterparty@, receiving, amount, time }),
    {
        TransactionLogV2 { counterparty, receiving, amount, time }
    }

    /// The account that the funds came from or went to.
    pub fn get_counterparty(&self) -> (r: &str)
        ensures
            r@ == self@.counterparty,
    {
        self.counterparty.as_str()
    }

    /// Whether the user of the log received the funds, or sent them.
    pub fn get_if_receiving(&self) -> (r: bool)
        ensures
            r == self@.receiving,
    {
        self.receiving
    }

    /// The amount of the transaction.
    pub fn get_amount(&self) -> (r: u32)
        ensures
            r == self@.amount,
    {
        self.amount
    }

    /// When the transaction took place, in seconds since the start of 1970.
    pub fn get_time(&self) -> (r: i64)
        ensures
            r == self@.time,
    {
        self.time
    }

    /// The entry as a line of text, with `time` in the place of its time.
    pub fn render(&self, time: &str) -> (r: String)
        ensures
            r@ == transaction_line(self@, time@),
    {
        let mut line = String::from_str(time);
        if self.receiving {
            line.append(": Received ");
        } else {
            line.append(": Sent ");
        }
        line.append(decimal_u64(self.amount as u64).as_str());
        if self.receiving {
            line.append(" CSH from ");
        } else {
            line.append(" CSH to ");
        }
        line.append(self.counterparty.as_str());
        line
    }

    /// The entry as a line of text, with its time as a date in UTC. There is
    /// none where the time lies outside the calendar.
    pub fn to_text(&self) -> (r: Option<String>)
        ensures
            r.deep_view() == match time_of_entry(self@.time) {
                Some(time) => Some(transaction_line(self@, time)),
                None => None,
            },
    {
        match utc_time(self.time, 0) {
            Some(time) => Some(self.render(time.as_str())),
            None => None,
        }
    }
}

} // verus!
