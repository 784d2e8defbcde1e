use vstd::prelude::*;
use crate::decimal::{
    all_digits, decimal_digits, decimal_string, digits_value, lemma_decimal_digits_value,
    lemma_decimal_no_leading_zero, parse_u16, parsed_u16,
};

verus! {

/// The port the websocket service listens on when none is set.
pub const DEFAULT_PORT: u16 = 3000;

/// The port to listen on, from the setting of the `PORT` variable: the
/// default where it is unset, else the setting read as a `u16`; `None` where
/// the setting is no such number (the service then stops).
pub fn listen_port(setting: Option<&str>) -> (port: Option<u16>)
    ensures
        port == (match setting {
            None => Some(DEFAULT_PORT),
            Some(s) => parsed_u16(s@),
        }),
{
    match setting {
        None => Some(DEFAULT_PORT),
        Some(s) => parse_u16(s),
    }
}

/// The text that reports to the connected clients how many messages were sent.
pub open spec fn report_text(total: nat) -> Seq<char> {
    "Total number of messages "@ + decimal_digits(total)
}

/// What the websocket service broadcasts on a round of its analytics: the
/// count of messages sent, where at least one client is connected, and
/// nothing where none is.
pub fn clients_report(client_count: usize, total: usize) -> (report: Option<String>)
    ensures
        report is Some <==> client_count > 0,
        report matches Some(text) ==> text@ == report_text(total as nat),
{
    if client_count > 0 {
        let digits = decimal_string(total);
        let text = String::from_str("Total number of messages ").concat(digits.as_str());
        Some(text)
    } else {
        None
    }
}

/// The report is "Total number of messages " followed by the plain decimal
/// writing of the total: digits only, no leading zero, of value the total.
pub proof fn lemma_report_writes_total(total: nat)
    ensures
        report_text(total).len() > 25,
        report_text(total).take(25) == "Total number of messages "@,
        all_digits(report_text(total).skip(25)),
        digits_value(report_text(total).skip(25)) == total,
        total > 0 ==> report_text(total)[25] != '0',
        total == 0 ==> report_text(total).skip(25) == seq!['0'],
{
    reveal_strlit("Total number of messages ");
    lemma_decimal_digits_value(total);
    lemma_decimal_no_leading_zero(total);
    let prefix = "Total number of messages "@;
    assert(prefix.len() == 25);
    assert(report_text(total).take(25) =~= prefix);
    assert(report_text(total).skip(25) =~= decimal_digits(total));
}

/// The name of the consumer that reads the queue `queue`.
pub fn consumer_name(queue: &str) -> (name: String)
    ensures
        name@ == queue@ + "-consumer"@,
{
    String::from_str(queue).concat("-consumer")
}

} // verus!
