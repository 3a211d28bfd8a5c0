//! The filter: which transactions are reported, and what a report says.

use crate::amount::{decimal_text, pow10, Amount, DecimalValue};
use crate::transaction::{Address, ResolvedTransaction, VALUE_SCALE};
use vstd::prelude::*;
use vstd::string::StringExecFns;

verus! {

/// The digit that stands for `nibble` in lower case hexadecimal.
pub open spec fn hex_digit(nibble: int) -> char {
    seq!['0', '1', '2', '3', '4', '5', '6', '7', '8', '9', 'a', 'b', 'c', 'd', 'e', 'f'][nibble]
}

/// The two hexadecimal digits of `byte`.
pub open spec fn hex_byte(byte: u8) -> Seq<char> {
    seq![hex_digit(byte as int / 16), hex_digit(byte as int % 16)]
}

/// The short form of an address: `0x`, its first two bytes, an ellipsis and
/// its last two bytes.
pub open spec fn address_text(bytes: Seq<u8>) -> Seq<char> {
    seq!['0', 'x'] + hex_byte(bytes[0]) + hex_byte(bytes[1]) + seq!['\u{2026}'] + hex_byte(
        bytes[18],
    ) + hex_byte(bytes[19])
}

/// Calls the `Display` of `ethers`' `H160` through `to_string`. It writes
/// `0x`, the first two bytes as two lower case hexadecimal digits each, the
/// character U+2026 and the last two bytes in the same way.
#[verifier::external_body]
fn address_display(bytes: [u8; 20]) -> (text: String)
    ensures
        text@ == address_text(bytes@),
{
    ethers::types::H160(bytes).to_string()
}

/// One reported transfer.
#[derive(Clone, Copy, Debug, PartialEq, Eq)]
pub struct ReportLine {
    pub sender: Address,
    pub recipient: Address,
    /// The transferred value, normalised.
    pub value: Amount,
}

/// A reported transfer as a mathematical value.
pub struct ReportView {
    pub sender: Address,
    pub recipient: Address,
    pub value: DecimalValue,
}

impl View for ReportLine {
    type V = ReportView;

    open spec fn view(&self) -> ReportView {
        ReportView { sender: self.sender, recipient: self.recipient, value: self.value@ }
    }
}

/// The view of a line, where there is one.
pub open spec fn line_view(line: Option<ReportLine>) -> Option<ReportView> {
    match line {
        Some(l) => Some(l@),
        None => None,
    }
}

impl ReportLine {
    /// The text of the line: sender, recipient and value.
    pub open spec fn message_text(self) -> Seq<char> {
        address_text(self.sender.bytes@) + " -> "@ + address_text(self.recipient.bytes@) + " | "@
            + decimal_text(self.value@.mantissa, self.value@.scale)
    }

    /// The line as text for the output sink.
    pub fn message(&self) -> (text: String)
        ensures
            text@ == self.message_text(),
    {
        let sender = address_display(self.sender.bytes);
        let recipient = address_display(self.recipient.bytes);
        let value = self.value.to_text();
        join_message(sender.as_str(), recipient.as_str(), value.as_str())
    }
}

/// Puts the three parts of a line together: `sender -> recipient | value`.
pub fn join_message(sender: &str, recipient: &str, value: &str) -> (text: String)
    ensures
        text@ == sender@ + " -> "@ + recipient@ + " | "@ + value@,
{
    let mut text = String::new();
    text.append(sender);
    text.append(" -> ");
    text.append(recipient);
    text.append(" | ");
    text.append(value);
    text
}

/// Whether a transaction is reported at `threshold`: it has a recipient, and
/// its value is not below the threshold in exact decimal order.
pub open spec fn reported(tx: ResolvedTransaction, threshold: DecimalValue) -> bool {
    tx.recipient is Some && tx.decimal_value().ge(threshold)
}

/// The report that the filter makes of `tx` at `threshold`, if any: sender and
/// recipient as they are, the value with its trailing zeros stripped.
pub open spec fn expected_report(tx: ResolvedTransaction, threshold: DecimalValue) -> Option<
    ReportView,
> {
    if reported(tx, threshold) {
        Some(
            ReportView {
                sender: tx.sender,
                recipient: tx.recipient->0,
                value: tx.decimal_value().normalized(),
            },
        )
    } else {
        None
    }
}

/// A transaction without a recipient is not reported, whatever its value and
/// whatever the threshold.
pub proof fn lemma_no_recipient_no_report(tx: ResolvedTransaction, threshold: DecimalValue)
    requires
        tx.recipient is None,
    ensures
        expected_report(tx, threshold) is None,
{
}

/// A transaction with a recipient is reported exactly when its value, as a
/// number of the smallest unit, is at least the threshold brought to that
/// unit: integers are compared, so no digit is rounded away.
pub proof fn lemma_report_iff_at_least_threshold(tx: ResolvedTransaction, threshold: DecimalValue)
    requires
        tx.recipient is Some,
    ensures
        expected_report(tx, threshold) is Some <==> tx.value.signed() * pow10(threshold.scale)
            >= threshold.mantissa * pow10(VALUE_SCALE as nat),
{
}

/// Decides whether `tx` is reported at `threshold`, and builds the report.
///
/// A transaction without a recipient is never reported, whatever its value.
/// Any other is reported exactly when its value, read with eighteen decimal
/// places, is at least the threshold; the line then carries the value with its
/// trailing zeros stripped.
pub fn report(tx: &ResolvedTransaction, threshold: &Amount) -> (line: Option<ReportLine>)
    ensures
        tx.recipient is None ==> line is None,
        tx.recipient is Some ==> (line is Some <==> tx.decimal_value().ge(threshold@)),
        line_view(line) == expected_report(*tx, threshold@),
{
    let recipient = match tx.recipient {
        Some(recipient) => recipient,
        None => {
            return None;
        },
    };
    let value = Amount::from_parts(tx.signed_value(), VALUE_SCALE);
    if value.is_less_than(threshold) {
        return None;
    }
    Some(ReportLine { sender: tx.sender, recipient, value: value.normalize() })
}

} // verus!
