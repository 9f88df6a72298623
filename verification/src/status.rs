//! The lifecycle label that the gateway attaches to an invoice.

use crate::error::CryptomusError;
use crate::text::text_eq;
use vstd::prelude::*;

verus! {

/// Where a payment stands, as the gateway reports it. The client models no
/// transitions: the label is received, never derived.
#[derive(Clone, Copy, Debug, PartialEq, Eq, Structural)]
pub enum PaymentStatus {
    Paid,
    PaidOver,
    WrongAmount,
    Process,
    ConfirmCheck,
    WrongAmountWaiting,
    Check,
    Fail,
    Cancel,
    SystemFail,
    RefundProcess,
    RefundFail,
    RefundPaid,
    Locked,
    /// Any label this client does not know, so that new ones do not break it.
    Unknown,
}

impl PaymentStatus {
    /// The label's name on the wire.
    pub open spec fn wire_name(self) -> Seq<char> {
        match self {
            PaymentStatus::Paid => "paid"@,
            PaymentStatus::PaidOver => "paid_over"@,
            PaymentStatus::WrongAmount => "wrong_amount"@,
            PaymentStatus::Process => "process"@,
            PaymentStatus::ConfirmCheck => "confirm_check"@,
            PaymentStatus::WrongAmountWaiting => "wrong_amount_waiting"@,
            PaymentStatus::Check => "check"@,
            PaymentStatus::Fail => "fail"@,
            PaymentStatus::Cancel => "cancel"@,
            PaymentStatus::SystemFail => "system_fail"@,
            PaymentStatus::RefundProcess => "refund_process"@,
            PaymentStatus::RefundFail => "refund_fail"@,
            PaymentStatus::RefundPaid => "refund_paid"@,
            PaymentStatus::Locked => "locked"@,
            PaymentStatus::Unknown => "unknown"@,
        }
    }

    /// The label that a name on the wire stands for: the one that bears the
    /// name, and `Unknown` for every name that none bears.
    pub open spec fn of_wire_name(name: Seq<char>) -> PaymentStatus {
        if name == "paid"@ {
            PaymentStatus::Paid
        } else if name == "paid_over"@ {
            PaymentStatus::PaidOver
        } else if name == "wrong_amount"@ {
            PaymentStatus::WrongAmount
        } else if name == "process"@ {
            PaymentStatus::Process
        } else if name == "confirm_check"@ {
            PaymentStatus::ConfirmCheck
        } else if name == "wrong_amount_waiting"@ {
            PaymentStatus::WrongAmountWaiting
        } else if name == "check"@ {
            PaymentStatus::Check
        } else if name == "fail"@ {
            PaymentStatus::Fail
        } else if name == "cancel"@ {
            PaymentStatus::Cancel
        } else if name == "system_fail"@ {
            PaymentStatus::SystemFail
        } else if name == "refund_process"@ {
            PaymentStatus::RefundProcess
        } else if name == "refund_fail"@ {
            PaymentStatus::RefundFail
        } else if name == "refund_paid"@ {
            PaymentStatus::RefundPaid
        } else if name == "locked"@ {
            PaymentStatus::Locked
        } else {
            PaymentStatus::Unknown
        }
    }

    /// The label's name on the wire, in snake case. It never fails.
    pub fn to_snake_case_string(&self) -> (result: Result<String, CryptomusError>)
        ensures
            result matches Ok(name) && name@ == self.wire_name(),
    {
        let name = match self {
            PaymentStatus::Paid => "paid",
            PaymentStatus::PaidOver => "paid_over",
            PaymentStatus::WrongAmount => "wrong_amount",
            PaymentStatus::Process => "process",
            PaymentStatus::ConfirmCheck => "confirm_check",
            PaymentStatus::WrongAmountWaiting => "wrong_amount_waiting",
            PaymentStatus::Check => "check",
            PaymentStatus::Fail => "fail",
            PaymentStatus::Cancel => "cancel",
            PaymentStatus::SystemFail => "system_fail",
            PaymentStatus::RefundProcess => "refund_process",
            PaymentStatus::RefundFail => "refund_fail",
            PaymentStatus::RefundPaid => "refund_paid",
            PaymentStatus::Locked => "locked",
            PaymentStatus::Unknown => "unknown",
        };
        Ok(name.to_owned())
    }

    /// Reads a label from its name on the wire.
    pub fn from_wire_name(name: &str) -> (status: PaymentStatus)
        ensures
            status == PaymentStatus::of_wire_name(name@),
    {
        if text_eq(name, "paid") {
            PaymentStatus::Paid
        } else if text_eq(name, "paid_over") {
            PaymentStatus::PaidOver
        } else if text_eq(name, "wrong_amount") {
            PaymentStatus::WrongAmount
        } else if text_eq(name, "process") {
            PaymentStatus::Process
        } else if text_eq(name, "confirm_check") {
            PaymentStatus::ConfirmCheck
        } else if text_eq(name, "wrong_amount_waiting") {
            PaymentStatus::WrongAmountWaiting
        } else if text_eq(name, "check") {
            PaymentStatus::Check
        } else if text_eq(name, "fail") {
            PaymentStatus::Fail
        } else if text_eq(name, "cancel") {
            PaymentStatus::Cancel
        } else if text_eq(name, "system_fail") {
            PaymentStatus::SystemFail
        } else if text_eq(name, "refund_process") {
            PaymentStatus::RefundProcess
        } else if text_eq(name, "refund_fail") {
            PaymentStatus::RefundFail
        } else if text_eq(name, "refund_paid") {
            PaymentStatus::RefundPaid
        } else if text_eq(name, "locked") {
            PaymentStatus::Locked
        } else {
            PaymentStatus::Unknown
        }
    }
}

/// Reading a label's own wire name gives the label back.
pub proof fn lemma_status_round_trip(status: PaymentStatus)
    ensures
        PaymentStatus::of_wire_name(status.wire_name()) == status,
{
    reveal_strlit("paid");
    reveal_strlit("paid_over");
    reveal_strlit("wrong_amount");
    reveal_strlit("process");
    reveal_strlit("confirm_check");
    reveal_strlit("wrong_amount_waiting");
    reveal_strlit("check");
    reveal_strlit("fail");
    reveal_strlit("cancel");
    reveal_strlit("system_fail");
    reveal_strlit("refund_process");
    reveal_strlit("refund_fail");
    reveal_strlit("refund_paid");
    reveal_strlit("locked");
    reveal_strlit("unknown");
    assert("paid_over"@.len() == 9);
    assert("process"@.len() == 7 && "unknown"@.len() == 7);
    assert("confirm_check"@.len() == 13);
    assert("wrong_amount_waiting"@.len() == 20);
    assert("check"@.len() == 5);
    assert("refund_process"@.len() == 14);
    assert("paid"@[0] != "fail"@[0]);
    assert("process"@[0] != "unknown"@[0]);
    assert("cancel"@[0] != "locked"@[0]);
    assert("system_fail"@[0] != "refund_paid"@[0]);
    assert("refund_fail"@[7] != "refund_paid"@[7]);
}

/// A name that no known label bears reads as `Unknown`.
pub proof fn lemma_unrecognized_is_unknown(name: Seq<char>)
    requires
        forall|status: PaymentStatus|
            status != PaymentStatus::Unknown ==> name != #[trigger] status.wire_name(),
    ensures
        PaymentStatus::of_wire_name(name) == PaymentStatus::Unknown,
{
    assert(name != PaymentStatus::Paid.wire_name());
    assert(name != PaymentStatus::PaidOver.wire_name());
    assert(name != PaymentStatus::WrongAmount.wire_name());
    assert(name != PaymentStatus::Process.wire_name());
    assert(name != PaymentStatus::ConfirmCheck.wire_name());
    assert(name != PaymentStatus::WrongAmountWaiting.wire_name());
    assert(name != PaymentStatus::Check.wire_name());
    assert(name != PaymentStatus::Fail.wire_name());
    assert(name != PaymentStatus::Cancel.wire_name());
    assert(name != PaymentStatus::SystemFail.wire_name());
    assert(name != PaymentStatus::RefundProcess.wire_name());
    assert(name != PaymentStatus::RefundFail.wire_name());
    assert(name != PaymentStatus::RefundPaid.wire_name());
    assert(name != PaymentStatus::Locked.wire_name());
}

} // verus!
