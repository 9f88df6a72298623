use cryptomus::status::PaymentStatus;

const ALL: [(PaymentStatus, &str); 15] = [
    (PaymentStatus::Paid, "paid"),
    (PaymentStatus::PaidOver, "paid_over"),
    (PaymentStatus::WrongAmount, "wrong_amount"),
    (PaymentStatus::Process, "process"),
    (PaymentStatus::ConfirmCheck, "confirm_check"),
    (PaymentStatus::WrongAmountWaiting, "wrong_amount_waiting"),
    (PaymentStatus::Check, "check"),
    (PaymentStatus::Fail, "fail"),
    (PaymentStatus::Cancel, "cancel"),
    (PaymentStatus::SystemFail, "system_fail"),
    (PaymentStatus::RefundProcess, "refund_process"),
    (PaymentStatus::RefundFail, "refund_fail"),
    (PaymentStatus::RefundPaid, "refund_paid"),
    (PaymentStatus::Locked, "locked"),
    (PaymentStatus::Unknown, "unknown"),
];

#[test]
fn every_status_has_its_snake_case_name() {
    for (status, name) in ALL {
        assert_eq!(status.to_snake_case_string(), Ok(name.to_string()));
    }
}

#[test]
fn every_name_reads_as_its_status() {
    for (status, name) in ALL {
        assert_eq!(PaymentStatus::from_wire_name(name), status);
    }
}

#[test]
fn paid_over_reads_as_paid_over() {
    assert_eq!(PaymentStatus::from_wire_name("paid_over"), PaymentStatus::PaidOver);
}

#[test]
fn an_unrecognized_name_reads_as_unknown() {
    assert_eq!(PaymentStatus::from_wire_name("new_future_status"), PaymentStatus::Unknown);
    assert_eq!(PaymentStatus::from_wire_name(""), PaymentStatus::Unknown);
    assert_eq!(PaymentStatus::from_wire_name("Paid"), PaymentStatus::Unknown);
    assert_eq!(PaymentStatus::from_wire_name("paid "), PaymentStatus::Unknown);
    assert_eq!(PaymentStatus::from_wire_name("paid_ove"), PaymentStatus::Unknown);
}

#[test]
fn a_status_survives_the_round_trip_through_its_name() {
    for (status, _) in ALL {
        let name = status.to_snake_case_string().unwrap();
        assert_eq!(PaymentStatus::from_wire_name(&name), status);
    }
}
