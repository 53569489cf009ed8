use ptouch::command::{
    is_label_printer, Command, FROM_DEVICE, INTERFACE, INVALIDATE_LEN, PACING_MILLIS, PRODUCT_ID,
    TO_DEVICE, VENDOR_ID,
};
use ptouch::layout::REPORT_LEN;

#[test]
fn invalidate_is_two_hundred_zero_bytes() {
    let bytes = Command::Invalidate.encode();
    assert_eq!(bytes.len(), 200);
    assert_eq!(INVALIDATE_LEN, 200);
    assert!(bytes.iter().all(|b| *b == 0));
}

#[test]
fn initialize_is_escape_at() {
    assert_eq!(Command::Initialize.encode(), vec![0x1B, 0x40]);
}

#[test]
fn status_request_is_three_bytes() {
    assert_eq!(Command::StatusRequest.encode(), vec![0x1B, 0x69, 0x53]);
}

#[test]
fn addressing_is_fixed() {
    assert_eq!(VENDOR_ID, 0x04f9);
    assert_eq!(PRODUCT_ID, 0x20c7);
    assert_eq!(INTERFACE, 0);
    assert_eq!(FROM_DEVICE, 0x81);
    assert_eq!(TO_DEVICE, 0x02);
    assert_eq!(PACING_MILLIS, 1);
    assert_eq!(REPORT_LEN, 32);
}

#[test]
fn only_the_one_identifier_pair_is_the_printer() {
    assert!(is_label_printer(0x04f9, 0x20c7));
    assert!(!is_label_printer(0x04f9, 0x20c8));
    assert!(!is_label_printer(0x04fa, 0x20c7));
    assert!(!is_label_printer(0x20c7, 0x04f9));
    assert!(!is_label_printer(0, 0));
}
