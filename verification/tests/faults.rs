use ptouch::fault::{PrinterError, Signal, FAULT_COUNT};
use ptouch::status::PrinterStatus;

const FLAGS_1: [(u8, PrinterError); 5] = [
    (0x01, PrinterError::NoMedia),
    (0x02, PrinterError::EndOfMedia),
    (0x04, PrinterError::CutterJam),
    (0x08, PrinterError::WeakBattery),
    (0x40, PrinterError::HighVoltageAdapter),
];

const FLAGS_2: [(u8, PrinterError); 8] = [
    (0x01, PrinterError::ReplaceMedia),
    (0x02, PrinterError::ExpansionBufferFull),
    (0x04, PrinterError::CommunicationError),
    (0x08, PrinterError::CommunicationBufferFull),
    (0x10, PrinterError::CoverOpen),
    (0x20, PrinterError::Overheating),
    (0x40, PrinterError::BlackMarkingNotDetected),
    (0x80, PrinterError::SystemError),
];

fn report_with_flags(flags_1: u8, flags_2: u8) -> [u8; 32] {
    let mut report = [0u8; 32];
    report[4] = 0x78;
    report[6] = 0x20;
    report[8] = flags_1;
    report[9] = flags_2;
    report
}

#[test]
fn every_value_of_the_first_flag_byte_gives_the_faults_of_its_bits() {
    for byte in 0u8..=255 {
        let mut expected = Vec::new();
        for (mask, fault) in FLAGS_1 {
            if byte & mask != 0 {
                expected.push(fault);
            }
        }
        let status = PrinterStatus::decode(&report_with_flags(byte, 0)).unwrap();
        assert_eq!(status.errors, expected);
    }
}

#[test]
fn every_value_of_the_second_flag_byte_gives_the_faults_of_its_bits() {
    for byte in 0u8..=255 {
        let mut expected = Vec::new();
        for (mask, fault) in FLAGS_2 {
            if byte & mask != 0 {
                expected.push(fault);
            }
        }
        let status = PrinterStatus::decode(&report_with_flags(0, byte)).unwrap();
        assert_eq!(status.errors, expected);
    }
}

#[test]
fn the_two_flag_bytes_add_up() {
    for first in [0x00u8, 0x01, 0x05, 0x4F, 0xFF] {
        for second in [0x00u8, 0x10, 0x81, 0xFF] {
            let mut expected = Vec::new();
            for (mask, fault) in FLAGS_1 {
                if first & mask != 0 {
                    expected.push(fault);
                }
            }
            for (mask, fault) in FLAGS_2 {
                if second & mask != 0 {
                    expected.push(fault);
                }
            }
            let status = PrinterStatus::decode(&report_with_flags(first, second)).unwrap();
            assert_eq!(status.errors, expected);
        }
    }
}

#[test]
fn unused_bits_of_the_first_flag_byte_are_ignored() {
    for byte in [0x10u8, 0x20, 0x80, 0xB0] {
        let status = PrinterStatus::decode(&report_with_flags(byte, 0)).unwrap();
        assert!(status.errors.is_empty());
    }
    let status = PrinterStatus::decode(&report_with_flags(0xB5, 0)).unwrap();
    assert_eq!(status.errors, vec![PrinterError::NoMedia, PrinterError::CutterJam]);
}

#[test]
fn all_faults_at_once_come_in_listing_order_and_once_each() {
    let mut report = report_with_flags(0xFF, 0xFF);
    report[7] = 0x21;
    report[11] = 0xFF;
    let status = PrinterStatus::decode(&report).unwrap();
    assert_eq!(
        status.errors,
        vec![
            PrinterError::UnknownMedia,
            PrinterError::NoMedia,
            PrinterError::EndOfMedia,
            PrinterError::CutterJam,
            PrinterError::WeakBattery,
            PrinterError::HighVoltageAdapter,
            PrinterError::ReplaceMedia,
            PrinterError::ExpansionBufferFull,
            PrinterError::CommunicationError,
            PrinterError::CommunicationBufferFull,
            PrinterError::CoverOpen,
            PrinterError::Overheating,
            PrinterError::BlackMarkingNotDetected,
            PrinterError::SystemError,
            PrinterError::IncompatibleTape,
        ]
    );
}

#[test]
fn collect_lists_what_is_raised() {
    let mut report = [0u8; 32];
    assert_eq!(PrinterError::collect(&report), Vec::<PrinterError>::new());
    report[7] = 0x1d;
    report[9] = 0x30;
    assert_eq!(
        PrinterError::collect(&report),
        vec![
            PrinterError::HighResDraftPrintError,
            PrinterError::CoverOpen,
            PrinterError::Overheating
        ]
    );
    for rank in 0..FAULT_COUNT {
        let fault = PrinterError::from_rank(rank).unwrap();
        assert_eq!(PrinterError::collect(&report).contains(&fault), fault.is_raised(&report));
    }
}

#[test]
fn listing_order_holds_every_fault_once() {
    assert_eq!(FAULT_COUNT, 18);
    let mut seen = Vec::new();
    for rank in 0..FAULT_COUNT {
        let fault = PrinterError::from_rank(rank).unwrap();
        assert!(!seen.contains(&fault));
        seen.push(fault);
    }
    assert_eq!(seen[0], PrinterError::UnknownMedia);
    assert_eq!(seen[3], PrinterError::AdapterPullInsertError);
    assert_eq!(seen[4], PrinterError::NoMedia);
    assert_eq!(seen[8], PrinterError::HighVoltageAdapter);
    assert_eq!(seen[9], PrinterError::ReplaceMedia);
    assert_eq!(seen[16], PrinterError::SystemError);
    assert_eq!(seen[17], PrinterError::IncompatibleTape);
    assert_eq!(PrinterError::from_rank(18), None);
    assert_eq!(PrinterError::from_rank(usize::MAX), None);
}

#[test]
fn signals_lie_where_the_table_says() {
    assert_eq!(PrinterError::NoMedia.signal(), Signal::Bit { offset: 8, mask: 0x01 });
    assert_eq!(PrinterError::HighVoltageAdapter.signal(), Signal::Bit { offset: 8, mask: 0x40 });
    assert_eq!(PrinterError::SystemError.signal(), Signal::Bit { offset: 9, mask: 0x80 });
    assert_eq!(PrinterError::UnknownMedia.signal(), Signal::Code { offset: 7, value: 0x21 });
    assert_eq!(PrinterError::FleTapeEnd.signal(), Signal::Code { offset: 7, value: 0x10 });
    assert_eq!(PrinterError::IncompatibleTape.signal(), Signal::Code { offset: 11, value: 0xFF });
    for (mask, fault) in FLAGS_1 {
        assert_eq!(fault.signal(), Signal::Bit { offset: 8, mask });
    }
    for (mask, fault) in FLAGS_2 {
        assert_eq!(fault.signal(), Signal::Bit { offset: 9, mask });
    }
}

#[test]
fn a_fault_bit_is_read_by_itself() {
    for byte in 0u8..=255 {
        for (mask, fault) in FLAGS_1 {
            let set = report_with_flags(byte | mask, 0);
            let cleared = report_with_flags(byte & !mask, 0);
            assert!(fault.is_raised(&set));
            assert!(!fault.is_raised(&cleared));
            for (_, other) in FLAGS_1 {
                if other != fault {
                    let before = other.is_raised(&report_with_flags(byte, 0));
                    assert_eq!(other.is_raised(&set), before);
                    assert_eq!(other.is_raised(&cleared), before);
                }
            }
        }
    }
}
