use media_remote::descriptor::{
    parse_report_descriptor, report_descriptor, DescriptorError, InputField,
};

#[test]
fn report_descriptor_bytes_exact() {
    let expected: Vec<u8> = vec![
        0x05, 0x0C, // usage page: consumer
        0x09, 0x01, // usage: consumer control
        0xA1, 0x01, // collection: application
        0x85, 0x01, // report id 1
        0x05, 0x0C, // usage page: consumer
        0x15, 0x00, // logical minimum 0
        0x25, 0x01, // logical maximum 1
        0x75, 0x01, // report size 1
        0x95, 0x08, // report count 8
        0x09, 0xB5, // usage: scan next track
        0x09, 0xB6, // usage: scan previous track
        0x09, 0xB7, // usage: stop
        0x09, 0xCD, // usage: play/pause
        0x09, 0xE2, // usage: mute
        0x09, 0xE9, // usage: volume increment
        0x09, 0xEA, // usage: volume decrement
        0x09, 0xCF, // usage: voice assistant
        0x81, 0x02, // input (data, var, abs)
        0xC0, // end collection
    ];
    assert_eq!(report_descriptor(), expected);
}

#[test]
fn descriptor_parses_to_single_media_report() {
    let bytes = report_descriptor();
    let fields = parse_report_descriptor(&bytes).expect("descriptor must parse");
    assert_eq!(fields.len(), 1);
    let f = fields[0];
    assert_eq!(
        f,
        InputField {
            usage_page: 0x0C,
            report_id: Some(1),
            report_size: 1,
            report_count: 8,
            usage_count: 8,
        }
    );
    // one byte per report: eight one-bit fields
    assert_eq!(f.report_size * f.report_count, 8);
}

#[test]
fn parse_empty_descriptor_yields_no_reports() {
    let fields = parse_report_descriptor(&Vec::new()).expect("empty descriptor parses");
    assert!(fields.is_empty());
}

#[test]
fn parse_rejects_truncated_item() {
    // a usage-page item announcing one data byte that is missing
    let bytes: Vec<u8> = vec![0x05];
    assert_eq!(
        parse_report_descriptor(&bytes),
        Err(DescriptorError::TruncatedItem)
    );
}

#[test]
fn parse_rejects_long_item() {
    let bytes: Vec<u8> = vec![0xFE, 0x01, 0x00, 0x00];
    assert_eq!(
        parse_report_descriptor(&bytes),
        Err(DescriptorError::LongItem)
    );
}

#[test]
fn parse_rejects_unbalanced_end_collection() {
    let bytes: Vec<u8> = vec![0xC0];
    assert_eq!(
        parse_report_descriptor(&bytes),
        Err(DescriptorError::UnbalancedEndCollection)
    );
}

#[test]
fn parse_rejects_unclosed_collection() {
    let bytes: Vec<u8> = vec![0xA1, 0x01];
    assert_eq!(
        parse_report_descriptor(&bytes),
        Err(DescriptorError::UnclosedCollection)
    );
}

#[test]
fn parse_reads_wide_item_values() {
    // a two-byte and a four-byte usage page, each followed by a bare
    // input item, little-endian data
    let bytes: Vec<u8> = vec![
        0x06, 0x3C, 0x01, // usage page 0x013C (two data bytes)
        0x81, 0x02, // input
        0x07, 0x78, 0x56, 0x34, 0x12, // usage page 0x12345678 (four data bytes)
        0x81, 0x02, // input
    ];
    let fields = parse_report_descriptor(&bytes).expect("descriptor must parse");
    assert_eq!(fields.len(), 2);
    assert_eq!(fields[0].usage_page, 0x013C);
    assert_eq!(fields[1].usage_page, 0x12345678);
}

#[test]
fn parse_clears_locals_at_main_items() {
    // two usages before the first input, none before the second
    let bytes: Vec<u8> = vec![
        0x09, 0xB5, // usage
        0x09, 0xB6, // usage
        0x81, 0x02, // input: sees two usages
        0x81, 0x02, // input: sees none
    ];
    let fields = parse_report_descriptor(&bytes).expect("descriptor must parse");
    assert_eq!(fields.len(), 2);
    assert_eq!(fields[0].usage_count, 2);
    assert_eq!(fields[1].usage_count, 0);
    assert_eq!(fields[0].report_id, None);
}
