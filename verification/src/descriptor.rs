//! The HID report descriptor of the remote, and a parser for HID
//! short-item report descriptors that recovers the shape of the
//! input reports a descriptor declares.

use vstd::prelude::*;

verus! {

/// Report ID of the media-keys input report.
pub const MEDIA_KEYS_REPORT_ID: u8 = 0x01;

/// HID usage page number of the consumer page.
pub const CONSUMER_PAGE: u32 = 0x0C;

// Short-item tags: a descriptor byte `b` opens an item of tag
// `b & 0xFC` followed by `b & 3` data bytes (3 standing for 4).
/// Usage-page tag (global item).
pub const TAG_USAGE_PAGE: u8 = 0x04;
/// Usage tag (local item).
pub const TAG_USAGE: u8 = 0x08;
/// Logical-minimum tag (global item).
pub const TAG_LOGICAL_MINIMUM: u8 = 0x14;
/// Logical-maximum tag (global item).
pub const TAG_LOGICAL_MAXIMUM: u8 = 0x24;
/// Report-size tag (global item), in bits.
pub const TAG_REPORT_SIZE: u8 = 0x74;
/// Input tag (main item).
pub const TAG_INPUT: u8 = 0x80;
/// Report-id tag (global item).
pub const TAG_REPORT_ID: u8 = 0x84;
/// Report-count tag (global item).
pub const TAG_REPORT_COUNT: u8 = 0x94;
/// Collection tag (main item).
pub const TAG_COLLECTION: u8 = 0xA0;
/// End-collection tag (main item).
pub const TAG_END_COLLECTION: u8 = 0xC0;
/// Prefix byte of a long item, which this parser does not accept.
pub const LONG_ITEM_PREFIX: u8 = 0xFE;

// One-data-byte item prefixes (tag with size bits 01) used by the
// descriptor of this device.
/// Usage-page item with one data byte.
pub const USAGE_PAGE_1: u8 = 0x05;
/// Usage item with one data byte.
pub const USAGE_1: u8 = 0x09;
/// Collection item with one data byte.
pub const COLLECTION_1: u8 = 0xA1;
/// Report-id item with one data byte.
pub const REPORT_ID_1: u8 = 0x85;
/// Logical-minimum item with one data byte.
pub const LOGICAL_MINIMUM_1: u8 = 0x15;
/// Logical-maximum item with one data byte.
pub const LOGICAL_MAXIMUM_1: u8 = 0x25;
/// Report-size item with one data byte.
pub const REPORT_SIZE_1: u8 = 0x75;
/// Report-count item with one data byte.
pub const REPORT_COUNT_1: u8 = 0x95;
/// Input item with one data byte.
pub const INPUT_1: u8 = 0x81;

// Consumer-page usage numbers of the eight keys, in report-bit order.
/// Usage number of "scan next track".
pub const USAGE_NEXT_TRACK: u8 = 0xB5;
/// Usage number of "scan previous track".
pub const USAGE_PREV_TRACK: u8 = 0xB6;
/// Usage number of "stop".
pub const USAGE_STOP: u8 = 0xB7;
/// Usage number of "play/pause".
pub const USAGE_PLAY_PAUSE: u8 = 0xCD;
/// Usage number of "mute".
pub const USAGE_MUTE: u8 = 0xE2;
/// Usage number of "volume increment".
pub const USAGE_VOLUME_UP: u8 = 0xE9;
/// Usage number of "volume decrement".
pub const USAGE_VOLUME_DOWN: u8 = 0xEA;
/// Usage number of the voice-assistant key.
pub const USAGE_VOICE_ASSISTANT: u8 = 0xCF;

/// The remote's report descriptor: one application collection on the
/// consumer page holding a single eight-bit bitmask input report
/// under the media-keys report ID, one usage per bit.
pub open spec fn descriptor_bytes() -> Seq<u8> {
    seq![
        USAGE_PAGE_1, CONSUMER_PAGE as u8,
        USAGE_1, 0x01u8,
        COLLECTION_1, 0x01u8,
        REPORT_ID_1, MEDIA_KEYS_REPORT_ID,
        USAGE_PAGE_1, CONSUMER_PAGE as u8,
        LOGICAL_MINIMUM_1, 0x00u8,
        LOGICAL_MAXIMUM_1, 0x01u8,
        REPORT_SIZE_1, 0x01u8,
        REPORT_COUNT_1, 0x08u8,
        USAGE_1, USAGE_NEXT_TRACK,
        USAGE_1, USAGE_PREV_TRACK,
        USAGE_1, USAGE_STOP,
        USAGE_1, USAGE_PLAY_PAUSE,
        USAGE_1, USAGE_MUTE,
        USAGE_1, USAGE_VOLUME_UP,
        USAGE_1, USAGE_VOLUME_DOWN,
        USAGE_1, USAGE_VOICE_ASSISTANT,
        INPUT_1, 0x02u8,
        TAG_END_COLLECTION,
    ]
}

/// Appends one short item with a single data byte.
fn push_item(v: &mut Vec<u8>, prefix: u8, data: u8)
    ensures
        final(v)@ == old(v)@ + seq![prefix, data],
{
    v.push(prefix);
    v.push(data);
    proof {
        assert(v@ =~= old(v)@ + seq![prefix, data]);
    }
}

/// Builds the report descriptor, byte for byte.
pub fn report_descriptor() -> (r: Vec<u8>)
    ensures
        r@ == descriptor_bytes(),
{
    let mut r: Vec<u8> = Vec::new();
    push_item(&mut r, USAGE_PAGE_1, CONSUMER_PAGE as u8);
    push_item(&mut r, USAGE_1, 0x01);
    push_item(&mut r, COLLECTION_1, 0x01);
    push_item(&mut r, REPORT_ID_1, MEDIA_KEYS_REPORT_ID);
    push_item(&mut r, USAGE_PAGE_1, CONSUMER_PAGE as u8);
    push_item(&mut r, LOGICAL_MINIMUM_1, 0x00);
    push_item(&mut r, LOGICAL_MAXIMUM_1, 0x01);
    push_item(&mut r, REPORT_SIZE_1, 0x01);
    push_item(&mut r, REPORT_COUNT_1, 0x08);
    push_item(&mut r, USAGE_1, USAGE_NEXT_TRACK);
    push_item(&mut r, USAGE_1, USAGE_PREV_TRACK);
    push_item(&mut r, USAGE_1, USAGE_STOP);
    push_item(&mut r, USAGE_1, USAGE_PLAY_PAUSE);
    push_item(&mut r, USAGE_1, USAGE_MUTE);
    push_item(&mut r, USAGE_1, USAGE_VOLUME_UP);
    push_item(&mut r, USAGE_1, USAGE_VOLUME_DOWN);
    push_item(&mut r, USAGE_1, USAGE_VOICE_ASSISTANT);
    push_item(&mut r, INPUT_1, 0x02);
    r.push(TAG_END_COLLECTION);
    proof {
        assert(r@ =~= descriptor_bytes());
    }
    r
}

/// One input report declared by a descriptor: the global state in
/// force at its input item, and how many usages led up to it.
#[derive(Clone, Copy, PartialEq, Eq, Structural, Debug)]
pub struct InputField {
    /// Usage page in force at the input item.
    pub usage_page: u32,
    /// Report ID in force, if any was declared.
    pub report_id: Option<u32>,
    /// Width of one field, in bits.
    pub report_size: u32,
    /// Number of fields in the report.
    pub report_count: u32,
    /// Number of usage items since the last main item.
    pub usage_count: u32,
}

/// Why a descriptor is rejected.
#[derive(Clone, Copy, PartialEq, Eq, Structural, Debug)]
pub enum DescriptorError {
    /// An item's data bytes run past the end of the descriptor.
    TruncatedItem,
    /// A long item, which this parser does not accept.
    LongItem,
    /// An end-collection item with no collection open.
    UnbalancedEndCollection,
    /// The descriptor ends with a collection still open.
    UnclosedCollection,
}

/// Parser state: the global items in force, the pending local usage
/// count, and the collection nesting depth.  The two counters
/// saturate, which no descriptor that fits in memory ever reaches.
#[derive(Clone, Copy, PartialEq, Eq, Structural, Debug)]
pub struct ScanState {
    /// Usage page in force.
    pub usage_page: u32,
    /// Report ID in force, if one was declared.
    pub report_id: Option<u32>,
    /// Report size in force, in bits.
    pub report_size: u32,
    /// Report count in force.
    pub report_count: u32,
    /// Usage items since the last main item (saturating).
    pub usage_count: u32,
    /// Open collections (saturating).
    pub depth: u32,
}

/// The state before the first item: nothing declared, nothing open.
pub open spec fn initial_scan_state() -> ScanState {
    ScanState {
        usage_page: 0,
        report_id: None,
        report_size: 0,
        report_count: 0,
        usage_count: 0,
        depth: 0,
    }
}

impl ScanState {
    /// The state before the first item.
    pub fn initial() -> (r: ScanState)
        ensures
            r == initial_scan_state(),
    {
        ScanState {
            usage_page: 0,
            report_id: None,
            report_size: 0,
            report_count: 0,
            usage_count: 0,
            depth: 0,
        }
    }
}

/// How many data bytes follow an item's prefix byte.
pub open spec fn item_data_len(prefix: u8) -> nat {
    if prefix & 3 == 3 {
        4
    } else {
        (prefix & 3) as nat
    }
}

/// The little-endian value of the bytes of `s` from `lo` up to (not
/// including) `hi`, reading zero past the end.
pub open spec fn le_range(s: Seq<u8>, lo: nat, hi: nat) -> nat
    decreases hi - lo,
{
    if lo >= hi || lo >= s.len() {
        0
    } else {
        (s[lo as int] + 256 * le_range(s, lo + 1, hi)) as nat
    }
}

/// A saturating increment.
pub open spec fn bump(c: u32) -> u32 {
    if c == u32::MAX {
        c
    } else {
        (c + 1) as u32
    }
}

/// One item applied to the parser state: global items set their
/// value, a usage counts, an input item records a field, collections
/// nest, and every main item clears the pending usages.  An
/// end-collection at depth zero never reaches this point.
pub open spec fn apply_item(st: ScanState, tag: u8, data: u32, acc: Seq<InputField>) -> (ScanState, Seq<InputField>) {
    if tag == TAG_USAGE_PAGE {
        (ScanState { usage_page: data, ..st }, acc)
    } else if tag == TAG_REPORT_ID {
        (ScanState { report_id: Some(data), ..st }, acc)
    } else if tag == TAG_REPORT_SIZE {
        (ScanState { report_size: data, ..st }, acc)
    } else if tag == TAG_REPORT_COUNT {
        (ScanState { report_count: data, ..st }, acc)
    } else if tag == TAG_USAGE {
        (ScanState { usage_count: bump(st.usage_count), ..st }, acc)
    } else if tag == TAG_INPUT {
        (
            ScanState { usage_count: 0, ..st },
            acc + seq![
                InputField {
                    usage_page: st.usage_page,
                    report_id: st.report_id,
                    report_size: st.report_size,
                    report_count: st.report_count,
                    usage_count: st.usage_count,
                },
            ],
        )
    } else if tag == TAG_COLLECTION {
        (ScanState { depth: bump(st.depth), usage_count: 0, ..st }, acc)
    } else if tag == TAG_END_COLLECTION {
        (
            ScanState {
                depth: if st.depth == 0 { 0 } else { (st.depth - 1) as u32 },
                usage_count: 0,
                ..st
            },
            acc,
        )
    } else if tag & 0x0C == 0 {
        // another main item (output, feature): only the locals clear
        (ScanState { usage_count: 0, ..st }, acc)
    } else {
        (st, acc)
    }
}

/// The parse of `s` from position `i` on, in state `st` with the
/// fields `acc` already recorded.
pub open spec fn scan_from(s: Seq<u8>, i: nat, st: ScanState, acc: Seq<InputField>) -> Result<
    Seq<InputField>,
    DescriptorError,
>
    decreases s.len() - i,
{
    if i >= s.len() {
        if st.depth == 0 {
            Ok(acc)
        } else {
            Err(DescriptorError::UnclosedCollection)
        }
    } else {
        let prefix = s[i as int];
        if prefix == LONG_ITEM_PREFIX {
            Err(DescriptorError::LongItem)
        } else {
            let n = item_data_len(prefix);
            if i + 1 + n > s.len() {
                Err(DescriptorError::TruncatedItem)
            } else {
                let tag = prefix & 0xFC;
                if tag == TAG_END_COLLECTION && st.depth == 0 {
                    Err(DescriptorError::UnbalancedEndCollection)
                } else {
                    let data = le_range(s, i + 1, i + 1 + n) as u32;
                    let (st2, acc2) = apply_item(st, tag, data, acc);
                    scan_from(s, i + 1 + n, st2, acc2)
                }
            }
        }
    }
}

/// The parse of a whole descriptor: the input reports it declares,
/// in order, or the first fault found.
pub open spec fn parse_spec(s: Seq<u8>) -> Result<Seq<InputField>, DescriptorError> {
    scan_from(s, 0, initial_scan_state(), Seq::empty())
}

/// The little-endian value of at most four bytes stays below 2^32.
proof fn lemma_le_range_fits(s: Seq<u8>, lo: nat, hi: nat)
    requires
        hi <= lo + 4,
    ensures
        le_range(s, lo, hi) < 0x1_0000_0000,
    decreases hi - lo,
{
    reveal_with_fuel(le_range, 5);
    if lo >= hi || lo >= s.len() {
    } else {
        lemma_le_range_fits(s, lo + 1, hi);
        let t = le_range(s, lo + 1, hi);
        if hi == lo + 4 {
            assert(le_range(s, lo + 3, hi) < 0x100);
            assert(le_range(s, lo + 2, hi) < 0x1_0000);
            assert(t < 0x100_0000);
        } else if hi == lo + 3 {
            assert(le_range(s, lo + 2, hi) < 0x100);
            assert(t < 0x1_0000);
        } else if hi == lo + 2 {
            assert(t < 0x100);
        } else {
            assert(t == 0);
        }
    }
}

/// The device's descriptor is well formed and declares exactly one
/// input report: eight one-bit fields under the consumer page, with
/// the media-keys report ID and one usage per field.
#[verifier::rlimit(100)]
#[verifier::spinoff_prover]
pub proof fn lemma_descriptor_declares_one_report()
    ensures
        parse_spec(descriptor_bytes()) == Ok::<_, DescriptorError>(
            seq![
                InputField {
                    usage_page: CONSUMER_PAGE,
                    report_id: Some(MEDIA_KEYS_REPORT_ID as u32),
                    report_size: 1,
                    report_count: 8,
                    usage_count: 8,
                },
            ],
        ),
{
    assert(0x05u8 & 3 == 1 && 0x05u8 & 0xFC == 0x04) by (bit_vector);
    assert(0x09u8 & 3 == 1 && 0x09u8 & 0xFC == 0x08) by (bit_vector);
    assert(0xA1u8 & 3 == 1 && 0xA1u8 & 0xFC == 0xA0) by (bit_vector);
    assert(0x85u8 & 3 == 1 && 0x85u8 & 0xFC == 0x84) by (bit_vector);
    assert(0x15u8 & 3 == 1 && 0x15u8 & 0xFC == 0x14) by (bit_vector);
    assert(0x25u8 & 3 == 1 && 0x25u8 & 0xFC == 0x24) by (bit_vector);
    assert(0x75u8 & 3 == 1 && 0x75u8 & 0xFC == 0x74) by (bit_vector);
    assert(0x95u8 & 3 == 1 && 0x95u8 & 0xFC == 0x94) by (bit_vector);
    assert(0x81u8 & 3 == 1 && 0x81u8 & 0xFC == 0x80) by (bit_vector);
    assert(0xC0u8 & 3 == 0 && 0xC0u8 & 0xFC == 0xC0) by (bit_vector);
    reveal_with_fuel(le_range, 3);
    reveal_with_fuel(scan_from, 25);
    let s = descriptor_bytes();
    let r = parse_spec(s);
    assert(r is Ok);
    assert(r->Ok_0 =~= seq![
        InputField {
            usage_page: CONSUMER_PAGE,
            report_id: Some(MEDIA_KEYS_REPORT_ID as u32),
            report_size: 1,
            report_count: 8,
            usage_count: 8,
        },
    ]);
}

/// Reads the prefix's size bits as a byte count.
fn item_data_size(prefix: u8) -> (n: usize)
    ensures
        n == item_data_len(prefix),
        n <= 4,
{
    let sz = prefix & 3;
    proof {
        assert(prefix & 3 <= 3) by (bit_vector);
    }
    if sz == 3 {
        4
    } else {
        sz as usize
    }
}

/// Reads the little-endian item value of `n` data bytes at `lo`.
fn read_item_value(bytes: &Vec<u8>, lo: usize, n: usize) -> (r: u32)
    requires
        n == 0 || n == 1 || n == 2 || n == 4,
        lo + n <= bytes@.len(),
    ensures
        r == le_range(bytes@, lo as nat, (lo + n) as nat),
{
    proof {
        reveal_with_fuel(le_range, 5);
    }
    let blen: usize = bytes.len();
    assert(lo + n <= blen);
    if n == 0 {
        0
    } else if n == 1 {
        bytes[lo] as u32
    } else if n == 2 {
        bytes[lo] as u32 + 256 * (bytes[lo + 1] as u32)
    } else {
        bytes[lo] as u32 + 256 * (bytes[lo + 1] as u32) + 65536 * (bytes[lo + 2] as u32)
            + 16777216 * (bytes[lo + 3] as u32)
    }
}

/// Applies one item to the running state and field list.
fn apply_item_step(st: ScanState, tag: u8, data: u32, fields: &mut Vec<InputField>) -> (r:
    ScanState)
    requires
        !(tag == TAG_END_COLLECTION && st.depth == 0),
    ensures
        (r, final(fields)@) == apply_item(st, tag, data, old(fields)@),
{
    if tag == TAG_USAGE_PAGE {
        ScanState { usage_page: data, ..st }
    } else if tag == TAG_REPORT_ID {
        ScanState { report_id: Some(data), ..st }
    } else if tag == TAG_REPORT_SIZE {
        ScanState { report_size: data, ..st }
    } else if tag == TAG_REPORT_COUNT {
        ScanState { report_count: data, ..st }
    } else if tag == TAG_USAGE {
        ScanState { usage_count: st.usage_count.saturating_add(1), ..st }
    } else if tag == TAG_INPUT {
        let field = InputField {
            usage_page: st.usage_page,
            report_id: st.report_id,
            report_size: st.report_size,
            report_count: st.report_count,
            usage_count: st.usage_count,
        };
        fields.push(field);
        proof {
            assert(fields@ =~= old(fields)@ + seq![field]);
        }
        ScanState { usage_count: 0, ..st }
    } else if tag == TAG_COLLECTION {
        ScanState { depth: st.depth.saturating_add(1), usage_count: 0, ..st }
    } else if tag == TAG_END_COLLECTION {
        ScanState { depth: st.depth - 1, usage_count: 0, ..st }
    } else if tag & 0x0C == 0 {
        ScanState { usage_count: 0, ..st }
    } else {
        st
    }
}

/// Parses a HID short-item report descriptor: returns the input
/// reports it declares, in order, exactly as `parse_spec` reads the
/// bytes, or the first fault found.
pub fn parse_report_descriptor(bytes: &Vec<u8>) -> (r: Result<Vec<InputField>, DescriptorError>)
    ensures
        match parse_spec(bytes@) {
            Ok(spec_fields) => r matches Ok(v) && v@ == spec_fields,
            Err(e) => r matches Err(e2) && e2 == e,
        },
{
    let ghost s = bytes@;
    let mut i: usize = 0;
    let mut st = ScanState::initial();
    let mut fields: Vec<InputField> = Vec::new();
    while i < bytes.len()
        invariant
            i <= s.len(),
            s == bytes@,
            parse_spec(s) == scan_from(s, i as nat, st, fields@),
        decreases s.len() - i,
    {
        let prefix = bytes[i];
        if prefix == LONG_ITEM_PREFIX {
            assert(scan_from(s, i as nat, st, fields@) == Err::<Seq<InputField>, _>(
                DescriptorError::LongItem,
            ));
            return Err(DescriptorError::LongItem);
        }
        let n = item_data_size(prefix);
        if n >= bytes.len() - i {
            assert(i + 1 + item_data_len(prefix) > s.len());
            assert(scan_from(s, i as nat, st, fields@) == Err::<Seq<InputField>, _>(
                DescriptorError::TruncatedItem,
            ));
            return Err(DescriptorError::TruncatedItem);
        }
        let tag = prefix & 0xFC;
        if tag == TAG_END_COLLECTION && st.depth == 0 {
            assert(scan_from(s, i as nat, st, fields@) == Err::<Seq<InputField>, _>(
                DescriptorError::UnbalancedEndCollection,
            ));
            return Err(DescriptorError::UnbalancedEndCollection);
        }
        let data = read_item_value(bytes, i + 1, n);
        proof {
            lemma_le_range_fits(s, i as nat + 1, i as nat + 1 + n as nat);
        }
        let ghost st_before = st;
        let ghost fields_before = fields@;
        st = apply_item_step(st, tag, data, &mut fields);
        proof {
            let (st2, acc2) = apply_item(st_before, tag, data, fields_before);
            assert(st == st2 && fields@ == acc2);
            assert(scan_from(s, i as nat, st_before, fields_before) == scan_from(
                s,
                i as nat + 1 + n as nat,
                st2,
                acc2,
            ));
        }
        i = i + 1 + n;
    }
    if st.depth == 0 {
        assert(scan_from(s, i as nat, st, fields@) == Ok::<_, DescriptorError>(fields@));
        Ok(fields)
    } else {
        assert(scan_from(s, i as nat, st, fields@) == Err::<Seq<InputField>, _>(
            DescriptorError::UnclosedCollection,
        ));
        Err(DescriptorError::UnclosedCollection)
    }
}

} // verus!
