//! The chain of diagnostic records that ends a status packet.
//!
//! A record is a length byte, a kind byte and a payload. The length counts
//! the whole record, its own byte and the kind byte included, so the
//! shortest record has length 2. Records follow one another without
//! padding until the bytes run out.

use vstd::prelude::*;
use crate::wire::{be_u16, be_u32, be_u64, read_be_u16, read_be_u32, read_be_u64};

verus! {

/// Kind byte of a joystick output record.
pub const KIND_JOYSTICK: u8 = 0x01;

/// Kind byte of a disk record.
pub const KIND_DISK: u8 = 0x04;

/// Kind byte of a processor load record.
pub const KIND_CPU: u8 = 0x05;

/// Kind byte of a memory record.
pub const KIND_RAM: u8 = 0x06;

/// Kind byte of a power distribution record.
pub const KIND_PDP: u8 = 0x08;

/// Kind byte of a CAN bus record.
pub const KIND_CAN: u8 = 0x0e;

/// Rumble and output state echoed for the joysticks.
#[derive(Clone, Copy, Debug, PartialEq, Eq, Structural)]
pub struct JoystickOutput {
    pub joysticks: u32,
    pub left_rumble: u16,
    pub right_rumble: u16,
}

/// Free space on the controller's disk.
#[derive(Clone, Copy, Debug, PartialEq, Eq, Structural)]
pub struct DiskInfo {
    pub bytes_available: u32,
}

/// Processor load. Each field is the bit pattern of an IEEE 754
/// single-precision number, as it came off the wire.
#[derive(Clone, Copy, Debug, PartialEq, Eq, Structural)]
pub struct CpuInfo {
    pub cpu_count: u32,
    pub cpu_time_critical_per: u32,
    pub cpu_above_normal_per: u32,
    pub cpu_normal_per: u32,
    pub cpu_low_per: u32,
}

/// Memory of the controller.
#[derive(Clone, Copy, Debug, PartialEq, Eq, Structural)]
pub struct RamInfo {
    pub block: u32,
    pub free_space: u32,
}

/// Raw log of the power distribution board.
#[derive(Clone, Copy, Debug, PartialEq, Eq, Structural)]
pub struct PdpLog {
    pub unknown: u8,
    pub pdp_stats_1: u64,
    pub pdp_stats_2: u64,
    pub pdp_stats_3: u32,
    pub pdp_stats_4: u8,
    pub unknown_2: u16,
    pub unknown_3: u8,
}

/// A record of a kind this library does not know. Only its length is kept,
/// which is all that is needed to step over it.
#[derive(Clone, Copy, Debug, PartialEq, Eq, Structural)]
pub struct UnknownTag {
    pub size: u8,
}

/// Load and error counters of the CAN bus. `utilization` is the bit pattern
/// of an IEEE 754 single-precision number.
#[derive(Clone, Copy, Debug, PartialEq, Eq, Structural)]
pub struct CanMetrics {
    pub utilization: u32,
    pub bus_off: u32,
    pub tx_full: u32,
    pub rx_errors: u8,
    pub tx_errors: u8,
}

/// One record of the chain.
#[derive(Clone, Copy, Debug, PartialEq, Eq, Structural)]
pub enum FromRioTag {
    Joystick(JoystickOutput),
    Disk(DiskInfo),
    Cpu(CpuInfo),
    Ram(RamInfo),
    Pdp(PdpLog),
    Can(CanMetrics),
    Unknown(UnknownTag),
}

/// Where and why the reading of a chain stopped early.
#[derive(Clone, Debug, PartialEq, Eq)]
pub struct TruncatedRecord {
    /// The records read before the faulty one, in order.
    pub parsed: Vec<FromRioTag>,
    /// Offset of the length byte of the faulty record.
    pub offset: usize,
}

/// Whether `kind` is a kind of record with a known layout.
pub open spec fn known_kind(kind: u8) -> bool {
    kind == KIND_JOYSTICK || kind == KIND_DISK || kind == KIND_CPU || kind == KIND_RAM || kind
        == KIND_PDP || kind == KIND_CAN
}

/// Length of the shortest record of kind `kind` that holds all its fields.
pub open spec fn min_record_len(kind: u8) -> int {
    if kind == KIND_JOYSTICK {
        10
    } else if kind == KIND_DISK {
        6
    } else if kind == KIND_CPU {
        22
    } else if kind == KIND_RAM {
        10
    } else if kind == KIND_PDP {
        27
    } else if kind == KIND_CAN {
        16
    } else {
        2
    }
}

/// Whether `s` begins with a whole record: its length byte and kind byte
/// are there, the length is at least 2 and no more than `s` has, and it
/// leaves room for every field of the kind.
pub open spec fn record_at_front(s: Seq<u8>) -> bool {
    &&& 2 <= s.len()
    &&& 2 <= s[0] <= s.len()
    &&& min_record_len(s[1]) <= s[0]
}

/// What is kept of a record of an unknown kind and of length `size`.
pub open spec fn unknown_record(size: u8) -> FromRioTag {
    FromRioTag::Unknown(UnknownTag { size })
}

/// The record that `s` begins with.
pub open spec fn record_of(s: Seq<u8>) -> FromRioTag {
    let kind = s[1];
    if kind == KIND_JOYSTICK {
        FromRioTag::Joystick(
            JoystickOutput {
                joysticks: be_u32(s, 2),
                left_rumble: be_u16(s, 6),
                right_rumble: be_u16(s, 8),
            },
        )
    } else if kind == KIND_DISK {
        FromRioTag::Disk(DiskInfo { bytes_available: be_u32(s, 2) })
    } else if kind == KIND_CPU {
        FromRioTag::Cpu(
            CpuInfo {
                cpu_count: be_u32(s, 2),
                cpu_time_critical_per: be_u32(s, 6),
                cpu_above_normal_per: be_u32(s, 10),
                cpu_normal_per: be_u32(s, 14),
                cpu_low_per: be_u32(s, 18),
            },
        )
    } else if kind == KIND_RAM {
        FromRioTag::Ram(RamInfo { block: be_u32(s, 2), free_space: be_u32(s, 6) })
    } else if kind == KIND_PDP {
        FromRioTag::Pdp(
            PdpLog {
                unknown: s[2],
                pdp_stats_1: be_u64(s, 3),
                pdp_stats_2: be_u64(s, 11),
                pdp_stats_3: be_u32(s, 19),
                pdp_stats_4: s[23],
                unknown_2: be_u16(s, 24),
                unknown_3: s[26],
            },
        )
    } else if kind == KIND_CAN {
        FromRioTag::Can(
            CanMetrics {
                utilization: be_u32(s, 2),
                bus_off: be_u32(s, 6),
                tx_full: be_u32(s, 10),
                rx_errors: s[14],
                tx_errors: s[15],
            },
        )
    } else {
        unknown_record(s[0])
    }
}

/// The records of the chain `s`, in order, up to its end or to the first
/// place where no whole record stands.
pub open spec fn chain_records(s: Seq<u8>) -> Seq<FromRioTag>
    decreases s.len(),
{
    if record_at_front(s) {
        seq![record_of(s)] + chain_records(s.skip(s[0] as int))
    } else {
        Seq::empty()
    }
}

/// The number of bytes that the records of `chain_records(s)` take up.
pub open spec fn chain_consumed(s: Seq<u8>) -> nat
    decreases s.len(),
{
    if record_at_front(s) {
        s[0] as nat + chain_consumed(s.skip(s[0] as int))
    } else {
        0
    }
}

/// Whether `s` is made of whole records from its first byte to its last.
pub open spec fn chain_complete(s: Seq<u8>) -> bool {
    chain_consumed(s) == s.len()
}

/// Length of the shortest record of kind `kind` that holds all its fields.
pub fn shortest_record(kind: u8) -> (len: u8)
    ensures
        len == min_record_len(kind),
{
    match kind {
        KIND_JOYSTICK => 10,
        KIND_DISK => 6,
        KIND_CPU => 22,
        KIND_RAM => 10,
        KIND_PDP => 27,
        KIND_CAN => 16,
        _ => 2,
    }
}

/// Reads the record whose length byte is `bytes[at]`, if a whole record
/// stands there.
pub fn read_record(bytes: &[u8], at: usize) -> (tag: Option<FromRioTag>)
    requires
        at <= bytes.len(),
    ensures
        tag is Some <==> record_at_front(bytes@.skip(at as int)),
        tag is Some ==> tag->0 == record_of(bytes@.skip(at as int)),
{
    let left = bytes.len() - at;
    if left < 2 {
        return None;
    }
    let size = bytes[at];
    let kind = bytes[at + 1];
    if size < 2 || size as usize > left {
        return None;
    }
    if size < shortest_record(kind) {
        return None;
    }
    let tag = match kind {
        KIND_JOYSTICK => FromRioTag::Joystick(
            JoystickOutput {
                joysticks: read_be_u32(bytes, at + 2),
                left_rumble: read_be_u16(bytes, at + 6),
                right_rumble: read_be_u16(bytes, at + 8),
            },
        ),
        KIND_DISK => FromRioTag::Disk(DiskInfo { bytes_available: read_be_u32(bytes, at + 2) }),
        KIND_CPU => FromRioTag::Cpu(
            CpuInfo {
                cpu_count: read_be_u32(bytes, at + 2),
                cpu_time_critical_per: read_be_u32(bytes, at + 6),
                cpu_above_normal_per: read_be_u32(bytes, at + 10),
                cpu_normal_per: read_be_u32(bytes, at + 14),
                cpu_low_per: read_be_u32(bytes, at + 18),
            },
        ),
        KIND_RAM => FromRioTag::Ram(
            RamInfo { block: read_be_u32(bytes, at + 2), free_space: read_be_u32(bytes, at + 6) },
        ),
        KIND_PDP => FromRioTag::Pdp(
            PdpLog {
                unknown: bytes[at + 2],
                pdp_stats_1: read_be_u64(bytes, at + 3),
                pdp_stats_2: read_be_u64(bytes, at + 11),
                pdp_stats_3: read_be_u32(bytes, at + 19),
                pdp_stats_4: bytes[at + 23],
                unknown_2: read_be_u16(bytes, at + 24),
                unknown_3: bytes[at + 26],
            },
        ),
        KIND_CAN => FromRioTag::Can(
            CanMetrics {
                utilization: read_be_u32(bytes, at + 2),
                bus_off: read_be_u32(bytes, at + 6),
                tx_full: read_be_u32(bytes, at + 10),
                rx_errors: bytes[at + 14],
                tx_errors: bytes[at + 15],
            },
        ),
        _ => FromRioTag::Unknown(UnknownTag { size }),
    };
    Some(tag)
}

/// Reads a chain of records.
///
/// Returns the records in order when `bytes` is made of whole records from
/// end to end. Otherwise the error holds the records read before the first
/// place where no whole record stands, and the offset of that place. A
/// record is not whole when its length byte is below 2, when it is longer
/// than the bytes that are left, or when it is too short for the fields of
/// its kind. A record of an unknown kind is stepped over by its length.
pub fn parse_tags(bytes: &[u8]) -> (chain: Result<Vec<FromRioTag>, TruncatedRecord>)
    ensures
        chain is Ok <==> chain_complete(bytes@),
        chain matches Ok(tags) ==> tags@ == chain_records(bytes@),
        chain matches Err(stop) ==> stop.parsed@ == chain_records(bytes@),
        chain matches Err(stop) ==> stop.offset == chain_consumed(bytes@),
        chain matches Err(stop) ==> stop.offset < bytes@.len(),
{
    let mut tags: Vec<FromRioTag> = Vec::new();
    let mut cursor: usize = 0;
    assert(bytes@.skip(0) =~= bytes@);
    while cursor < bytes.len()
        invariant
            cursor <= bytes.len(),
            chain_records(bytes@) == tags@ + chain_records(bytes@.skip(cursor as int)),
            chain_consumed(bytes@) == cursor + chain_consumed(bytes@.skip(cursor as int)),
        decreases bytes.len() - cursor,
    {
        let ghost rest = bytes@.skip(cursor as int);
        match read_record(bytes, cursor) {
            Some(tag) => {
                let size = bytes[cursor];
                assert(rest.skip(size as int) =~= bytes@.skip(cursor + size));
                tags.push(tag);
                cursor = cursor + size as usize;
            },
            None => {
                return Err(TruncatedRecord { parsed: tags, offset: cursor });
            },
        }
    }
    Ok(tags)
}

/// Whether `r` is exactly one record: a whole record stands at its front
/// and takes up all of it.
pub open spec fn whole_record(r: Seq<u8>) -> bool {
    record_at_front(r) && r[0] == r.len()
}

/// The bytes of `records` laid end to end.
pub open spec fn concat_records(records: Seq<Seq<u8>>) -> Seq<u8>
    decreases records.len(),
{
    if records.len() == 0 {
        Seq::empty()
    } else {
        records[0] + concat_records(records.drop_first())
    }
}

/// A record at the front of a chain is read the same whatever follows it.
pub proof fn lemma_record_then_rest(record: Seq<u8>, rest: Seq<u8>)
    requires
        whole_record(record),
    ensures
        record_at_front(record + rest),
        record_of(record + rest) == record_of(record),
        chain_records(record + rest) == seq![record_of(record)] + chain_records(rest),
        chain_consumed(record + rest) == record.len() + chain_consumed(rest),
        chain_complete(record + rest) == chain_complete(rest),
{
    let s = record + rest;
    assert(s.skip(s[0] as int) =~= rest);
}

/// Whole records laid end to end are read back one for one and in order,
/// and reading goes on into whatever follows them.
pub proof fn lemma_records_then_rest(records: Seq<Seq<u8>>, rest: Seq<u8>)
    requires
        forall|i: int| 0 <= i < records.len() ==> whole_record(#[trigger] records[i]),
    ensures
        chain_records(concat_records(records) + rest) == records.map_values(
            |r: Seq<u8>| record_of(r),
        ) + chain_records(rest),
        chain_consumed(concat_records(records) + rest) == concat_records(records).len()
            + chain_consumed(rest),
        chain_complete(concat_records(records) + rest) == chain_complete(rest),
    decreases records.len(),
{
    if records.len() > 0 {
        let decoded = records.map_values(|r: Seq<u8>| record_of(r));
        let first = records[0];
        let others = records.drop_first();
        let tail = concat_records(others) + rest;
        assert forall|i: int| 0 <= i < others.len() implies whole_record(
            #[trigger] others[i],
        ) by {
            assert(others[i] == records[i + 1]);
        }
        lemma_records_then_rest(others, rest);
        lemma_record_then_rest(first, tail);
        assert(concat_records(records) + rest =~= first + tail);
        let decoded_others = others.map_values(|r: Seq<u8>| record_of(r));
        assert(seq![record_of(first)] + (decoded_others + chain_records(rest)) =~= decoded
            + chain_records(rest));
    }
}

/// A chain made of whole records and nothing else is read to its last
/// byte, and gives one record for each of them, in their order.
pub proof fn lemma_whole_records_parse(records: Seq<Seq<u8>>)
    requires
        forall|i: int| 0 <= i < records.len() ==> whole_record(#[trigger] records[i]),
    ensures
        chain_complete(concat_records(records)),
        chain_consumed(concat_records(records)) == concat_records(records).len(),
        chain_records(concat_records(records)) == records.map_values(|r: Seq<u8>| record_of(r)),
{
    lemma_records_then_rest(records, Seq::empty());
}

/// When bytes that begin with no whole record follow some whole records,
/// the chain is not complete, reading stops where those bytes begin, and
/// the records before them are all kept.
pub proof fn lemma_truncated_chain_keeps_records(records: Seq<Seq<u8>>, rest: Seq<u8>)
    requires
        forall|i: int| 0 <= i < records.len() ==> whole_record(#[trigger] records[i]),
        rest.len() > 0,
        !record_at_front(rest),
    ensures
        !chain_complete(concat_records(records) + rest),
        chain_consumed(concat_records(records) + rest) == concat_records(records).len(),
        chain_records(concat_records(records) + rest) == records.map_values(
            |r: Seq<u8>| record_of(r),
        ),
{
    lemma_records_then_rest(records, rest);
}

/// A record of an unknown kind is stepped over by its length, whatever its
/// payload holds: it gives an `Unknown` record of that length, and reading
/// goes on behind it as if the chain began there.
pub proof fn lemma_unknown_kind_skipped(record: Seq<u8>, rest: Seq<u8>)
    requires
        2 <= record.len(),
        record[0] == record.len(),
        !known_kind(record[1]),
    ensures
        chain_records(record + rest) == seq![unknown_record(record[0])] + chain_records(rest),
        chain_consumed(record + rest) == record.len() + chain_consumed(rest),
        chain_complete(record + rest) == chain_complete(rest),
{
    lemma_record_then_rest(record, rest);
}

/// The reading of a chain never goes past its end.
pub proof fn lemma_consumed_within(s: Seq<u8>)
    ensures
        chain_consumed(s) <= s.len(),
    decreases s.len(),
{
    if record_at_front(s) {
        lemma_consumed_within(s.skip(s[0] as int));
    }
}


} // verus!
