//! Linux input events and the byte records that are written to a uinput
//! device to emit them.
use vstd::prelude::*;

verus! {

/// Event type `EV_SYN`: synchronisation events.
pub const EV_SYN: u16 = 0x00;
/// Event code `SYN_REPORT`: closes a report of events.
pub const SYN_REPORT: u16 = 0x00;
/// Event type `EV_ABS`: absolute axes (the compressors).
pub const EV_ABS: u16 = 0x03;
/// Event type `EV_SW`: switches (the vintage toggles).
pub const EV_SW: u16 = 0x05;
/// Axis `ABS_X`: compressor of input 1.
pub const ABS_X: u16 = 0x00;
/// Axis `ABS_Y`: compressor of input 2.
pub const ABS_Y: u16 = 0x01;
/// Switch slot 0: vintage of input 1.
pub const SW_VINTAGE_1: u16 = 0x00;
/// Switch slot 1: vintage of input 2.
pub const SW_VINTAGE_2: u16 = 0x01;
/// Bytes of a `struct input_event` after its timestamp: the type and the
/// code (two bytes each) and the value (four).
pub const EVENT_FIELDS_SIZE: usize = 8;

/// The order in which the bytes of a number are laid out in memory.
#[derive(Debug, Clone, Copy, PartialEq, Eq, Structural)]
pub enum ByteOrder {
    /// Least significant byte first.
    Little,
    /// Most significant byte first.
    Big,
}

/// How the target lays out a `struct input_event`: the size of its
/// `struct timeval` timestamp and the byte order of its numbers.
#[derive(Debug, Clone, Copy, PartialEq, Eq, Structural)]
pub struct RecordLayout {
    pub time_size: usize,
    pub order: ByteOrder,
}

/// An input event: its type (`kind`), its code and its value.
#[derive(Debug, Clone, Copy, PartialEq, Eq, Structural)]
pub struct InputEvent {
    pub kind: u16,
    pub code: u16,
    pub value: i32,
}

/// The two bytes of `x`, least significant first.
pub open spec fn le_u16(x: u16) -> Seq<u8> {
    seq![(x % 256) as u8, (x / 256) as u8]
}

/// The four bytes of `x`, least significant first.
pub open spec fn le_u32(x: u32) -> Seq<u8> {
    seq![
        (x % 256) as u8,
        ((x / 256) % 256) as u8,
        ((x / 65536) % 256) as u8,
        (x / 16777216) as u8,
    ]
}

/// The bytes of `x` in `order`.
pub open spec fn u16_bytes(x: u16, order: ByteOrder) -> Seq<u8> {
    match order {
        ByteOrder::Little => le_u16(x),
        ByteOrder::Big => le_u16(x).reverse(),
    }
}

/// The bytes of `x` in `order`.
pub open spec fn u32_bytes(x: u32, order: ByteOrder) -> Seq<u8> {
    match order {
        ByteOrder::Little => le_u32(x),
        ByteOrder::Big => le_u32(x).reverse(),
    }
}

/// The bytes of `x` in two's complement, in `order`.
pub open spec fn i32_bytes(x: i32, order: ByteOrder) -> Seq<u8> {
    u32_bytes(x as u32, order)
}

/// The number that two bytes in `order` stand for.
pub open spec fn read_u16(s: Seq<u8>, order: ByteOrder) -> int {
    match order {
        ByteOrder::Little => s[0] + 256 * s[1],
        ByteOrder::Big => 256 * s[0] + s[1],
    }
}

/// The number that four bytes in `order` stand for.
pub open spec fn read_u32(s: Seq<u8>, order: ByteOrder) -> int {
    match order {
        ByteOrder::Little => s[0] + 256 * s[1] + 65536 * s[2] + 16777216 * s[3],
        ByteOrder::Big => 16777216 * s[0] + 65536 * s[1] + 256 * s[2] + s[3],
    }
}

/// `n` zero bytes.
pub open spec fn zeros(n: nat) -> Seq<u8> {
    Seq::new(n, |i: int| 0u8)
}

/// The `struct input_event` record of `ev` as the target lays it out: a
/// zero timestamp of `layout.time_size` bytes (the kernel sets its own),
/// then the type, the code and the value in `layout.order`.
pub open spec fn event_record(ev: InputEvent, layout: RecordLayout) -> Seq<u8> {
    zeros(layout.time_size as nat) + u16_bytes(ev.kind, layout.order) + u16_bytes(
        ev.code,
        layout.order,
    ) + i32_bytes(ev.value, layout.order)
}

/// The `EV_SYN` / `SYN_REPORT` event that closes a report.
pub open spec fn sync_event() -> InputEvent {
    InputEvent { kind: EV_SYN, code: SYN_REPORT, value: 0 }
}

/// Appends the bytes of `x` in `order`.
pub fn push_u16(out: &mut Vec<u8>, x: u16, order: ByteOrder)
    ensures
        final(out)@ == old(out)@ + u16_bytes(x, order),
{
    let lo = (x % 256) as u8;
    let hi = (x / 256) as u8;
    match order {
        ByteOrder::Little => {
            out.push(lo);
            out.push(hi);
        },
        ByteOrder::Big => {
            out.push(hi);
            out.push(lo);
        },
    }
    assert(final(out)@ =~= old(out)@ + u16_bytes(x, order));
}

/// Appends the bytes of `x` in `order`.
pub fn push_u32(out: &mut Vec<u8>, x: u32, order: ByteOrder)
    ensures
        final(out)@ == old(out)@ + u32_bytes(x, order),
{
    let b0 = (x % 256) as u8;
    let b1 = ((x / 256) % 256) as u8;
    let b2 = ((x / 65536) % 256) as u8;
    let b3 = (x / 16777216) as u8;
    match order {
        ByteOrder::Little => {
            out.push(b0);
            out.push(b1);
            out.push(b2);
            out.push(b3);
        },
        ByteOrder::Big => {
            out.push(b3);
            out.push(b2);
            out.push(b1);
            out.push(b0);
        },
    }
    assert(final(out)@ =~= old(out)@ + u32_bytes(x, order));
}

/// Appends the bytes of `x` in two's complement, in `order`.
pub fn push_i32(out: &mut Vec<u8>, x: i32, order: ByteOrder)
    ensures
        final(out)@ == old(out)@ + i32_bytes(x, order),
{
    push_u32(out, x as u32, order);
}

/// The bytes to write to a uinput device to emit `ev` on a target whose
/// `struct input_event` has `layout`.
pub fn encode_event(ev: &InputEvent, layout: RecordLayout) -> (bytes: Vec<u8>)
    ensures
        bytes@ == event_record(*ev, layout),
        bytes@.len() == layout.time_size + EVENT_FIELDS_SIZE,
{
    let mut bytes: Vec<u8> = Vec::new();
    let mut i: usize = 0;
    while i < layout.time_size
        invariant
            i <= layout.time_size,
            bytes@ == zeros(i as nat),
        decreases layout.time_size - i,
    {
        bytes.push(0);
        i = i + 1;
        assert(bytes@ =~= zeros(i as nat));
    }
    push_u16(&mut bytes, ev.kind, layout.order);
    push_u16(&mut bytes, ev.code, layout.order);
    push_i32(&mut bytes, ev.value, layout.order);
    bytes
}

/// The two records that emit one event: the event of type `kind`, code
/// `code` and value `value`, then the `SYN_REPORT` that makes the kernel
/// deliver it.
pub fn event_records(kind: u16, code: u16, value: i32, layout: RecordLayout) -> (records: (
    Vec<u8>,
    Vec<u8>,
))
    ensures
        records.0@ == event_record(InputEvent { kind, code, value }, layout),
        records.1@ == event_record(sync_event(), layout),
{
    let ev = InputEvent { kind, code, value };
    let syn = InputEvent { kind: EV_SYN, code: SYN_REPORT, value: 0 };
    (encode_event(&ev, layout), encode_event(&syn, layout))
}

/// Both orders lay out a number so that it reads back as itself.
pub proof fn law_bytes_read_back(x: u16, y: u32, order: ByteOrder)
    ensures
        u16_bytes(x, order).len() == 2,
        u32_bytes(y, order).len() == 4,
        read_u16(u16_bytes(x, order), order) == x,
        read_u32(u32_bytes(y, order), order) == y,
{
    assert(y == (y % 256) + 256 * ((y / 256) % 256) + 65536 * ((y / 65536) % 256) + 16777216 * (
    y / 16777216)) by (nonlinear_arith);
}

/// A record carries its event where the kernel reads it: a zero timestamp
/// of `layout.time_size` bytes, then the type, the code and the value
/// (two's complement), each in the target's byte order.
pub proof fn law_event_record_fields(ev: InputEvent, layout: RecordLayout)
    ensures
        event_record(ev, layout).len() == layout.time_size + EVENT_FIELDS_SIZE,
        forall|i: int| 0 <= i < layout.time_size ==> event_record(ev, layout)[i] == 0,
        read_u16(event_record(ev, layout).subrange(fields_offset(layout), fields_offset(layout) + 2), layout.order)
            == ev.kind,
        read_u16(event_record(ev, layout).subrange(fields_offset(layout) + 2, fields_offset(layout) + 4), layout.order)
            == ev.code,
        (read_u32(event_record(ev, layout).subrange(fields_offset(layout) + 4, fields_offset(layout) + 8), layout.order) as u32) as i32
            == ev.value,
{
    let r = event_record(ev, layout);
    let u = ev.value as u32;
    let o = layout.order;
    let t = fields_offset(layout);
    assert(r.subrange(t, t + 2) =~= u16_bytes(ev.kind, o));
    assert(r.subrange(t + 2, t + 4) =~= u16_bytes(ev.code, o));
    assert(r.subrange(t + 4, t + 8) =~= u32_bytes(u, o));
    law_bytes_read_back(ev.kind, u, o);
    law_bytes_read_back(ev.code, u, o);
    let v = ev.value;
    assert((v as u32) as i32 == v) by (bit_vector);
}

/// Offset of the type field in a record of `layout`.
pub open spec fn fields_offset(layout: RecordLayout) -> int {
    layout.time_size as int
}

} // verus!
