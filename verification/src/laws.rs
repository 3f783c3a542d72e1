//! Properties that tie the report decoding, the input events and the
//! device setup together.
use vstd::prelude::*;

use crate::event::{
    event_record, i32_bytes, law_bytes_read_back, read_u16, read_u32, sync_event, u16_bytes,
    u32_bytes, zeros, ByteOrder, InputEvent, RecordLayout, EV_ABS, EV_SW,
};
use crate::protocol::{bit_of, compressor_codes};
use crate::report::{compressor_controls, report_controls, ControlEvent, Input};
use crate::uinput::{
    abs_setup_bytes, device_name, device_setup_bytes, device_setup_plan, io, ioc_dir, ioc_size, iow,
    ArgModel, RequestModel, ABS_SETUP_SIZE, AXIS_MAX, AXIS_MIN, DEV_SETUP_SIZE, UINPUT_IOCTL_BASE,
    UI_ABS_SETUP, UI_DEV_CREATE, UI_DEV_DESTROY, UI_DEV_SETUP, UI_SET_ABSBIT, UI_SET_EVBIT,
    UI_SET_SWBIT,
};

verus! {

/// Each request number is the one that the Linux macros build from the
/// uinput type `'U'`, the request's number and the size of its argument:
/// `_IOW('U', 100, int)`, `_IOW('U', 103, int)`, `_IOW('U', 109, int)`,
/// `_IO('U', 1)`, `_IO('U', 2)`, `_IOW('U', 3, struct uinput_setup)`,
/// `_IOW('U', 4, struct uinput_abs_setup)`.
pub proof fn law_request_numbers()
    ensures
        UI_SET_EVBIT == iow(UINPUT_IOCTL_BASE as int, 100, 4),
        UI_SET_ABSBIT == iow(UINPUT_IOCTL_BASE as int, 103, 4),
        UI_SET_SWBIT == iow(UINPUT_IOCTL_BASE as int, 109, 4),
        UI_DEV_CREATE == io(UINPUT_IOCTL_BASE as int, 1),
        UI_DEV_DESTROY == io(UINPUT_IOCTL_BASE as int, 2),
        UI_DEV_SETUP == iow(UINPUT_IOCTL_BASE as int, 3, DEV_SETUP_SIZE as int),
        UI_ABS_SETUP == iow(UINPUT_IOCTL_BASE as int, 4, ABS_SETUP_SIZE as int),
{
}

/// Every request of the setup passes the kernel exactly the argument that
/// its number announces: an `int` (4 bytes) for a write request of size 4,
/// a struct whose bytes are as many as the size field says, nothing for a
/// request without direction.
pub proof fn law_setup_argument_sizes(order: ByteOrder, i: int)
    requires
        0 <= i < device_setup_plan(order).len(),
    ensures
        ({
            let r = device_setup_plan(order)[i];
            match r.arg {
                ArgModel::Nothing => ioc_dir(r.number as int) == 0 && ioc_size(r.number as int) == 0,
                ArgModel::Int(_) => ioc_dir(r.number as int) == 1 && ioc_size(r.number as int) == 4,
                ArgModel::Bytes(b) => ioc_dir(r.number as int) == 1 && ioc_size(r.number as int) == b.len(),
            }
        }),
{
}

/// The axis setup carries what the kernel reads from it: the axis code at
/// offset 0 and the range at offsets 8 (minimum) and 12 (maximum), in the
/// target's byte order.
pub proof fn law_abs_setup_fields(code: u16, minimum: i32, maximum: i32, order: ByteOrder)
    ensures
        abs_setup_bytes(code, minimum, maximum, order).len() == ABS_SETUP_SIZE,
        read_u16(abs_setup_bytes(code, minimum, maximum, order).subrange(0, 2), order) == code,
        (read_u32(abs_setup_bytes(code, minimum, maximum, order).subrange(8, 12), order) as u32) as i32
            == minimum,
        (read_u32(abs_setup_bytes(code, minimum, maximum, order).subrange(12, 16), order) as u32) as i32
            == maximum,
{
    let b = abs_setup_bytes(code, minimum, maximum, order);
    assert(b.subrange(0, 2) =~= u16_bytes(code, order));
    assert(b.subrange(8, 12) =~= i32_bytes(minimum, order));
    assert(b.subrange(12, 16) =~= i32_bytes(maximum, order));
    law_bytes_read_back(code, minimum as u32, order);
    law_bytes_read_back(code, maximum as u32, order);
    assert((minimum as u32) as i32 == minimum) by (bit_vector);
    assert((maximum as u32) as i32 == maximum) by (bit_vector);
}

/// Every input event that a report leads to has been enabled on the device
/// by its setup: its type by `UI_SET_EVBIT`, its axis by `UI_SET_ABSBIT` or
/// its switch by `UI_SET_SWBIT`.
pub proof fn law_reported_events_are_enabled(report: Seq<u8>, order: ByteOrder, i: int)
    requires
        0 <= i < report_controls(report).len(),
    ensures
        ({
            let ev = report_controls(report)[i].spec_input_event();
            &&& device_setup_plan(order).contains(
                RequestModel { number: UI_SET_EVBIT, arg: ArgModel::Int(ev.kind as i32) },
            )
            &&& ev.kind == EV_ABS ==> device_setup_plan(order).contains(
                RequestModel { number: UI_SET_ABSBIT, arg: ArgModel::Int(ev.code as i32) },
            )
            &&& ev.kind == EV_SW ==> device_setup_plan(order).contains(
                RequestModel { number: UI_SET_SWBIT, arg: ArgModel::Int(ev.code as i32) },
            )
            &&& (ev.kind == EV_ABS || ev.kind == EV_SW)
        }),
{
}

/// Every value that a report leads to lies in what the device declares:
/// a compressor value lies in the range that the setup gives its axis, a
/// vintage value is `0` or `1`.
pub proof fn law_reported_values_in_declared_range(report: Seq<u8>, order: ByteOrder, i: int)
    requires
        0 <= i < report_controls(report).len(),
    ensures
        ({
            let ev = report_controls(report)[i].spec_input_event();
            &&& ev.kind == EV_ABS ==> {
                &&& device_setup_plan(order).contains(
                    RequestModel {
                        number: UI_ABS_SETUP,
                        arg: ArgModel::Bytes(abs_setup_bytes(ev.code, AXIS_MIN, AXIS_MAX, order)),
                    },
                )
                &&& AXIS_MIN <= ev.value <= AXIS_MAX
            }
            &&& ev.kind == EV_SW ==> (ev.value == 0 || ev.value == 1)
        }),
{
}

/// Only the first four bytes of a report matter: two reports that carry the
/// control bytes and agree on their first four bytes give the same controls.
pub proof fn law_only_first_four_bytes_matter(r1: Seq<u8>, r2: Seq<u8>)
    requires
        r1.len() >= 4,
        r2.len() >= 4,
        r1.subrange(0, 4) == r2.subrange(0, 4),
    ensures
        report_controls(r1) == report_controls(r2),
{
    let head = r1.subrange(0, 4);
    assert(r1[0] == head[0] && r1[1] == head[1] && r1[2] == head[2] && r1[3] == head[3]);
    assert(r2[0] == head[0] && r2[1] == head[1] && r2[2] == head[2] && r2[3] == head[3]);
}

/// A control is in a concatenation of control lists exactly when it is in
/// one of them.
proof fn lemma_contains_concat(a: Seq<ControlEvent>, b: Seq<ControlEvent>, x: ControlEvent)
    ensures
        (a + b).contains(x) <==> a.contains(x) || b.contains(x),
{
    if (a + b).contains(x) {
        let i = choose|i: int| 0 <= i < (a + b).len() && (a + b)[i] == x;
        if i < a.len() {
            assert(a[i] == x);
        } else {
            assert(b[i - a.len()] == x);
        }
    }
    if a.contains(x) {
        let i = choose|i: int| 0 <= i < a.len() && a[i] == x;
        assert((a + b)[i] == x);
    }
    if b.contains(x) {
        let i = choose|i: int| 0 <= i < b.len() && b[i] == x;
        assert((a + b)[a.len() + i] == x);
    }
}

/// What a report with ID `0x02` gives for each control, read off its bytes:
/// a compressor event for input 1 with mode `m` exactly when byte 2 is the
/// byte of mode `m`, and for input 2 exactly when byte 3 is; a vintage event
/// for input 1 whose state is `1` when bit `0x40` of byte 1 is set and `0`
/// otherwise, and for input 2 the same with bit `0x80`.
pub proof fn law_report_gives_each_control(r: Seq<u8>, m: i32)
    requires
        r.len() >= 4,
        r[0] == 0x02,
    ensures
        report_controls(r).contains(ControlEvent::Compressor { input: Input::One, mode: m })
            <==> (0 <= m < 4 && compressor_codes()[m as int] == r[2]),
        report_controls(r).contains(ControlEvent::Compressor { input: Input::Two, mode: m })
            <==> (0 <= m < 4 && compressor_codes()[m as int] == r[3]),
        report_controls(r).contains(ControlEvent::Vintage { input: Input::One, on: m })
            <==> m == (if r[1] & 0x40u8 == 0x40u8 { 1i32 } else { 0i32 }),
        report_controls(r).contains(ControlEvent::Vintage { input: Input::Two, on: m })
            <==> m == (if r[1] & 0x80u8 == 0x80u8 { 1i32 } else { 0i32 }),
{
    let c1 = compressor_controls(r[2], Input::One);
    let c2 = compressor_controls(r[3], Input::Two);
    let v1 = ControlEvent::Vintage { input: Input::One, on: bit_of(r[1], 6) };
    let v2 = ControlEvent::Vintage { input: Input::Two, on: bit_of(r[1], 7) };
    let v = seq![v1, v2];
    assert(report_controls(r) == c1 + c2 + v);
    let b = r[1];
    vstd::arithmetic::power2::lemma2_to64();
    assert((b & 0x40u8 == 0x40u8) == ((b / 64) % 2 == 1)) by (bit_vector);
    assert((b & 0x80u8 == 0x80u8) == ((b / 128) % 2 == 1)) by (bit_vector);
    let codes = compressor_codes();
    assert(codes[0] == 0x02 && codes[1] == 0x11 && codes[2] == 0x09 && codes[3] == 0x05);
    let xs = seq![
        ControlEvent::Compressor { input: Input::One, mode: m },
        ControlEvent::Compressor { input: Input::Two, mode: m },
        ControlEvent::Vintage { input: Input::One, on: m },
        ControlEvent::Vintage { input: Input::Two, on: m },
    ];
    assert forall|k: int| 0 <= k < 4 implies #[trigger] report_controls(r).contains(xs[k])
        == (c1.contains(xs[k]) || c2.contains(xs[k]) || xs[k] == v1 || xs[k] == v2) by {
        lemma_contains_concat(c1 + c2, v, xs[k]);
        lemma_contains_concat(c1, c2, xs[k]);
        if v.contains(xs[k]) {
            let i = choose|i: int| 0 <= i < v.len() && v[i] == xs[k];
        } else {
            assert(v[0] == v1 && v[1] == v2);
        }
    }
    assert(report_controls(r).contains(xs[0]) == (c1.contains(xs[0]) || c2.contains(xs[0]) || xs[0] == v1 || xs[0] == v2));
    assert(report_controls(r).contains(xs[1]) == (c1.contains(xs[1]) || c2.contains(xs[1]) || xs[1] == v1 || xs[1] == v2));
    assert(report_controls(r).contains(xs[2]) == (c1.contains(xs[2]) || c2.contains(xs[2]) || xs[2] == v1 || xs[2] == v2));
    assert(report_controls(r).contains(xs[3]) == (c1.contains(xs[3]) || c2.contains(xs[3]) || xs[3] == v1 || xs[3] == v2));
    if c1.len() > 0 {
        assert(c1.contains(xs[0]) == (c1[0] == xs[0]));
    }
    if c2.len() > 0 {
        assert(c2.contains(xs[1]) == (c2[0] == xs[1]));
    }
}

/// The order of the controls of a report with ID `0x02`: the compressor of
/// input 1 first (when byte 2 is a known mode), then that of input 2 (when
/// byte 3 is), then the vintage switch of input 1, last that of input 2;
/// nothing else.
pub proof fn law_report_control_order(r: Seq<u8>)
    requires
        r.len() >= 4,
        r[0] == 0x02,
    ensures
        ({
            let c = report_controls(r);
            let n1: int = if compressor_codes().contains(r[2]) { 1 } else { 0 };
            let n2: int = if compressor_codes().contains(r[3]) { 1 } else { 0 };
            &&& c.len() == n1 + n2 + 2
            &&& n1 == 1 ==> (c[0] matches ControlEvent::Compressor { input: Input::One, .. })
            &&& n2 == 1 ==> (c[n1] matches ControlEvent::Compressor { input: Input::Two, .. })
            &&& (c[n1 + n2] matches ControlEvent::Vintage { input: Input::One, .. })
            &&& (c[n1 + n2 + 1] matches ControlEvent::Vintage { input: Input::Two, .. })
        }),
{
    crate::protocol::law_compressor_table(r[2], 0);
    crate::protocol::law_compressor_table(r[3], 0);
    let c1 = compressor_controls(r[2], Input::One);
    let c2 = compressor_controls(r[3], Input::Two);
    assert(report_controls(r) == c1 + c2 + seq![
        ControlEvent::Vintage { input: Input::One, on: bit_of(r[1], 6) },
        ControlEvent::Vintage { input: Input::Two, on: bit_of(r[1], 7) },
    ]);
}

/// A report whose ID is not `0x02` gives no control at all.
pub proof fn law_other_reports_give_nothing(r: Seq<u8>)
    requires
        r.len() >= 4,
        r[0] != 0x02,
    ensures
        report_controls(r).len() == 0,
{
}

/// The input event of a control carries its state unchanged: a compressor
/// goes to absolute axis (type 3) `ABS_X` (0) for input 1 or `ABS_Y` (1)
/// for input 2 with its mode as value; a vintage switch goes to switch
/// (type 5) slot 0 for input 1 or slot 1 for input 2 with its state as
/// value.
pub proof fn law_input_event_carries_state(input: Input, x: i32)
    ensures
        (ControlEvent::Compressor { input, mode: x }).spec_input_event() == (InputEvent {
            kind: 3,
            code: if input == Input::One { 0 } else { 1 },
            value: x,
        }),
        (ControlEvent::Vintage { input, on: x }).spec_input_event() == (InputEvent {
            kind: 5,
            code: if input == Input::One { 0 } else { 1 },
            value: x,
        }),
{
}

/// Apart from the axis code (bytes 0-1) and the range (bytes 8-15), every
/// byte of the axis setup is zero: no padding content, current value 0,
/// fuzz 0 (no noise filter), flat 0 (no dead zone), resolution 0.
pub proof fn law_abs_setup_rest_is_zero(code: u16, minimum: i32, maximum: i32, order: ByteOrder)
    ensures
        abs_setup_bytes(code, minimum, maximum, order).subrange(2, 8) == Seq::new(6, |i: int| 0u8),
        abs_setup_bytes(code, minimum, maximum, order).subrange(16, 28) == Seq::new(12, |i: int| 0u8),
{
    let b = abs_setup_bytes(code, minimum, maximum, order);
    assert(u16_bytes(0, order) =~= seq![0u8, 0u8]);
    assert(i32_bytes(0, order) =~= seq![0u8, 0u8, 0u8, 0u8]);
    assert(b.subrange(2, 8) =~= Seq::new(6, |i: int| 0u8));
    assert(b.subrange(16, 28) =~= Seq::new(12, |i: int| 0u8));
}

/// The device setup carries the identity of the Volt 276 where the kernel
/// reads it: bus type 3 (USB), vendor `0x2b5a`, product `0x0023`, version 1,
/// then the name "Volt 276 Controls" padded with zeros to 80 bytes, then 0
/// force-feedback effects.
pub proof fn law_device_setup_fields(order: ByteOrder)
    ensures
        device_setup_bytes(order).len() == 92,
        read_u16(device_setup_bytes(order).subrange(0, 2), order) == 3,
        read_u16(device_setup_bytes(order).subrange(2, 4), order) == 0x2b5a,
        read_u16(device_setup_bytes(order).subrange(4, 6), order) == 0x0023,
        read_u16(device_setup_bytes(order).subrange(6, 8), order) == 1,
        device_setup_bytes(order).subrange(8, 25) == seq![
            0x56u8, 0x6f, 0x6c, 0x74, 0x20, 0x32, 0x37, 0x36, 0x20,
            0x43, 0x6f, 0x6e, 0x74, 0x72, 0x6f, 0x6c, 0x73,
        ],
        device_setup_bytes(order).subrange(25, 92) == Seq::new(67, |i: int| 0u8),
{
    let b = device_setup_bytes(order);
    assert(b.subrange(0, 2) =~= u16_bytes(3, order));
    assert(b.subrange(2, 4) =~= u16_bytes(0x2b5a, order));
    assert(b.subrange(4, 6) =~= u16_bytes(0x0023, order));
    assert(b.subrange(6, 8) =~= u16_bytes(1, order));
    law_bytes_read_back(3, 0, order);
    law_bytes_read_back(0x2b5a, 0, order);
    law_bytes_read_back(0x0023, 0, order);
    law_bytes_read_back(1, 0, order);
    assert(b.subrange(8, 25) =~= device_name());
    assert(u32_bytes(0, order) =~= seq![0u8, 0u8, 0u8, 0u8]);
    assert(b.subrange(25, 92) =~= Seq::new(67, |i: int| 0u8));
}

/// The sync record that follows every event is all zeros: type 0
/// (`EV_SYN`), code 0 (`SYN_REPORT`), value 0, after the zero timestamp.
pub proof fn law_sync_record_is_zero(layout: RecordLayout)
    ensures
        event_record(sync_event(), layout) == Seq::new((layout.time_size + 8) as nat, |i: int| 0u8),
{
    assert(u16_bytes(0, layout.order) =~= seq![0u8, 0u8]);
    assert(u32_bytes(0, layout.order) =~= seq![0u8, 0u8, 0u8, 0u8]);
    assert(event_record(sync_event(), layout) =~= Seq::new(
        (layout.time_size + 8) as nat,
        |i: int| 0u8,
    ));
}

/// The setup enables exactly the event type `EV_ABS` (3) with axes 0 and 1
/// and the event type `EV_SW` (5) with switches 0 and 1; gives each of the
/// two axes the range 0..=3; passes the identity as its next-to-last
/// request; and creates the device once, as its last request, after all
/// the others.
pub proof fn law_setup_order(order: ByteOrder)
    ensures
        ({
            let plan = device_setup_plan(order);
            let n = plan.len() as int;
            &&& n == 10
            &&& plan[n - 1] == (RequestModel { number: 0x5501, arg: ArgModel::Nothing })
            &&& forall|i: int| 0 <= i < n - 1 ==> (#[trigger] plan[i]).number != 0x5501
            &&& plan[n - 2] == (RequestModel {
                number: 0x405c5503,
                arg: ArgModel::Bytes(device_setup_bytes(order)),
            })
            &&& forall|i: int| #![trigger plan[i]] 0 <= i < n ==> (plan[i].arg is Int <==> (
                plan[i] == (RequestModel { number: 0x40045564, arg: ArgModel::Int(3) })
                || plan[i] == (RequestModel { number: 0x40045567, arg: ArgModel::Int(0) })
                || plan[i] == (RequestModel { number: 0x40045567, arg: ArgModel::Int(1) })
                || plan[i] == (RequestModel { number: 0x40045564, arg: ArgModel::Int(5) })
                || plan[i] == (RequestModel { number: 0x4004556d, arg: ArgModel::Int(0) })
                || plan[i] == (RequestModel { number: 0x4004556d, arg: ArgModel::Int(1) })))
            &&& plan.contains(RequestModel { number: 0x40045564, arg: ArgModel::Int(3) })
            &&& plan.contains(RequestModel { number: 0x40045567, arg: ArgModel::Int(0) })
            &&& plan.contains(RequestModel { number: 0x40045567, arg: ArgModel::Int(1) })
            &&& plan.contains(RequestModel { number: 0x40045564, arg: ArgModel::Int(5) })
            &&& plan.contains(RequestModel { number: 0x4004556d, arg: ArgModel::Int(0) })
            &&& plan.contains(RequestModel { number: 0x4004556d, arg: ArgModel::Int(1) })
            &&& plan.contains(RequestModel {
                number: 0x401c5504,
                arg: ArgModel::Bytes(abs_setup_bytes(0, 0, 3, order)),
            })
            &&& plan.contains(RequestModel {
                number: 0x401c5504,
                arg: ArgModel::Bytes(abs_setup_bytes(1, 0, 3, order)),
            })
        }),
{
    let plan = device_setup_plan(order);
    assert(plan[0] == RequestModel { number: 0x40045564, arg: ArgModel::Int(3) });
    assert(plan[1] == RequestModel { number: 0x40045567, arg: ArgModel::Int(0) });
    assert(plan[2] == RequestModel { number: 0x40045567, arg: ArgModel::Int(1) });
    assert(plan[3] == RequestModel { number: 0x40045564, arg: ArgModel::Int(5) });
    assert(plan[4] == RequestModel { number: 0x4004556d, arg: ArgModel::Int(0) });
    assert(plan[5] == RequestModel { number: 0x4004556d, arg: ArgModel::Int(1) });
    assert(plan[6] == RequestModel { number: 0x401c5504, arg: ArgModel::Bytes(abs_setup_bytes(0, 0, 3, order)) });
    assert(plan[7] == RequestModel { number: 0x401c5504, arg: ArgModel::Bytes(abs_setup_bytes(1, 0, 3, order)) });
}

} // verus!
