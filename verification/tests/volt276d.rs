use volt276d::event::{
    encode_event, event_records, ByteOrder, InputEvent, RecordLayout, ABS_X, ABS_Y,
    EVENT_FIELDS_SIZE, EV_ABS, EV_SW, EV_SYN, SW_VINTAGE_1, SW_VINTAGE_2,
    SYN_REPORT,
};
use volt276d::protocol::{parse_compressor, parse_vintage};
use volt276d::report::{decode_report, ControlEvent, Input, REPORT_BUFFER_SIZE, REPORT_ID};
use volt276d::uinput::{
    abs_setup_payload, device_setup_payload, setup_requests, IoctlArg, ABS_SETUP_SIZE, AXIS_MAX,
    AXIS_MIN, DEV_SETUP_SIZE, UI_ABS_SETUP, UI_DEV_CREATE, UI_DEV_DESTROY, UI_DEV_SETUP,
    UI_SET_ABSBIT, UI_SET_EVBIT, UI_SET_SWBIT,
};

const LE64: RecordLayout = RecordLayout { time_size: 16, order: ByteOrder::Little };
const LITTLE: ByteOrder = ByteOrder::Little;

/// A report buffer whose first bytes are `bytes` and the rest zero.
fn buffer(bytes: &[u8]) -> [u8; REPORT_BUFFER_SIZE] {
    let mut buf = [0u8; REPORT_BUFFER_SIZE];
    buf[..bytes.len()].copy_from_slice(bytes);
    buf
}

fn ioc(dir: u64, ty: u64, nr: u64, size: u64) -> u64 {
    (dir << 30) | (size << 16) | (ty << 8) | nr
}

#[test]
fn compressor_modes() {
    assert_eq!(parse_compressor(0x02), Some(0));
    assert_eq!(parse_compressor(0x11), Some(1));
    assert_eq!(parse_compressor(0x09), Some(2));
    assert_eq!(parse_compressor(0x05), Some(3));
}

#[test]
fn compressor_unknown_bytes() {
    for b in 0u8..=255 {
        if ![0x02u8, 0x11, 0x09, 0x05].contains(&b) {
            assert_eq!(parse_compressor(b), None, "byte {b:#x}");
        }
    }
}

#[test]
fn compressor_codes_distinct_and_in_range() {
    let mut seen = [0u32; 4];
    for b in 0u8..=255 {
        if let Some(m) = parse_compressor(b) {
            assert!((0..=3).contains(&m));
            seen[m as usize] += 1;
        }
    }
    assert_eq!(seen, [1, 1, 1, 1]);
}

#[test]
fn vintage_bits() {
    assert_eq!(parse_vintage(0x21), (0, 0));
    assert_eq!(parse_vintage(0x61), (1, 0));
    assert_eq!(parse_vintage(0xa1), (0, 1));
    assert_eq!(parse_vintage(0xc0), (1, 1));
    assert_eq!(parse_vintage(0x3f), (0, 0));
    assert_eq!(parse_vintage(0xff), (1, 1));
}

#[test]
fn vintage_inputs_independent() {
    for b in 0u8..=255 {
        let (v1, v2) = parse_vintage(b);
        assert_eq!(parse_vintage(b ^ 0x40), (1 - v1, v2));
        assert_eq!(parse_vintage(b ^ 0x80), (v1, 1 - v2));
    }
}

#[test]
fn decode_captured_report() {
    // Compressor input 1 on Voc with vintage input 1 on.
    let report = [
        0x02u8, 0x61, 0x11, 0x02, 0x00, 0x00, 0x00, 0x00, 0x01, 0x01, 0x00, 0x00, 0x00, 0x00,
    ];
    assert_eq!(
        decode_report(&buffer(&report)),
        vec![
            ControlEvent::Compressor { input: Input::One, mode: 1 },
            ControlEvent::Compressor { input: Input::Two, mode: 0 },
            ControlEvent::Vintage { input: Input::One, on: 1 },
            ControlEvent::Vintage { input: Input::Two, on: 0 },
        ]
    );
}

#[test]
fn decode_idle_report() {
    let report = [
        0x02u8, 0x21, 0x02, 0x02, 0x00, 0x00, 0x00, 0x00, 0x01, 0x01, 0x00, 0x00, 0x00, 0x00,
    ];
    assert_eq!(
        decode_report(&buffer(&report)),
        vec![
            ControlEvent::Compressor { input: Input::One, mode: 0 },
            ControlEvent::Compressor { input: Input::Two, mode: 0 },
            ControlEvent::Vintage { input: Input::One, on: 0 },
            ControlEvent::Vintage { input: Input::Two, on: 0 },
        ]
    );
}

#[test]
fn decode_other_report_id() {
    let report = [
        0x01u8, 0x08, 0x14, 0x00, 0x00, 0x02, 0x21, 0x11, 0x02, 0x00, 0x00, 0x00, 0x00, 0x00,
    ];
    assert_ne!(report[0], REPORT_ID);
    assert!(decode_report(&buffer(&report)).is_empty());
}

#[test]
fn decode_keeps_bytes_of_earlier_read() {
    // A full report, then a one-byte read that only overwrites byte 0.
    let mut buf = buffer(&[0x02, 0x61, 0x11, 0x02, 0x00]);
    let first = decode_report(&buf);
    buf[..1].copy_from_slice(&[0x02]);
    assert_eq!(decode_report(&buf), first);
    assert_eq!(first.len(), 4);
    // An all-zero buffer has no report ID 0x02.
    assert!(decode_report(&[0u8; REPORT_BUFFER_SIZE]).is_empty());
}

#[test]
fn decode_unknown_compressor_byte() {
    let report = [0x02u8, 0x80, 0x14, 0x05];
    assert_eq!(
        decode_report(&buffer(&report)),
        vec![
            ControlEvent::Compressor { input: Input::Two, mode: 3 },
            ControlEvent::Vintage { input: Input::One, on: 0 },
            ControlEvent::Vintage { input: Input::Two, on: 1 },
        ]
    );
}

#[test]
fn control_input_events() {
    assert_eq!(
        ControlEvent::Compressor { input: Input::One, mode: 2 }.input_event(),
        InputEvent { kind: EV_ABS, code: ABS_X, value: 2 }
    );
    assert_eq!(
        ControlEvent::Compressor { input: Input::Two, mode: 3 }.input_event(),
        InputEvent { kind: EV_ABS, code: ABS_Y, value: 3 }
    );
    assert_eq!(
        ControlEvent::Vintage { input: Input::One, on: 1 }.input_event(),
        InputEvent { kind: EV_SW, code: SW_VINTAGE_1, value: 1 }
    );
    assert_eq!(
        ControlEvent::Vintage { input: Input::Two, on: 0 }.input_event(),
        InputEvent { kind: EV_SW, code: SW_VINTAGE_2, value: 0 }
    );
    assert_eq!((EV_ABS, EV_SW, ABS_X, ABS_Y), (3, 5, 0, 1));
}

#[test]
fn event_record_bytes() {
    let bytes = encode_event(&InputEvent { kind: EV_ABS, code: ABS_Y, value: 3 }, LE64);
    let mut expected = vec![0u8; 16];
    expected.extend_from_slice(&[0x03, 0x00, 0x01, 0x00, 0x03, 0x00, 0x00, 0x00]);
    assert_eq!(bytes, expected);
    assert_eq!(bytes.len(), 16 + EVENT_FIELDS_SIZE);
}

#[test]
fn event_record_wide_values() {
    let bytes = encode_event(&InputEvent { kind: 0x1234, code: 0xabcd, value: -2 }, LE64);
    assert_eq!(&bytes[16..], &[0x34, 0x12, 0xcd, 0xab, 0xfe, 0xff, 0xff, 0xff]);
    let bytes = encode_event(&InputEvent { kind: 1, code: 2, value: 0x0102_0304 }, LE64);
    assert_eq!(&bytes[20..], &[0x04, 0x03, 0x02, 0x01]);
}

#[test]
fn event_record_fields_read_back() {
    for (kind, code, value) in [(3u16, 1u16, 3i32), (5, 0, 1), (0xffff, 0x8000, i32::MIN), (7, 9, -1)] {
        let b = encode_event(&InputEvent { kind, code, value }, LE64);
        assert!(b[..16].iter().all(|&x| x == 0));
        assert_eq!(u16::from_le_bytes([b[16], b[17]]), kind);
        assert_eq!(u16::from_le_bytes([b[18], b[19]]), code);
        assert_eq!(i32::from_le_bytes([b[20], b[21], b[22], b[23]]), value);
    }
}

#[test]
fn event_then_sync() {
    let (event, syn) = event_records(EV_SW, SW_VINTAGE_2, 1, LE64);
    assert_eq!(event, encode_event(&InputEvent { kind: EV_SW, code: SW_VINTAGE_2, value: 1 }, LE64));
    assert_eq!(syn, encode_event(&InputEvent { kind: EV_SYN, code: SYN_REPORT, value: 0 }, LE64));
    assert_eq!(syn, vec![0u8; 16 + EVENT_FIELDS_SIZE]);
}

#[test]
fn request_numbers_match_macros() {
    let u = 0x55;
    assert_eq!(UI_SET_EVBIT, ioc(1, u, 100, 4));
    assert_eq!(UI_SET_ABSBIT, ioc(1, u, 103, 4));
    assert_eq!(UI_SET_SWBIT, ioc(1, u, 109, 4));
    assert_eq!(UI_DEV_CREATE, ioc(0, u, 1, 0));
    assert_eq!(UI_DEV_DESTROY, ioc(0, u, 2, 0));
    assert_eq!(UI_DEV_SETUP, ioc(1, u, 3, DEV_SETUP_SIZE as u64));
    assert_eq!(UI_ABS_SETUP, ioc(1, u, 4, ABS_SETUP_SIZE as u64));
}

#[test]
fn abs_setup_bytes() {
    let b = abs_setup_payload(ABS_Y, AXIS_MIN, AXIS_MAX, LITTLE);
    let mut expected = vec![0x01u8, 0x00, 0x00, 0x00, 0, 0, 0, 0, 0, 0, 0, 0, 3, 0, 0, 0];
    expected.extend_from_slice(&[0u8; 12]);
    assert_eq!(b, expected);
    let b = abs_setup_payload(7, -5, 1000, LITTLE);
    assert_eq!(&b[..2], &[7, 0]);
    assert_eq!(i32::from_le_bytes([b[8], b[9], b[10], b[11]]), -5);
    assert_eq!(i32::from_le_bytes([b[12], b[13], b[14], b[15]]), 1000);
    assert_eq!(b.len(), ABS_SETUP_SIZE);
}

#[test]
fn device_setup_bytes() {
    let b = device_setup_payload(LITTLE);
    assert_eq!(b.len(), DEV_SETUP_SIZE);
    assert_eq!(&b[..8], &[0x03, 0x00, 0x5a, 0x2b, 0x23, 0x00, 0x01, 0x00]);
    let name = b"Volt 276 Controls";
    assert_eq!(&b[8..8 + name.len()], name);
    assert!(b[8 + name.len()..88].iter().all(|&x| x == 0));
    assert_eq!(&b[88..], &[0, 0, 0, 0]);
}

#[test]
fn setup_request_order() {
    let reqs = setup_requests(LITTLE);
    let numbers: Vec<u64> = reqs.iter().map(|r| r.number).collect();
    assert_eq!(
        numbers,
        vec![
            UI_SET_EVBIT, UI_SET_ABSBIT, UI_SET_ABSBIT, UI_SET_EVBIT, UI_SET_SWBIT, UI_SET_SWBIT,
            UI_ABS_SETUP, UI_ABS_SETUP, UI_DEV_SETUP, UI_DEV_CREATE,
        ]
    );
    let ints: Vec<i32> = reqs
        .iter()
        .filter_map(|r| match r.arg {
            IoctlArg::Int(v) => Some(v),
            _ => None,
        })
        .collect();
    assert_eq!(ints, vec![3, 0, 1, 5, 0, 1]);
    assert!(matches!(&reqs[6].arg, IoctlArg::Bytes(b) if *b == abs_setup_payload(ABS_X, 0, 3, LITTLE)));
    assert!(matches!(&reqs[7].arg, IoctlArg::Bytes(b) if *b == abs_setup_payload(ABS_Y, 0, 3, LITTLE)));
    assert!(matches!(&reqs[8].arg, IoctlArg::Bytes(b) if *b == device_setup_payload(LITTLE)));
    assert!(matches!(reqs[9].arg, IoctlArg::Nothing));
}

#[test]
fn setup_argument_sizes_match_numbers() {
    for r in setup_requests(LITTLE) {
        let dir = r.number >> 30;
        let size = (r.number >> 16) & 0x3fff;
        match &r.arg {
            IoctlArg::Nothing => assert_eq!((dir, size), (0, 0)),
            IoctlArg::Int(_) => assert_eq!((dir, size), (1, 4)),
            IoctlArg::Bytes(b) => assert_eq!((dir, size), (1, b.len() as u64)),
        }
    }
}

#[test]
fn reported_events_enabled_and_in_range() {
    let reqs = setup_requests(LITTLE);
    let enabled = |number: u64, v: i32| {
        reqs.iter().any(|r| r.number == number && matches!(r.arg, IoctlArg::Int(x) if x == v))
    };
    for b1 in [0x21u8, 0x61, 0xa1, 0xe1] {
        for b2 in [0x02u8, 0x11, 0x09, 0x05, 0x00] {
            for b3 in [0x02u8, 0x11, 0x09, 0x05, 0xff] {
                for c in decode_report(&buffer(&[0x02, b1, b2, b3])) {
                    let ev = c.input_event();
                    assert!(enabled(UI_SET_EVBIT, ev.kind as i32));
                    if ev.kind == EV_ABS {
                        assert!(enabled(UI_SET_ABSBIT, ev.code as i32));
                        assert!((AXIS_MIN..=AXIS_MAX).contains(&ev.value));
                        let setup = abs_setup_payload(ev.code, AXIS_MIN, AXIS_MAX, LITTLE);
                        assert!(reqs.iter().any(|r| r.number == UI_ABS_SETUP
                            && matches!(&r.arg, IoctlArg::Bytes(b) if *b == setup)));
                    } else {
                        assert_eq!(ev.kind, EV_SW);
                        assert!(enabled(UI_SET_SWBIT, ev.code as i32));
                        assert!(ev.value == 0 || ev.value == 1);
                    }
                }
            }
        }
    }
}

#[test]
fn only_first_four_bytes_matter() {
    let a = buffer(&[0x02, 0x61, 0x11, 0x02]);
    let mut b = [0xa5u8; REPORT_BUFFER_SIZE];
    b[..4].copy_from_slice(&[0x02, 0x61, 0x11, 0x02]);
    assert_eq!(decode_report(&a), decode_report(&b));
}

#[test]
fn event_record_big_endian() {
    let layout = RecordLayout { time_size: 16, order: ByteOrder::Big };
    let b = encode_event(&InputEvent { kind: 0x1234, code: 0xabcd, value: -2 }, layout);
    assert_eq!(b.len(), 24);
    assert!(b[..16].iter().all(|&x| x == 0));
    assert_eq!(&b[16..], &[0x12, 0x34, 0xab, 0xcd, 0xff, 0xff, 0xff, 0xfe]);
}

#[test]
fn event_record_short_timestamp() {
    let layout = RecordLayout { time_size: 8, order: ByteOrder::Little };
    let b = encode_event(&InputEvent { kind: EV_ABS, code: ABS_X, value: 2 }, layout);
    assert_eq!(b.len(), 8 + EVENT_FIELDS_SIZE);
    assert_eq!(b, vec![0, 0, 0, 0, 0, 0, 0, 0, 0x03, 0x00, 0x00, 0x00, 0x02, 0x00, 0x00, 0x00]);
}

#[test]
fn setup_payloads_big_endian() {
    let b = abs_setup_payload(ABS_Y, AXIS_MIN, AXIS_MAX, ByteOrder::Big);
    assert_eq!(&b[..4], &[0x00, 0x01, 0x00, 0x00]);
    assert_eq!(&b[8..16], &[0, 0, 0, 0, 0, 0, 0, 3]);
    let d = device_setup_payload(ByteOrder::Big);
    assert_eq!(&d[..8], &[0x00, 0x03, 0x2b, 0x5a, 0x00, 0x23, 0x00, 0x01]);
    assert_eq!(&d[8..25], b"Volt 276 Controls");
    assert_eq!(d.len(), DEV_SETUP_SIZE);
}
