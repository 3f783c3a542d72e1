//! What a HID report of the Volt 276 says about its front-panel controls,
//! and the input events that stand for it.
use vstd::prelude::*;

use crate::event::{InputEvent, ABS_X, ABS_Y, EV_ABS, EV_SW, SW_VINTAGE_1, SW_VINTAGE_2};
use crate::protocol::{bit_of, compressor_mode, parse_compressor, parse_vintage};

verus! {

/// Report ID of the stream that carries the control bytes.
pub const REPORT_ID: u8 = 0x02;
/// Size of the buffer that reports are read into.
pub const REPORT_BUFFER_SIZE: usize = 64;

/// One of the two inputs of the interface.
#[derive(Debug, Clone, Copy, PartialEq, Eq, Structural)]
pub enum Input {
    One,
    Two,
}

/// The state of one front-panel control, as a report gives it.
#[derive(Debug, Clone, Copy, PartialEq, Eq, Structural)]
pub enum ControlEvent {
    /// The compressor of `input` is in `mode` (0 Off, 1 Voc, 2 GTR, 3 Fast).
    Compressor { input: Input, mode: i32 },
    /// The vintage switch of `input` is off (`0`) or on (`1`).
    Vintage { input: Input, on: i32 },
}

impl ControlEvent {
    /// The input event that reports this control's state.
    pub open spec fn spec_input_event(self) -> InputEvent {
        match self {
            ControlEvent::Compressor { input: Input::One, mode } => InputEvent {
                kind: EV_ABS,
                code: ABS_X,
                value: mode,
            },
            ControlEvent::Compressor { input: Input::Two, mode } => InputEvent {
                kind: EV_ABS,
                code: ABS_Y,
                value: mode,
            },
            ControlEvent::Vintage { input: Input::One, on } => InputEvent {
                kind: EV_SW,
                code: SW_VINTAGE_1,
                value: on,
            },
            ControlEvent::Vintage { input: Input::Two, on } => InputEvent {
                kind: EV_SW,
                code: SW_VINTAGE_2,
                value: on,
            },
        }
    }

    /// The input event that reports this control's state: a compressor on
    /// axis `ABS_X` (input 1) or `ABS_Y` (input 2) with its mode as value, a
    /// vintage switch in switch slot 0 (input 1) or 1 (input 2).
    pub fn input_event(&self) -> (ev: InputEvent)
        ensures
            ev == self.spec_input_event(),
    {
        match *self {
            ControlEvent::Compressor { input: Input::One, mode } => InputEvent {
                kind: EV_ABS,
                code: ABS_X,
                value: mode,
            },
            ControlEvent::Compressor { input: Input::Two, mode } => InputEvent {
                kind: EV_ABS,
                code: ABS_Y,
                value: mode,
            },
            ControlEvent::Vintage { input: Input::One, on } => InputEvent {
                kind: EV_SW,
                code: SW_VINTAGE_1,
                value: on,
            },
            ControlEvent::Vintage { input: Input::Two, on } => InputEvent {
                kind: EV_SW,
                code: SW_VINTAGE_2,
                value: on,
            },
        }
    }
}

/// The compressor state that `byte` gives for `input`: one event when the
/// byte is a known mode, none otherwise.
pub open spec fn compressor_controls(byte: u8, input: Input) -> Seq<ControlEvent> {
    match compressor_mode(byte) {
        Some(mode) => seq![ControlEvent::Compressor { input, mode }],
        None => Seq::empty(),
    }
}

/// The controls that a report gives, in this order: compressor 1,
/// compressor 2 (each when its byte is a known mode), vintage 1, vintage 2.
/// A report whose ID (byte 0) is not `REPORT_ID` gives none.
pub open spec fn report_controls(report: Seq<u8>) -> Seq<ControlEvent>
    recommends
        report.len() >= 4,
{
    if report[0] != REPORT_ID {
        Seq::empty()
    } else {
        compressor_controls(report[2], Input::One) + compressor_controls(report[3], Input::Two)
            + seq![
            ControlEvent::Vintage { input: Input::One, on: bit_of(report[1], 6) },
            ControlEvent::Vintage { input: Input::Two, on: bit_of(report[1], 7) },
        ]
    }
}

/// Decodes the buffer that HID reports are read into: the states of
/// the controls that it gives. Bytes 0 to 3 are decoded whatever the length
/// of the last read: those that a short read did not reach still hold what
/// an earlier read put there.
pub fn decode_report(report: &[u8; REPORT_BUFFER_SIZE]) -> (controls: Vec<ControlEvent>)
    ensures
        controls@ == report_controls(report@),
{
    let mut controls: Vec<ControlEvent> = Vec::new();
    if report[0] != REPORT_ID {
        assert(controls@ =~= report_controls(report@));
        return controls;
    }
    if let Some(mode) = parse_compressor(report[2]) {
        controls.push(ControlEvent::Compressor { input: Input::One, mode });
    }
    assert(controls@ =~= compressor_controls(report[2], Input::One));
    let ghost first = controls@;
    if let Some(mode) = parse_compressor(report[3]) {
        controls.push(ControlEvent::Compressor { input: Input::Two, mode });
    }
    assert(controls@ =~= first + compressor_controls(report[3], Input::Two));
    let (vintage1, vintage2) = parse_vintage(report[1]);
    controls.push(ControlEvent::Vintage { input: Input::One, on: vintage1 });
    controls.push(ControlEvent::Vintage { input: Input::Two, on: vintage2 });
    assert(controls@ =~= report_controls(report@));
    controls
}

} // verus!
