//! The requests that create the virtual "Volt 276 Controls" input device
//! through `/dev/uinput`, and their arguments as the kernel reads them.
use vstd::prelude::*;

use crate::event::{
    i32_bytes, push_i32, push_u16, push_u32, u16_bytes, u32_bytes, zeros, ByteOrder, ABS_X, ABS_Y, EV_ABS,
    EV_SW, SW_VINTAGE_1, SW_VINTAGE_2,
};

verus! {

/// The ioctl type of uinput requests (`'U'`).
pub const UINPUT_IOCTL_BASE: u64 = 0x55;
/// `UI_SET_EVBIT`: enable an event type; the argument is an `int`.
pub const UI_SET_EVBIT: u64 = 0x40045564;
/// `UI_SET_ABSBIT`: enable an absolute axis; the argument is an `int`.
pub const UI_SET_ABSBIT: u64 = 0x40045567;
/// `UI_SET_SWBIT`: enable a switch; the argument is an `int`.
pub const UI_SET_SWBIT: u64 = 0x4004556d;
/// `UI_DEV_CREATE`: create the device; no argument.
pub const UI_DEV_CREATE: u64 = 0x5501;
/// `UI_DEV_DESTROY`: destroy the device; no argument.
pub const UI_DEV_DESTROY: u64 = 0x5502;
/// `UI_DEV_SETUP`: identity and name; the argument is a `struct uinput_setup`.
pub const UI_DEV_SETUP: u64 = 0x405c5503;
/// `UI_ABS_SETUP`: range of an axis; the argument is a `struct uinput_abs_setup`.
pub const UI_ABS_SETUP: u64 = 0x401c5504;

/// Bus type `BUS_USB`.
pub const BUS_USB: u16 = 0x03;
/// USB vendor ID of the Volt 276.
pub const VENDOR_ID: u16 = 0x2b5a;
/// USB product ID of the Volt 276.
pub const PRODUCT_ID: u16 = 0x0023;
/// Version of the virtual device.
pub const DEVICE_VERSION: u16 = 0x0001;
/// Lowest value of a compressor axis (Off).
pub const AXIS_MIN: i32 = 0;
/// Highest value of a compressor axis (Fast).
pub const AXIS_MAX: i32 = 3;
/// Size of the name field of `struct uinput_setup`.
pub const NAME_FIELD_SIZE: usize = 80;
/// Size of `struct uinput_abs_setup`.
pub const ABS_SETUP_SIZE: usize = 28;
/// Size of `struct uinput_setup`.
pub const DEV_SETUP_SIZE: usize = 92;

/// The argument of an ioctl request.
#[derive(Debug)]
pub enum IoctlArg {
    /// No argument.
    Nothing,
    /// An `int`, passed by value.
    Int(i32),
    /// A struct, passed by address, given as its bytes.
    Bytes(Vec<u8>),
}

/// An ioctl request on the uinput device: its number and its argument.
#[derive(Debug)]
pub struct SetupRequest {
    pub number: u64,
    pub arg: IoctlArg,
}

/// The mathematical value of an [`IoctlArg`].
pub enum ArgModel {
    Nothing,
    Int(i32),
    Bytes(Seq<u8>),
}

/// The mathematical value of a [`SetupRequest`].
pub struct RequestModel {
    pub number: u64,
    pub arg: ArgModel,
}

impl View for IoctlArg {
    type V = ArgModel;

    open spec fn view(&self) -> ArgModel {
        match self {
            IoctlArg::Nothing => ArgModel::Nothing,
            IoctlArg::Int(v) => ArgModel::Int(*v),
            IoctlArg::Bytes(b) => ArgModel::Bytes(b@),
        }
    }
}

impl View for SetupRequest {
    type V = RequestModel;

    open spec fn view(&self) -> RequestModel {
        RequestModel { number: self.number, arg: self.arg@ }
    }
}

/// The number of an ioctl request, as the Linux macro `_IOC` builds it
/// (generic layout): the direction in bits 30-31, the size of the argument
/// in bits 16-29, the type in bits 8-15 and the number in bits 0-7.
pub open spec fn ioc(dir: int, ty: int, nr: int, size: int) -> int {
    dir * 0x40000000 + size * 0x10000 + ty * 0x100 + nr
}

/// `_IO(ty, nr)`: a request without argument.
pub open spec fn io(ty: int, nr: int) -> int {
    ioc(0, ty, nr, 0)
}

/// `_IOW(ty, nr, size)`: a request that passes `size` bytes to the kernel.
pub open spec fn iow(ty: int, nr: int, size: int) -> int {
    ioc(1, ty, nr, size)
}

/// The direction field of a request number.
pub open spec fn ioc_dir(number: int) -> int {
    number / 0x40000000
}

/// The argument-size field of a request number.
pub open spec fn ioc_size(number: int) -> int {
    (number / 0x10000) % 0x4000
}

/// The bytes of the device name "Volt 276 Controls".
pub open spec fn device_name() -> Seq<u8> {
    seq![
        0x56u8, 0x6f, 0x6c, 0x74, 0x20, 0x32, 0x37, 0x36, 0x20,
        0x43, 0x6f, 0x6e, 0x74, 0x72, 0x6f, 0x6c, 0x73,
    ]
}

/// `struct uinput_abs_setup` for axis `code` with range
/// `minimum..=maximum`, numbers in `order`: the code, two bytes of padding,
/// then the six `int`s of `struct input_absinfo` (value, minimum, maximum,
/// fuzz, flat, resolution), all but the range zero.
pub open spec fn abs_setup_bytes(code: u16, minimum: i32, maximum: i32, order: ByteOrder) -> Seq<u8> {
    u16_bytes(code, order) + u16_bytes(0, order) + i32_bytes(0, order) + i32_bytes(minimum, order)
        + i32_bytes(maximum, order) + i32_bytes(0, order) + i32_bytes(0, order) + i32_bytes(0, order)
}

/// `struct uinput_setup` of the device: its `struct input_id` (USB bus,
/// vendor and product of the Volt 276, version 1), its name padded with
/// zeros to 80 bytes, and no force-feedback effects; numbers in `order`.
pub open spec fn device_setup_bytes(order: ByteOrder) -> Seq<u8> {
    u16_bytes(BUS_USB, order) + u16_bytes(VENDOR_ID, order) + u16_bytes(PRODUCT_ID, order)
        + u16_bytes(DEVICE_VERSION, order) + device_name() + zeros(
        (NAME_FIELD_SIZE - device_name().len()) as nat,
    ) + u32_bytes(0, order)
}

/// The requests that create the device, in order: enable `EV_ABS`, axes
/// `ABS_X` and `ABS_Y`; enable `EV_SW`, switches 0 and 1; give both axes
/// the range `AXIS_MIN..=AXIS_MAX`; give the identity and name; create.
/// The structs lay out their numbers in `order`.
pub open spec fn device_setup_plan(order: ByteOrder) -> Seq<RequestModel> {
    seq![
        RequestModel { number: UI_SET_EVBIT, arg: ArgModel::Int(EV_ABS as i32) },
        RequestModel { number: UI_SET_ABSBIT, arg: ArgModel::Int(ABS_X as i32) },
        RequestModel { number: UI_SET_ABSBIT, arg: ArgModel::Int(ABS_Y as i32) },
        RequestModel { number: UI_SET_EVBIT, arg: ArgModel::Int(EV_SW as i32) },
        RequestModel { number: UI_SET_SWBIT, arg: ArgModel::Int(SW_VINTAGE_1 as i32) },
        RequestModel { number: UI_SET_SWBIT, arg: ArgModel::Int(SW_VINTAGE_2 as i32) },
        RequestModel {
            number: UI_ABS_SETUP,
            arg: ArgModel::Bytes(abs_setup_bytes(ABS_X, AXIS_MIN, AXIS_MAX, order)),
        },
        RequestModel {
            number: UI_ABS_SETUP,
            arg: ArgModel::Bytes(abs_setup_bytes(ABS_Y, AXIS_MIN, AXIS_MAX, order)),
        },
        RequestModel { number: UI_DEV_SETUP, arg: ArgModel::Bytes(device_setup_bytes(order)) },
        RequestModel { number: UI_DEV_CREATE, arg: ArgModel::Nothing },
    ]
}

/// The bytes of `struct uinput_abs_setup` for axis `code` with range
/// `minimum..=maximum`, numbers in `order`.
pub fn abs_setup_payload(code: u16, minimum: i32, maximum: i32, order: ByteOrder) -> (bytes: Vec<u8>)
    ensures
        bytes@ == abs_setup_bytes(code, minimum, maximum, order),
        bytes@.len() == ABS_SETUP_SIZE,
{
    let mut bytes: Vec<u8> = Vec::new();
    push_u16(&mut bytes, code, order);
    push_u16(&mut bytes, 0, order);
    push_i32(&mut bytes, 0, order);
    push_i32(&mut bytes, minimum, order);
    push_i32(&mut bytes, maximum, order);
    push_i32(&mut bytes, 0, order);
    push_i32(&mut bytes, 0, order);
    push_i32(&mut bytes, 0, order);
    bytes
}

/// The bytes of `struct uinput_setup` for the device, numbers in `order`.
pub fn device_setup_payload(order: ByteOrder) -> (bytes: Vec<u8>)
    ensures
        bytes@ == device_setup_bytes(order),
        bytes@.len() == DEV_SETUP_SIZE,
{
    let mut bytes: Vec<u8> = Vec::new();
    push_u16(&mut bytes, BUS_USB, order);
    push_u16(&mut bytes, VENDOR_ID, order);
    push_u16(&mut bytes, PRODUCT_ID, order);
    push_u16(&mut bytes, DEVICE_VERSION, order);
    let mut name: Vec<u8> = vec![
        0x56u8, 0x6f, 0x6c, 0x74, 0x20, 0x32, 0x37, 0x36, 0x20,
        0x43, 0x6f, 0x6e, 0x74, 0x72, 0x6f, 0x6c, 0x73,
    ];
    assert(name@ =~= device_name());
    let ghost head = bytes@;
    let name_len: usize = name.len();
    bytes.append(&mut name);
    let mut i: usize = name_len;
    while i < NAME_FIELD_SIZE
        invariant
            name_len == device_name().len(),
            name_len <= i <= NAME_FIELD_SIZE,
            bytes@ == head + device_name() + zeros((i - name_len) as nat),
        decreases NAME_FIELD_SIZE - i,
    {
        bytes.push(0);
        i = i + 1;
        assert(bytes@ =~= head + device_name() + zeros((i - name_len) as nat));
    }
    push_u32(&mut bytes, 0, order);
    assert(bytes@ =~= device_setup_bytes(order));
    bytes
}

/// The requests that create the virtual device, with their arguments; the
/// structs lay out their numbers in `order`, the target's byte order.
pub fn setup_requests(order: ByteOrder) -> (requests: Vec<SetupRequest>)
    ensures
        requests@.len() == device_setup_plan(order).len(),
        forall|i: int| 0 <= i < requests@.len() ==> #[trigger] requests@[i]@ == device_setup_plan(order)[i],
{
    let mut requests: Vec<SetupRequest> = Vec::new();
    requests.push(SetupRequest { number: UI_SET_EVBIT, arg: IoctlArg::Int(EV_ABS as i32) });
    requests.push(SetupRequest { number: UI_SET_ABSBIT, arg: IoctlArg::Int(ABS_X as i32) });
    requests.push(SetupRequest { number: UI_SET_ABSBIT, arg: IoctlArg::Int(ABS_Y as i32) });
    requests.push(SetupRequest { number: UI_SET_EVBIT, arg: IoctlArg::Int(EV_SW as i32) });
    requests.push(SetupRequest { number: UI_SET_SWBIT, arg: IoctlArg::Int(SW_VINTAGE_1 as i32) });
    requests.push(SetupRequest { number: UI_SET_SWBIT, arg: IoctlArg::Int(SW_VINTAGE_2 as i32) });
    requests.push(
        SetupRequest {
            number: UI_ABS_SETUP,
            arg: IoctlArg::Bytes(abs_setup_payload(ABS_X, AXIS_MIN, AXIS_MAX, order)),
        },
    );
    requests.push(
        SetupRequest {
            number: UI_ABS_SETUP,
            arg: IoctlArg::Bytes(abs_setup_payload(ABS_Y, AXIS_MIN, AXIS_MAX, order)),
        },
    );
    requests.push(SetupRequest { number: UI_DEV_SETUP, arg: IoctlArg::Bytes(device_setup_payload(order)) });
    requests.push(SetupRequest { number: UI_DEV_CREATE, arg: IoctlArg::Nothing });
    assert forall|i: int| 0 <= i < requests@.len() implies #[trigger] requests@[i]@ == device_setup_plan(order)[i] by {
    }
    requests
}

} // verus!
