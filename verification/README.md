# volt276d

A Linux daemon that exposes the front-panel controls of a UA Volt 276 audio
interface (compressor buttons and vintage switches of both inputs) as a
virtual input device created through uinput.

- `src/` is the library, verified with Verus: decoding of the HID report
  stream (`protocol`, `report`), the byte records of input events (`event`),
  the ioctl requests and structures that create the device (`uinput`), and
  properties that tie them together (`laws`).
- `app/` is the daemon: it opens the devices, performs the ioctls and the
  reads and writes that the library describes.
- `tests/` runs the library on concrete reports and events.

| Control            | Event type | Code      | Values                      |
|--------------------|------------|-----------|-----------------------------|
| Compressor Input 1 | `EV_ABS`   | `ABS_X`   | 0 Off, 1 Voc, 2 GTR, 3 Fast |
| Compressor Input 2 | `EV_ABS`   | `ABS_Y`   | 0 Off, 1 Voc, 2 GTR, 3 Fast |
| Vintage Input 1    | `EV_SW`    | SW slot 0 | 0 Off, 1 On                 |
| Vintage Input 2    | `EV_SW`    | SW slot 1 | 0 Off, 1 On                 |
