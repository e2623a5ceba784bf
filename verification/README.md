# rog_lighting

Lighting control and GPU detection for ASUS ROG laptops, with the decision
logic verified by Verus.

## Layout

- `src/` — the verified library.
  - `builtin_modes` — Aura effects, modes, zones, speeds, directions,
    brightness levels, their names and their USB packet.
  - `dynamic_led` — Linux LED Dynamic Lighting nodes: which LED class devices
    qualify, and the validation of speed, direction, palette and direct
    frames.
  - `aura_laptop` — the laptop keyboard controller: how an effect, a
    brightness, power states or a raw packet block reach Dynamic Lighting, the
    TUF backlight or hidraw, and what each outcome means.
  - `aura_scsi`, `aura_slash`, `lamparray` — the SCSI enclosure, Slash
    lightbar and HID LampArray controllers.
  - `scsi_led`, `slash_led`, `hid_raw` — finding those devices among what
    udev enumerates; HID report descriptors.
  - `gpu_pci` — PCI display GPU classification, power status and model
    names.
  - `text`, `path`, `error` — string and path helpers, error types.
- `tests/` — tests of the library.
- `app/` — the I/O around it: sysfs, udev, hidraw files, NVML telemetry,
  and serde copies of the library's types.

Every function in `src/` has a contract; the two functions that call into
the standard library without a Verus specification (`String::push` and
`str::to_lowercase`) are marked `#[verifier::external_body]` and say what
they assume.
