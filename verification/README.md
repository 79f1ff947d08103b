# atk-dpi

Manages the DPI profiles, the polling rate and the sensor mode of ATK/VXE mice over HID.

`src/` is a library that is verified with [Verus](https://github.com/verus-lang/verus): the
encoding of the settings, the conversations with the mouse that read and change them, the
search for the device and its interface, and all texts that are shown. `app/` is the command
line program around it: arguments, HID input and output, printing.

## Settings memory

| Address | Name         | Contents |
|---------|--------------|----------|
| 0x00    | ReportRate   | five pairs of a value and its checksum; pair 0 is the polling interval in ms, pair 2 the index of the active profile |
| 0x0c    | DpiPair1     | DPI1, DPI2 |
| 0x14    | DpiPair3     | DPI3, DPI4 |
| 0x1c    | DpiPair5     | DPI5, DPI6 |
| 0x24    | DpiPair7     | DPI7, DPI8 |
| 0xb5    | SensorEnable | three pairs of a value and its checksum; pair 2 is the mode, 0 = base, 1 = competitive |

A profile is a block of four bytes:

```
idx   = DPI / 50 - 1
byte0 = idx & 0xff
byte1 = byte0
byte2 = ((idx >> 8) & 0xff) * 0x44
byte3 = (0x55 - byte0 - byte1 - byte2) & 0xff
```

The checksum of a single value is `(0x55 - value) & 0xff`.

A setting is changed by reading the whole block at its address, replacing its own bytes, and
writing the block back. `src/memory.rs` states, and proves, that every other byte of the memory
stays as it was, also where a request is lost or refused, as long as what a good read brings in is
what the memory holds; and that the change comes about where the mouse serves its requests.

## Commands

```
atk-dpi list
atk-dpi get                       (or: dpi get)
atk-dpi set SLOT VALUE            (or: dpi set SLOT VALUE)
atk-dpi select SLOT               (or: dpi select SLOT)
atk-dpi rate get
atk-dpi rate set HZ
atk-dpi sensor-mode get
atk-dpi sensor-mode set base|competitive
```

`SLOT` is 1-8, `VALUE` a multiple of 50 in the range 100-30000, `HZ` one of 125, 250, 500, 1000.
