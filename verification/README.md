# rawmidi

The rawmidi interface of ALSA, split in two.

- `src/` is the verified library. Each type stands for a C object of
  `libasound` by its address; each method receives the call into the C
  library as a closure, decides what is handed to it, and turns what it
  returns into the result, under a contract checked by Verus.
  - `error.rs`: return codes, `errno`, C strings.
  - `enums.rs`: `Direction`, `ReadMode`, `Clock` and their C values.
  - `iter.rs`: the state machine that walks the devices and subdevices of a
    card, with its laws.
  - `object.rs`: allocating a C object, filling it by a query, releasing it
    where the query fails.
  - `params.rs`, `info.rs`, `device.rs`: `Params`, `Status`, `Info`,
    `Rawmidi`, `IO` and the poll descriptors.
- `app/` owns the C objects and makes the calls into `alsa-sys`, handing
  them to the library as closures.
- `tests/` drives the library with closures that stand for the C library.
