# nvapi

A verified library for NVIDIA's NvAPI driver interface: the driver's status
codes and API ids, versioned driver structs, the data types built on them (GPU
architecture, PCI ids, memory, thermal and cooler settings, VF curve points,
ECC, G-Sync, I2C), the decisions taken on the driver's replies (which error
names which call, when an older struct version is tried), and the text of
values and errors (temperatures, bus and PCI ids, status and API names).

- `src/` is the library, proved with Verus. Queries that the driver answers take
  the driver's reply as an argument; versioned queries return a `VersionStep`
  that says whether to ask again with an older struct version.
- `declare` holds the rules by which the driver types are declared, over a
  model of each declaration: an enum's raw value lookup, a flag set's check
  and walk, what a struct declaration adds (layout, derives, padding), which
  field holds the version word or is inherited, and the grammar of a driver
  function declaration.
- `hi` assembles the summary, the state and the settings of a GPU from its queries'
  answers (the first real failure, else each value with its fallback), converts
  the driver's data it reads (clock and voltage limits, sensor limits and
  throttle settings, VF curve points and offsets, power targets), and plans
  clock locks.
- I2C and SMBus operations are planned as `I2cTransfer` values (direction,
  register bytes, data bytes, request); the answer of a read is decoded from
  the bytes the driver filled in.
- `app/` loads the driver library, makes the calls and hands the replies to the
  library.
- `tests/` runs the library on concrete replies.
