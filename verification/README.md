# embassy-imxrt: verified peripheral logic for the i.MX RT6xx

The library (`src/`) holds the decisions of four peripheral drivers of the
NXP i.MX RT685, each stated in a contract and proved:

- `clocks`: a snapshot of the clock tree and, for each peripheral clock
  configuration, the frequency it yields (or why it cannot be applied) and
  the clock-controller register writes that realise it.
- `flexspi::nor_storage_bus`: LUT encoding of NOR flash commands, decoding of
  the interrupt status after a command, the layout of data in the FIFO words,
  how transfers are cut into watermark-sized chunks, and the values of the
  configuration registers.
- `hashcrypt`: how a hash is started and how the interrupt is handled.
- `rng`: the NIST SP 800-90B health tests run on each block of hardware
  entropy, and how an accepted block fills the caller's buffer.

`app/` performs the register accesses and hardware waits around these
decisions, using the `mimxrt685s-pac` register definitions. `tests/` runs the
library on concrete values.
