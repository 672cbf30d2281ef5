# libbuf

The verified core of `buf`, a bootable USB flasher, written in Verus.

- `src/text.rs`: whitespace trimming (Unicode `White_Space`), ASCII digits and
  case, decimal numerals, and the lemmas about them.
- `src/size.rs`: block sizes (`32MiB`, `4K`, `4096`, ...) and the laws they
  obey: ASCII case and surrounding whitespace do not matter, units are powers
  of 1024, plain decimal counts read back as themselves.
- `src/cli.rs`: the command line's decisions: required paths, the block size
  setting, the arguments of an elevated relaunch, the confirmation answer,
  and the run itself as a state machine (`next_step`) with its laws: list
  mode only lists, nothing is written before validation, a dry run never
  writes, a write needs `--force` or a "y".
- `src/list.rs`: devices and human-readable byte counts.
- `src/gui.rs`: the flashing window's state machine and its form parsing.
- `src/privilege.rs`: `PATH` splitting, the choice of elevation helper, the
  UAC relaunch parameters.
- `app/`: the `buf` program around it: it performs the actions that
  `next_step` asks for (argument parsing, logging, privilege checks, device
  I/O) and draws the egui window when run as `buf-gui`.
