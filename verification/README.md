# openvmm

The decisions of a virtual machine monitor's front end, written in Rust and
proved with Verus: which machine the command line or a management request asks
for, whether it may run, how it is captured into a snapshot and restored from
one, and how its lifetime is managed.

`src/` holds the library. Every function states what it returns and when it
refuses, over mathematical values; the proof functions named `law_...` state what
holds across functions.

- `text`, `numeral`, `bytes`, `path`, `net`, `grouping`, `refusal`: text, numbers,
  addresses and refusals.
- `config`, `pvh`, `microvm*`, `machine`: the configuration of a machine, the
  kernel command line, and the contract that a microVM keeps.
- `console`, `network_attachment`, `filesystem`, `snapshot`, `restore`, `entropy`:
  what a microVM is attached to, and how it is attached again after a restore.
- `launch*`, `chipset`, `smbios`, `run`, `worker`: a machine from the command line.
- `create*`, `devices`, `numa`, `pcie`: a machine from a management request.
- `controller`, `capture*`, `vtl2`, `service*`, `transport`, `rpc`,
  `snapshot_rpc`: a machine while it runs.
- `guest`, `serial`, `install`, `profile`: the test guest, serial endpoints, the
  tool installer and profiling records.

`app/` holds pieces of code around it: what opens files, sockets and pipes and
hands the library what it finds, and the loops that drive the library's state
machines over traits that a host implements. It is no program: the worker
processes and the management server that would run those loops are not here.
`tests/` runs the library.

A microVM that is launched from the command line spells out the processor
topology that the first version of the machine contract leaves to the platform,
and is refused by it. One that a management request creates leaves it open.
