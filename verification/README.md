# rvm

The logic of a type-1.5 hypervisor for x86_64, verified with Verus. The hypervisor is loaded by a
running Linux, turns hardware virtualization on under it (Intel VMX or AMD SVM), and from then on
runs that Linux as its root cell.

- `src/` is the library. A function that needs a register takes its value; a function that acts on
  the machine puts the operations on a queue (`arch::hw::HwQueue`), and its contract says which.
  - `boot`: how the CPUs start together, and what holds of them in any order of steps.
  - `cell`: the root cell and its memory.
  - `percpu`: the data of each CPU.
  - `arch::intel`, `arch::amd`: virtual CPUs on VMX and on SVM, and laws about them.
  - `arch::registers`, `arch::cpu`: the trusted items, each with what it claims of an outside crate.
- `tests/` runs the library on concrete values.
- `app/` is the image around the library: it performs the queued operations, reads the registers,
  holds the shared counters and the code that runs when a guest exits.
