# llvm_wrap

Handles on LLVM objects (contexts, modules, types, values, basic blocks,
builders) and the logic that stands around the calls of the LLVM C
interface, verified with Verus.

- `src/` is the verified library. A handle is the address of the LLVM
  object it refers to. The library turns names into C strings (and proves
  when that fails), reads the text LLVM hands back, encodes and decodes
  LLVM booleans and counts, lays out arrays of handles for LLVM and wraps
  the handles LLVM writes back, steps the iterations over uses and
  functions, and decides what a module verification reports.
- `app/` makes the calls of the LLVM C interface (through `llvm-sys`), which
  are all `unsafe` foreign calls. Its traits (`ContextOps`, `TypeOps`,
  `ValueOps`, `ModuleOps`, `BuilderOps`, `BasicBlockOps`, ...) give the
  handles their methods, `Owned` disposes of the contexts, modules and
  builders it holds when dropped, and `app::with_llvm` shuts LLVM down after
  the run.
- `tests/` exercises the verified library.
