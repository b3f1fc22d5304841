# lean_base

Typed access to the objects of the Lean 4 runtime, verified with Verus.

- `src/object.rs`: Lean values as plain data (`Obj`, modelled by `Value`):
  scalar words, constructor cells, strings and other cells; boxing of small
  numbers; reading tags and fields.
- `src/typed.rs`: typed objects (`TObj`, `TObjRef`) and the `Layout` trait with
  the layouts of `List`, `IoResult`, `Except`, `Option`, pairs, `Bool` and
  `Environment`, each with its round-trip laws.
- `src/runtime.rs`: `io`, and the order in which a program brings the runtime
  up, runs its initializer and body, and shuts it down, as a state machine.
- `src/frontend.rs`: the import list, the value of an evaluated constant and
  the environment of an elaboration run.
- `src/codegen.rs`: the source text of the typed closure types of arities 1
  to 16, parsed with `syn` and printed with `prettyplease`.
- `app/`: the program that talks to the runtime through `lean-sys`, the
  conversion between runtime objects and `Obj`, closures, external objects, and
  writing the closure types out for the build.
