# test_proc_macros

The code generation behind a handful of procedural macros, verified with Verus.

The macros' inputs are modelled as plain values (`src/model.rs`): struct items,
fields, enum variants, function signatures and top-level tokens, each piece held
as its source text. Every expansion is produced as Rust source text, and its
contract states that text exactly.

- `src/structs.rs`: rendering of struct items; `MyDerive` (adds `ok`),
  `my_attribute_struct` (adds `drive`), `add_field` and `add_tuple`.
- `src/functions.rs`: `my_attribute_fn`, which wraps a function's body between
  two printed lines.
- `src/pairs.rs`: the `name = "value", ...` grammar of `my_macro!` and the
  map-building statements it expands to, with proofs that the grammar accepts
  exactly the comma-separated lists of pairs.
- `src/error_message.rs`: the `ErrorMessage` derive, which generates `as_*` and
  `into_*` accessors for every enum variant.
- `src/text.rs`: decimal rendering (with its injectivity law) and string comparison.
- `src/str_map.rs`: the string map that `my_macro!`'s expansion builds.
- `src/examples.rs`: the types that use the macros, as expanded.
- `src/reading.rs`: reading struct items and derive inputs from source text,
  their fields read as braced or tuple fields by how their text opens.
- `src/outside.rs`: the calls into `syn`, `proc-macro2` and `heck`.

`app/` holds the proc-macro glue: it hands each macro's input to the library as
source text, turns the generated text back into tokens, and reports refusals
(compile errors, panics) as the macros do.
