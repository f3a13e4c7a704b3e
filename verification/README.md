# match_vec

Matching on an owned `Vec` and moving its items out into the arms' bindings.
`match_vec!(match v { [a, .., b] => ..., [] => ..., })` expands into a block
expression that matches a borrowed slice of `v` to pick the arm, then moves
the matched items out of `v` by position into the arm's bindings.

The library has two halves, both verified with Verus:

- **Moving items out by position** (`slice_ext`, `vec_ext`, `util`):
  `SliceExt` for `Vec<T>` and `Box<[T]>` removes a constant number of items
  from the front, the back or both ends and returns them as arrays; the `Vec`
  keeps its buffer for the remaining items. `VecExt` does the same for
  `Vec<T>` alone, and is what generated code calls. `UninitArray` is an array
  whose slots are filled one at a time; dropping it frees its storage but does
  not drop what its slots hold, which `assume_init_drop` does.
- **The code generator** (`codegen`, `generate_body`): a match expression,
  given as a model of its syntax (attributes, patterns and bodies as source
  text), becomes the source text of a block in which the scrutinee is moved
  into a `Vec`, each arm matches a borrowed slice of it with its bindings
  replaced by wildcards, and each arm body first takes the matched items out
  of the `Vec` with `VecExt` and binds them. Every arm is rendered by
  `VecArm::to_tokens` against that single `Vec`. Forms the generator does not
  handle, match guards, and slice patterns with two catch-all elements are
  reported as compile errors.

`app/main.rs` is the macro's entry point over `proc_macro2` token streams: it
converts `syn`'s syntax tree into the library's model and hands the result of
`make_match` back as tokens.
