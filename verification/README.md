# Script-mode runtime helpers, verified

The library in `src/` holds what script mode decides and computes:

- `lists`: extension traits on slices and `Vec`s (element access, mapping,
  filtering, slicing, sorting, shuffling, in-place removal), with contracts
  over the sequence view of each collection;
- `numbers`: a linear congruential generator that its caller holds, and the
  index and integer draws made from it;
- `order`: the order that `PartialOrd` and `Ord` give, used by the sorts;
- `truthy`: when a script value counts as true in a condition;
- `strings`: the `ScriptStrExt` text methods (first and last character,
  reverse, byte length, case conversion, search and substitution);
- `inject`: the plan of the items that script mode injects into a script
  (helper macros, the string, list, truthiness and `Val` helpers, math
  constants), and where each identifier of a helper macro resolves;
- `tokens`: the tokens of each helper macro's rules, each with the site it
  resolves at;
- `sources`: the Rust source text of the other injected items, written out
  from the plan in `inject`;
- `script`: shebang detection on source text;
- `crates`: the plan of which external crates script mode provides from the
  file names of the sysroot's library directory;
- `signature_hash`: the type hash of a function signature from the renderings
  of its types;
- `text`: character-sequence helpers that the others use.

`app/` holds what stands around it: thread-local state, floating point,
file system access, the `exit` helper, and the conversion of the library's
tokens and source text into the compiler's own syntax types.
