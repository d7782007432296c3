# murphy_rails

Rails-specific lint rules ("cops") over a Ruby syntax tree, written in Verus.
Each rule states, in its contract, exactly which offenses it reports for a
node of the tree and which edits correct them.

- `src/ast.rs`: the syntax tree (`SourceFile`, `Node`, `NodeKind`) with its
  well-formedness invariant and the queries the rules share.
- `src/text.rs`: string functions over `Seq<char>` and the few calls into std
  that Verus has no specification for.
- `src/report.rs`: offenses and edits, with their mathematical view.
- `src/cops/`: one module per rule; `index_method.rs` holds what
  `IndexBy` and `IndexWith` share.
- `tests/`: one file per rule, each running the rule over the trees of
  small Ruby sources and comparing offense marks and corrected sources;
  `laws.rs` checks the library's laws and helper functions on concrete values.
