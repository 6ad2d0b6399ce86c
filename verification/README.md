# vhdl_parser search

Searching the syntax tree of VHDL design files, verified with Verus.

A search walks a part of the tree in a fixed order and asks a *searcher*, at
each hook it passes (a declaration, the position of a declared name, a
reference, the position of a part of the tree, the file of a design unit),
whether to go on or to stop with a result. Two searchers come with the
library: `ItemAtCursor`, which finds the declaration that the item under a
cursor is or refers to, and `FindAllReferences`, which collects every
position that declares or refers to a declaration.

Layout of `src/`:

- `source.rs`: positions, source files, spans, and items with a position or
  a reference.
- `ast.rs`: the parts of the syntax tree that searching walks through.
- `search.rs`: search results, the `Searcher` and `Search` traits, and the
  plans that describe what a search does (`Plan`, `run`, `visits`).
- `walk_expr.rs`, `walk_decl.rs`, `walk_unit.rs`: the plan of each kind of
  tree node, and the search of it, proved to do what its plan says.
- `searchable.rs`: `Search` for each kind of node.
- `cursor.rs`, `references.rs`: the two searchers, and what is proved of
  them.
