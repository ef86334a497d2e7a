# aria_parser

The syntax tree of the Aria language, the source buffers that its nodes point
into, and the bookkeeping of its test runner, written in Verus with every
library function proved against its contract.

- `src/text.rs`: byte-level facts about UTF-8 text (lines, line feeds,
  splitting on a separator) and the slicing of strings at character
  boundaries.
- `src/ast/`: the node types (`mod.rs`), source buffers and pointers
  (`source.rs`), locations from the parser generator (`location.rs`), import
  paths (`import_path.rs`), expressions and how a call is recognised in one
  (`expression.rs`), statement and declaration helpers (`nodes.rs`), the
  conversions between node kinds (`conversions.rs`), and the copying of nodes
  (`duplicate/`).
- `src/suite.rs`: the report of a test run, with its sorting, its failure
  records and the lines that it prints.
- `app/`: the test runner program; it reads files, runs the compiler and the
  virtual machine of the language over them, and prints the report.
- `tests/`: tests of the library on concrete values.
