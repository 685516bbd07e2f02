# alya

The front end and build planning of the Alya compiler, written in Verus:
every function of the library carries a contract that Verus proves.

## Layout

- `src/lexer/` — source text to tokens. `tokenize` is proved to produce
  exactly `lex_from`, a specification of the token grammar with the line
  and column of every token, or the exact message of the first lexical
  error. `messages.rs` proves that every such message names a position
  that the diagnostics find again.
- `src/parser/` — tokens to statements. `grammar.rs` and `expr.rs` hold the
  grammar as specification functions (`p_program` and what it calls); the
  executable parser in `stmt/` and `expr.rs` is proved to return exactly
  what they give, including the text of every error and the token whose
  position it reports. `imports.rs`, `resolve.rs` and `source.rs` cover
  module aliases, duplicate functions and import resolution, the last as a
  state machine that asks its caller for each imported module.
  `placeholders.rs` proves that the parts of an interpolated string join
  back into the string. `defaults.rs` adds default parameter values
  (`function greet(name, greeting = "Hello")`) to every call that leaves
  the trailing arguments out, as the parser's tests ask.
- `src/diagnostics/` — locating the position clause of an error message and
  rendering it against the source, with the laws that tie it to the lexer
  and the parser.
- `src/driver.rs` — command-line requests and the arguments handed to the C
  compiler and linker.
- `src/codegen/runtime/` — the assembly text of the runtime support
  routines for each target; what is appended never depends on the text
  before it.
- `app/main.rs` — the command-line program: file access, the import
  resolver's file lookups and process handling.

## Design notes

- Sets of names (the functions seen by the duplicate check, a module's
  own functions, the modules already merged, the libraries a C build
  provides) are `Vec`s kept free of duplicates: a `HashSet` of strings
  has no specification of its lookups that a proof could use.
- Number tokens keep their source text; floating point stays out of the
  library.
- Outside the library: code generation, the embedded standard library
  modules and building C sources are not part of it; `app/` stops after
  checking a program and resolving its imports.

## Checking

The library is verified by Verus; the tests under `tests/` run it on
concrete programs.
