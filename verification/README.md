# lang_frontend

The front end of a small compiled language, written in Verus: the token model, the
diagnostics, the syntax tree, a recursive-descent parser and the type and variable
resolvers. Every function of the library is verified against its contract.

Layout:

- `src/token.rs`: token kinds and payloads, positions.
- `src/diagnostic.rs`: error messages and diagnostics.
- `src/ast.rs`: the syntax tree and its list type. The parser gives each variable use and
  each declaration a node id, by which the variable resolver records what it finds.
- `src/parser/mod.rs`: the parser state and the operations on the token stream that the
  rules share; `src/parser/rules/`: one module per grammar rule. Each rule is specified
  by a spec function from the tokens and a parser state to the rule's result and the next
  state, and the executable rule returns exactly that.
- `src/resolver/mod.rs`: the type arena, which interns resolved types, and the symbol
  table; `type_resolver.rs` and `var_resolver.rs`: the two resolution passes over a scope;
  `laws.rs`: the properties that hold across calls (interning, distinct ids for
  distinct types, consistency of the arena, resolving a type twice changes nothing, names
  entered by the type resolution, unknown type names reported once).
- `tests/`: tests of the rules and the resolvers.
