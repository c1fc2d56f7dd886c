# atmos

The front end of a compiler for the small Atmos language, written in Verus.

- `src/` is the verified library: the lexer (`lexer`), the parser (`parser`),
  name resolution (`resolver`), lowering of the syntax tree to a resolved tree
  (`ast_lowerer`), building blocks for type inference (`type_checker`:
  lowering of written types, unification, resolution of inference variables,
  substitution of generic parameters and how types are written in messages),
  the flat forms of the trees that the compiler prints (`public`), the session
  that collects errors (`session`), and `compile_source`, which runs the
  stages in turn.
- Expressions are not type-checked: `compile_source` lexes, parses, resolves
  names and lowers, and no stage walks the expressions of a crate to infer or
  check their types. The pieces under `type_checker` stand on their own and
  are not run by `compile_source`, so a source with a type error compiles
  without an error.
- The contracts state what each stage makes of its input: `lexer::grammar`
  says which tokens a text is made of, `ast_lowerer::lowering` what each node
  of the syntax tree lowers to, `parser::forms` which form a construct takes
  from its first token.
- `tests/` holds the tests of the library.
- `app/` is the `atmos` command: it reads a source file, compiles it, renders
  the errors against the source text and prints the stages asked for with
  `--emit tokens,ast,hir` as JSON.
