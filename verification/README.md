# aglais_xqvm

The toolchain core of the XQVM bytecode machine (binary codec, assemblers,
disassembler, builder, pre-execution verifier), written in Verus: every
public function of the library under `src/` carries a `requires`/`ensures`
contract, and Verus proves every function of it.

* `src/` — the verified library; `src/lib.rs` lists the modules.
* `tests/` — tests of the library on concrete inputs.
* `app/` — `xquad`, a command-line driver (`asm`, `dism`, `verify`) that
  does the file I/O and error rendering around the library.

Notable proved properties:

* decoding the encoding of an instruction gives it back, and every
  successful decode is the encoding of what it returned
  (`bytecode::codec`);
* the wire formats of jump tables and programs round-trip
  (`bytecode::jump_table`, `bytecode::program`);
* the code the builder emits decodes to its resolved items, and its jump
  table sends every placed label's id to that label's `TARGET`
  (`bytecode::resolution`);
* the one-pass scan accepts exactly the programs the three separate
  structural, jump-target and loop-nesting checks accept
  (`xqvm::checker`);
* the letter case of mnemonics does not change what a source text
  assembles to (`assembly::letter_case`, `xqasm`);
* the assemblers, the disassembler and the verifier compute exactly the
  functions their specifications define.
