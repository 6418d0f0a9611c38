# troll

Troll lists the global variables of an ELF binary from its DWARF debugging
information, in the manner of `fromelf`: for each variable and each of its
parts (members, elements) the address, the size, the full name and the
type.

```
address    size  variable_name        type
0x00004060 0x030 hoges                Hoge[2]
0x00004060 0x010 hoges[0]             Hoge
0x00004060 0x004 hoges[0].hoge        int
0x00004064 0x001 hoges[0].hogehoge    char
...
```

## Layout

- `src/` is the library, verified with Verus:
  - `library/dwarf.rs`: the debugging information entries of an ELF file:
    its DWARF sections (through `object`), the raw entries of each unit and
    the evaluation of each variable's location (through `gimli`), and the
    trees built from them.
  - `domain/`: the type entries, variable declarations and global variables
    made from the entries (`entry_factory`, `global_variables_extractor`),
    and the views that place every part of a global variable
    (`global_variable_view_factory`), with the laws of that placement, and
    the warnings about missing entries (`global_variable_view_warnings`).
  - `infrastructure/fromelf/stdout.rs`: the listing, as text.
  - `usecase/dump_global_variables.rs`: from the bytes of an ELF file to
    the views and the warnings.
- `app/main.rs` maps the file (with `memmap`), hands its bytes to the
  library, logs the warnings and prints the listing.
- `tests/` holds the tests.
