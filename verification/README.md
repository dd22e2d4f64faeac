# bass-sys

Bindings to the BASS 2.4 audio library.

- `src/` is the verified library (Verus):
  - `types.rs`: the plain records of the C interface (`BASS_INFO`,
    `BASS_RECORDINFO`, `WAVEFORMATEX`, `BASS_DX8_GARGLE`) with proved
    constructors and defaults;
  - `onecell.rs`: the set-once cells of `once_cell`, with the contracts this
    library relies on;
  - `loader.rs`: the choice of library file name and search directories,
    their fallbacks, and the choice of the file to load, with the laws that
    govern them.
- `app/` holds the C layouts of all records, the process-wide settings, the
  loading of the shared library through `libloading`, and the function
  bindings.
- `tests/` exercises the library.
