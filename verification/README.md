# biome_service configuration

The configuration of `biome.json`, verified with Verus.

- `src/configuration/` holds the partial configuration (every option may be
  left unset) of each tool and language, how two configurations merge, how a
  configuration is extended by the files it lists in `extends`, how deprecated
  fields are migrated, the lookup of the configuration file, the loaded
  configuration and its diagnostics, and the decisions taken when a new
  configuration file is created or the VCS ignore file is read.
- `src/string_set.rs` is the ordered set of strings used by `extends` and the
  file patterns; `src/lines.rs` splits a text into lines; `src/laws.rs` states
  and proves the laws of extending and migrating.
- `app/` reads and writes the files: it searches the file system, parses and
  prints JSON with serde, and hands the library plain values.

## What the model leaves out

- Each section holds only the options that the configuration logic reads:
  - the formatter: `enabled` and the indentation (`indentSize`, `indentWidth`);
  - the linter: `enabled`, and of its rules only `recommended` and `all`;
  - the JavaScript, JSON and CSS sections: the indentation of their formatter;
  - import sorting: `enabled`;
  - the VCS integration and `files`, in full.
- The `overrides` section is not modelled.
- `files.maxSize` is a `u64` in the library. Zero is refused only when the file
  is read in `app/`, which parses it as a non-zero number.
- `app/` ignores keys that the model does not know, where a full schema would
  reject unknown keys.
- `app/` writes configuration files as serde's pretty JSON.
