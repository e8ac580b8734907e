# bevy_persist

Persistence of application resources, verified with Verus.

- `src/` is the library.  It holds the data model of persistence files
  (`data`), a string-keyed map with distinct keys (`string_map`), errors
  (`error`), persistence modes and resource attributes (`mode`), file and
  key naming (`paths`, `storage`, `text`), the sealing of secure save data
  with Argon2 and AES-256-GCM or base64 (`secure`), the manager and its
  per-type configuration (`manager`), the plugin configuration (`plugin`),
  and the decisions of the save and load systems (`system`).  Calls into
  other crates stand behind small trusted wrappers whose contracts are
  documented where they are declared.
- `app/` is the Bevy plugin and systems, the file-system storage, and the
  JSON and RON serialization of the data model; it performs the reading,
  writing and serializing that the library's functions ask for.
- `tests/` exercises the library on concrete values.
