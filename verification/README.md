# cargo_msrv

Finding, verifying, setting and showing the Minimum Supported Rust Version (MSRV) of a
Cargo crate, with the decisions of the tool proved correct by Verus.

- `src/` is the verified library: the release filtering, the bisection and linear searches
  (stated as state machines that the caller drives), the reading and editing of the MSRV keys
  of a Cargo manifest (over a model of the `toml_edit` document as a map from key paths to
  items), the parsing and printing of versions, progress values and the messages shown to a
  human reader (the box that `comfy-table` draws around a failed check's error is named, not
  spelled out, and so is the text `toml_edit` writes for a manifest). Calls into `toml_edit`, `bisector`, `rust-releases`, `semver`, `owo-colors`
  and `comfy-table` sit behind small trusted wrappers whose contracts are documented where
  they are declared.
- `app/` runs the library against the outside world: the `rustup` toolchain checks, reading
  and writing files, the event channel and progress bar, and the serde and error-message forms
  of the library's values.
- `tests/` exercises the library on concrete values.
