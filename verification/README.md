# mysqlclient_sys

Native-library configuration for the MySQL / MariaDB client library, verified with Verus.

- `src/text.rs` — whitespace trimming, substring search, prefix tests and decimal parsing over
  characters, each against a short specification.
- `src/helper.rs` — the version number that an installed client's headers announce, the
  include-directory header paths, and the answers of `mysql_config`.
- `src/ssl_mode.rs` — the SSL modes of the client API and their numeric codes.
- `src/version.rs` — the client library lines the crate knows, how a version string names one,
  and which bundled bindings fit a version and a target.
- `src/link.rs` — the environment settings of the build, the order in which it asks for the
  library, and the link directives derived from the answers.
- `src/bindings.rs` — the setup of the bindings generator and the search for include directories.
- `app/lib.rs` — the input/output around the library: files, environment, processes,
  `pkg-config`, `vcpkg` and `bindgen`.
