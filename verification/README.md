# alas_launcher

The logic of a desktop launcher that prepares a local web backend, starts it
and shows it in a webview window. The library is verified with Verus.

- `src/` holds the library: command-line flags, addresses, the login without a
  password, the startup and the life of the launcher, the main window, and the
  pages and scripts that the webview shows. Every function states what it
  returns, and the laws that relate several functions are proved next to them.
- `tests/` runs the library on concrete values, with the real outside crates.
- `app/` is the shell around it: windows, the tray, sockets, files and the
  backend process. It carries out what the library decides.

The outside calls that proofs rest on are the items marked
`external_body` and `assume_specification`; each names the outside function and
says what is claimed of it.
