# igd

The verified core of a UPnP Internet Gateway Device client.

- `src/` is the library, verified with Verus: the error types with their
  conversions and messages (`errors`), IP and socket addresses with their
  text (`net`, `text`), parsed URLs (`uri`), the anti-spoofing checks of
  gateway discovery (`search`), the targets and status checks of the HTTP
  requests discovery makes (`aio::search`), SOAP requests (`aio::soap`) and
  random ports (`common`).
- `app/` holds the I/O around it: sockets, HTTP requests, timeouts.
- `tests/` runs the library on concrete values.
