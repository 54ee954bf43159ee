# webkit

Bindings to WebKit's `WKWebView` family through a Swift bridge, in two parts.

- `src/` is the verified library: the values the bridge exchanges with WebKit
  (cookies, downloads, navigation and UI events, URL-scheme requests and responses,
  web-extension records, permissions and flags), the raw codes of WebKit's enums,
  the rules that turn a bridge status and message into a `WebKitError`, the
  C-string form of text handed to the bridge, and the small state machines that
  drive multi-step bridge calls. Every function there carries a contract proved
  by Verus, except a few small wrappers around single std calls (`String::push`,
  `SystemTime::duration_since`, `Duration::as_secs`, and `BTreeMap::new`, `get`
  and `insert` on maps keyed by `String`), whose contracts are assumed from std's
  documentation; the laws that tie functions together (raw-value round trips,
  status/error round trips, history partitions, event accounting) are proof
  functions beside them.
- `app/` is ordinary Rust around it: the `extern "C"` declarations of the bridge,
  the handles to WebKit objects, JSON encoding and decoding with serde,
  callbacks, futures, and the values that hold floating-point numbers.

`tests/` exercises the library from outside.
