# safemesh_binding

The decisions of the SafeMesh Python and WebAssembly bindings, verified with
Verus. The CRDT values, records and event logs are the SafeMesh core's; this
library decides what the bindings do with the core's results:

- `wire`, `wasm`, `python`: which error code and text every core failure
  becomes on each host, and the verdict names a merge reports;
- `allocation`, `identity`, `registry`: the allocated-writer rules of the
  string OR-Set replica (complete local history, next sequence, token check,
  incoming records, identity storage, one live writer per author);
- `envelope`, `managed`: the managed G-Counter's persisted envelope and the
  state machine of its store handle (revisions, failed commits, close);
- `version`, `record`, `readings`, `text`: record listings and peer versions
  as flat pairs, decoded record fields, register readings and decimal text.

`app/` holds the PyO3 and wasm-bindgen classes that call the core and hand
its results to the library.
