# datachannel_facade

One WebRTC data-channel API over libdatachannel natively and the browser
on wasm. The decisions between the caller and each backend are verified
by Verus; what is left outside is the plumbing to the live browser and
libdatachannel objects.

* `src/` — the verified library: splitting libdatachannel-style ICE server
  URLs (`ice`), the facade configuration and its native-only options
  (`Configuration`, `platform::native`), what each backend is handed
  (`sys`), and the browser backend's decisions (`web`): names of browser
  enum values, descriptions, data channel options, and the
  `set_local_description` task that bends the browser's Promises into
  libdatachannel's synchronous shape.
* `app/` — the live connection objects: the libdatachannel and browser
  drivers, which hold the handles and callbacks and ask the library for
  its decisions. They still test, on their own, whether a message event
  carries binary data, and set a browser ICE server's username and
  credential only when present.
* `tests/` — tests of the library on concrete values.
