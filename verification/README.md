# fuser (verified core)

A FUSE userspace library whose decisions and encodings are verified with Verus.

- `src/` is the verified library: the wire layout of replies, notifications and
  directory listings (`abi`, `reply`, `notify`, `dirent`), the reading of request
  headers (`request`), request routing and the session's protocol state (`dispatch`,
  `session`), the `Filesystem` trait and the dispatch of each request to it
  (`filesystem`), the session loops as state machines (`event_loop`), the kernel
  connection's configuration (`data`), reply callbacks (`callback`), poll bookkeeping
  (`poll`), passthrough backing ids (`passthrough`), and the data containers handed
  back to the kernel (`byte_box`, `container`).
- `app/` holds what talks to the operating system: the FUSE device channel, mounting,
  the loops that drive the library's state machines, the notification queue, and
  serde copies of the library's data types.
- `tests/` exercises the library on concrete values.
