# zipline_upload

The logic of a Zipline uploader — a tool that sends files to a Zipline server from the
file manager, a small window or the terminal — as a library verified with Verus, and a
thin program around it.

- `src/` is the verified library: the `.sxcu` configuration and its authorization, the
  saved settings and the upload headers they produce, the extension allowlist, the window's
  upload options and state, the shortening endpoint and request body, how server replies
  are read, command-line parsing, notification and log texts, and the desktop entries.
- `app/` reads and writes files, talks to the server, runs the window and the notifications,
  and hands plain values to the library.
- `tests/` runs the library on concrete inputs.
