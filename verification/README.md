# langserver

A language server for algorithms: it starts an algorithm's `bin/pipe`
runner, turns HTTP requests into request lines on the runner's stdin, reads
the answers from the `/tmp/algoout` FIFO, and sends them back (at once, or
to a notification URL when running asynchronously).

- `src/` is the verified library: the runner's state (`runner`), the
  messages (`message`, `error`), the server's routing and input building
  (`server`), notifications (`notifier`), the pipe side of the protocol
  (`pipe`, `rustc_pipe`, `dynamic_runner`), the default algorithms (`algorithm`,
  `template`), and the encodings it relies on (`codec`, `text`).
- `app/` is the program: the HTTP server, the runner process and its pipes,
  threads, and JSON serialization.
- `tests/` exercises the library.
