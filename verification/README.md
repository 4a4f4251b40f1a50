# freertos_rust

Stream buffers and message buffers of a FreeRTOS kernel, with the decisions
around the kernel's calls verified in Verus.

- `src/` is the library. A buffer is a record of a kernel buffer and of the tasks
  that are sending and receiving. Its functions take what the kernel reported and
  say what to do next: sleep for one polling period, hand a request to the kernel,
  or return. `turn` decides who may use a side of a buffer and how long it may
  still wait; `transfer` keeps the progress of long transfers; `stream_buffer` and
  `message_buffer` are the two kinds of buffer; `exclusion`, `fifo` and
  `stream_laws` hold what is proved of histories of calls.
- `app/` calls the kernel: it performs each step that the library asks for and
  reports back.
- `tests/` runs the library against a small kernel of its own.

The library declares no trusted items: every function's contract is proved.
