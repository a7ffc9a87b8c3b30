# video_interop

Contracts for sharing video frames between processes and GPU APIs, verified with Verus.

A frame is bytes or a DMA-BUF descriptor with geometry and acquire synchronization. The library
checks frames and formats, duplicates what they borrow, decides how DMA-BUFs are imported into
Vulkan, keeps the bounded caches and pools of an importer, plans every command and every step of the
synchronization, selects EGL native-fence entry points, and orders the messages that release leases.

## Layout

- `src/` is the library. Everything in it is verified. It makes no system call: where a file
  descriptor is duplicated or a device asked, a step function takes the answer and says what follows.
  - `dmabuf`, `frame`, `format`, `geometry`, `modifier`, `sync_file`: frames and formats, and when
    they are valid.
  - `probe`: the identity and the size of a DMA-BUF.
  - `schema`: how modifiers are written in messages.
  - `egl`: entry points, their arguments and their results.
  - `dispatcher`: leases, guards and the dispatcher of their messages.
  - `vulkan`: layouts, capabilities, caches, pools, resources, commands and synchronization.
  - `error`, `text`: diagnostics.
- `app/` makes the calls: `libc`, EGL, `ash` and `rustler`.
- `tests/` runs the library on concrete values.

## What is trusted

The name of a Vulkan result code in diagnostics is what `ash` writes for it. `std::io::Error` is
carried through unopened. Nothing else is taken without proof.
