# nanavts-spout (verified core)

NanaVTS-focused Spout sender output. The crate exposes only the sender
backends NanaVTS needs: CPU pixel output through Spout's DirectX 11 path, the
experimental DirectX 12 GPU path through Spout's D3D11On12 bridge, and a
direct DirectX 11 texture sender.

## Layout

- `src/` — the library, verified with Verus.
  - `error.rs` — `SpoutOutputError` and its messages.
  - `types.rs` — formats, frames, publish reports, statuses, backend status.
  - `util.rs` — frame geometry checks, sender-name C strings, native string
    decoding, timer helpers.
  - `wrapped_cache.rs` — the recently-used cache of wrapped D3D12 resources,
    with its laws (capacity, distinct keys, least-recently-used eviction,
    read after write).
  - `native.rs` — plain values describing what the native Spout shim did.
  - `state.rs` — the sender state the contracts speak of.
  - `cpu_dx11.rs`, `gpu_dx12.rs`, `gpu_dx11.rs` — the senders.
  - `backend.rs` — the `SpoutSenderBackend` interface.
- `tests/` — tests of the library.
- `app/` — what the verified core cannot carry: `Display`/`Error` for the
  error type, statuses with the measured frame rate, and the Windows drivers
  that run the native shim around the senders' steps.

## Senders and the native runtime

A sender never calls the native Spout runtime itself. Each operation that
surrounds a native call is split into verified steps: a step decides what the
native side must do (or ends the operation), the owner of the native handle
performs the call, and the next step takes the native result as an argument.
This build links no native runtime, so the constructors that would open one
report `UnsupportedPlatform`, as on any target without Spout.
