# ds4_metal

A batch scope for a Metal inference engine, in Verus. A scope checks the shapes
of every operation it is given and records what the device is to do; the
recording is carried out afterwards, as one submission unless the caller splits
it.

- `src/` is the verified library. `trace` is the model that all contracts speak
  of: every operation of `scope::BatchScope` is a function from one `Trace` to
  the next, and the executable code is proved to compute it. `laws`, `rows` and
  `streaming` hold what relates several operations: submissions and buffers,
  several positions next to one, and the streamed experts.
  - `command`, `kernel`, `config`, `error`, `pool`, `arith`: what recordings are
    made of.
  - `scope`, `dispatcher`, `drain`: opening, committing, waiting, reading back.
  - `matmul`, `norm`, `hc`, `attention`, `indexer`, `compress`, `router`, `moe`,
    `shared`: single operations.
  - `layer`, `ffn`, `mtp`: chains of operations, up to whole layers, the drafter
    and the verifier of drafts.
  - `f16`: half-precision bit patterns.
- `tests/` runs the library on concrete shapes.
- `app/` plays recordings on a device, with the `metal` crate on macOS, and reads
  the switches from the environment.

Numbers are single-precision bit patterns throughout: the library computes none
of the floating-point results.
