# pegainfer_kernels

Host-side rules of a library of CUDA kernels for language model inference: which
kernel calls are accepted, what each accepted call is launched with, and why each
other call is refused.

- `src/` is the verified library. Tensors are described by their logical shape and
  by the number of elements that back them (`shape`), paged caches by their layout
  (`paged_kv`), streams and call metadata in `tensor`. Under `ops` every operation
  states, as a list of conditions in the order in which they are checked, when a
  call is refused and with which error, and otherwise the C arguments of the launch.
  The laws say what an accepted call may rely on: that a kernel stays inside its
  buffers, that plans tile their requests, that a refilled plan is a fresh one.
- `app/` allocates device memory, calls the kernel library and the driver, and keeps
  the thread's stream override and the process-wide numeric policy.
- `tests/` runs the library on concrete values.

Floating-point scalars cross the library as their bit patterns (`float_bits`).
