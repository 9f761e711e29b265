# rodio_experiments

Audio sources, their combinators and their effects, with the logic proved
correct by Verus.

A source yields interleaved samples. Three kinds are offered:

- `const_source::ConstSource`: sample rate and channel count fixed at compile
  time (`SR`, `CH`);
- `fixed_source::FixedSource`: sample rate and channel count chosen at run
  time and then fixed;
- `dynamic_source::DynamicSource`: parameters that may change where a span
  ends.

Each is modelled by the samples it still yields (`remaining`), the duration
it reports (`duration`, in nanoseconds) and, for the run time kinds, its
parameters. Every operation states what it does to that model.

## Layout

- `src/` the verified library:
  - `duration` durations in nanoseconds and the calls into `std::time::Duration`;
  - `common` keys, the shared state of mixer and queue handles, and how
    scheduled additions and removals are applied;
  - `const_source` buffers, lists of sources, playing them one after another
    (`queued`, `queue`, `chain`), at once (`mixed`, `mixer`), or side by side
    as channels (`route_channels`);
  - `fixed_source` buffers, mixing fixed sources after checking their
    parameters, and turning fixed sources into const ones;
  - `dynamic_source`, `dynamic_source_ext` sources with spans;
  - `effects` effects that move samples without computing on them: taking a
    number of samples or a span of time, stopping, pausing, tracking the
    position, carrying data; and the choices of the floating point effects
    (dither algorithm, fade scale).
- `tests/` tests of the library.
- `app/` what runs around it: the floating point effects, the thread-safe
  mixer and queue handles, error messages, and the bridge to rodio.

Samples are a type parameter of the library; the floating point sample type
and everything that computes with it live in `app/`.
