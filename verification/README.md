# kdb_plugin

A kdb+ plugin that publishes q objects to NATS (core NATS and JetStream) and
delivers the messages of a JetStream stream to a q function. What the plugin
decides is a library written and verified in Verus; what it does to the outside
world is a thin layer of ordinary Rust around it.

- `src/`: the library. Each q function is a step from the plugin's state and its
  arguments to the next state and what to do next; the outcome of outside work
  comes back as an argument of the following step.
  - `plugin`: the state kept for the life of the process
  - `value`, `refusal`, `abort`, `console`, `text`: arguments, q errors, fatal
    errors, printed lines, numbers
  - `connection`: `nats_connect` and the shared client
  - `jetstream`: `jetstream_init`
  - `publish`: the four publishing functions
  - `acks`: the queue of acknowledgements, `nats_set_flush_size`, `nats_flush`
  - `policy`, `subscribe`, `consumer`, `handler`: `nats_subscribe`, the consumer
    thread, and delivery on q's main thread
  - `outside`: what is taken over from other crates without proof
  - `laws`: what holds over whole runs
- `app/`: the functions that q loads with `2:`, the NATS client, the pipe and the
  threads.
- `tests/`: the library on concrete values.
