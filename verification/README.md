# crossbus

An actor computing model that needs no particular runtime or platform.

`src/` is the library, written and proved with Verus.  It holds the
decisions of the model as plain values with contracts:

- `queue`: the first-in first-out message queue;
- `address`: the pack behind a channel (queue, state, senders, capacity)
  and the `Sender`, `Receiver` and `Addr` handles that share it under a
  lock;
- `actor`: actor states, handles and the future adapter;
- `blocker`, `delayer`, `stream`, `message`: the life cycles of blocking
  routines, delayed deliveries and streams, as step functions;
- `context`: the context of an actor and its runner, with the steps of the
  runner's rounds;
- `reactor`: the order queue and rounds of the reactor, and the poll budget;
- `register`: the register of actors.

`app/` is the runtime side: the traits that actors implement, the futures
that poll routines and follow the library's decisions, the global reactor
and register, channel handles that wake their receiver, and runtimes for
tokio, async-std and wasm.

`tests/` exercises the library on concrete values.
