# vhost_devices

Device-side logic of vhost-user backends for virtual machines, proved with Verus.

- `src/` decides: how messages are framed, checked and carried between a frontend's
  socket and the guest's queues, what a request of the frontend calls for, which
  ranges of memory are taken, how events are worked off, what the configuration
  space holds, and how operations on a raw file are queued. Input and output are
  not done here; a function says what to do next, and takes the outcome.
- `app/` does the input and output: queues, sockets, descriptors, rings.
- `tests/` runs the library on concrete values.

Every public function has a contract; the one method of `VirtioTransport` is left to
those who implement that trait. Public proof functions named `law_...` state
what holds across functions. What is believed of other crates without proof stands
in functions marked `external_body`, each with a comment that says what it claims.
