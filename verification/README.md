# kitsune2_transport_iroh

A kitsune2 transport over iroh connections. What the transport computes and decides is a library
verified with Verus; the sockets, tasks and handlers around it are ordinary Rust.

* `src/` is the library.
  * `frame`, `url`, `error`, `config`, `text`: frames, URLs, errors, the configuration, text.
  * `connection_context`, `frame_send`, `incoming`, `connection_reader`: the state of a connection,
    and how frames are sent and streams are read on it.
  * `outgoing`, `startup`, `peer_map`, `transport`: how messages are sent, how the transport starts
    and stays reachable, and its connections.
  * `outside`: the calls into other crates, with what is believed of them.
  * `laws`: what holds of the library as a whole.
* `tests/` runs the library on given values.
* `app/` implements the transport traits of kitsune2 with iroh and tokio.

Where the work alternates between deciding and doing, the library is a machine: it is handed an
event and says what to do next. Each machine states in a specification function what an event makes
of its state, and its `step` is proved to do just that.
