# rumqttc

The session state of an MQTT 3.1.1 client, verified with Verus.

- `src/mqttbytes.rs`, `src/event.rs`, `src/notice.rs`, `src/error.rs`: the packets, events,
  requests, notices and errors that go in and out of the state.
- `src/model.rs`: the mathematical model, `Session`, and what each step does to it.
- `src/state.rs`: `MqttState`, the executable state, proved against the model.
- `src/laws.rs`: laws of the model, such as that no notice is ever lost.
- `src/std_ext.rs`: what is believed, not proved, of the standard library.
- `app/`: the state with channels for the notices and printable errors. Not verified.

`MqttState` performs no I/O. The owner writes the packets it returns to the network, passes
`events` on to the user, and delivers what stands in `notices`.
