# match_events

A verified library for a live football match feed, written in Verus.

- `src/event.rs`: the event kinds, how a drawn number picks a kind, their descriptions.
- `src/message.rs`: the message a producer publishes, and how a made-up one is built.
- `src/subscriber.rs`: a subscriber to Redis channels.
- `src/decimal.rs`: decimal writing and reading of numbers, with their round trip.
- `src/service.rs`: the port setting, the analytics report, the consumer's name.
- `src/registry.rs`: the connected websocket clients.
- `src/session.rs`: the decisions of a websocket client's session, and its laws.

`app/` runs the services (producer, consumer, websocket, state manager) around
the library: the RabbitMQ, Redis and websocket I/O and the JSON encoding.
