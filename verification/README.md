# bevy_sync

Synchronisation of entities, components and assets between a host and its
clients, for bevy applications: entities are identified by UUIDs, registered
components and assets follow every change, parents follow their children,
and a client can take over the host role.

The crate is split in two.

- `src/` is the library, verified with Verus. It holds every decision of the
  protocol as plain values: the tracker of synced entities and pending
  changes (`tracker`), how the host and a client answer each message and
  connection event (`server`, `client`, as lists of `Action`s from
  `reaction`), what a joining peer is sent (`initial_sync`), the asset web
  channel's URLs, routing and caches (`assets`), and the wire pieces of
  images, meshes and texture formats (`image`, `mesh`, `texture_format`).
  `laws` states the properties that span several calls, such as that a value
  applied from the network is never sent back.
- `app/` is the bevy plugin around it: systems that turn world changes and
  network traffic into calls of the library and carry out the actions it
  returns, the renet and HTTP transports, and reflection-based serialisation.

`tests/` exercises the library, including whole host/client sessions driven
through its functions.
