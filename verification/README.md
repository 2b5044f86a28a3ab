# dyingstar_plugins

Server plugins of DyingStar for the Horizon event system: player
management over GORC channels, authentication, a bridge to the game server,
props, and generic props whose properties a definition places into
replication zones.

- `src/` is the library, verified with Verus: request validation and the
  authentication and ownership checks of the player plugin's handlers, chat
  routing, the player registry, the announcement of new players,
  game-server message routing, props decisions, and the zone placement of
  generic props, each with its contract, and the laws that relate them.
- `tests/` exercises the library on concrete values.
- `app/` is the plugin glue the event system loads: wire formats (serde),
  handler registration, async tasks, WebSocket and HTTP clients, and the
  float-valued mechanics (distances, damage, movement bounds, replication
  layers), and the choice between creating and updating a generic prop.

A generic prop's data and a definition's property index are kept in
`PropertyMap`, a list of name–value entries whose mapping is proved (later
entries win). It stands where a `serde_json::Map` of zone data and a
`HashMap<String, u8>` index would: the JSON types cannot be used in verified
code, and a map keyed by `String` has no usable specification. app/ turns
JSON objects into entry lists and back.
