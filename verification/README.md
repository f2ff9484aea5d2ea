# ascot

A verified library for smart home devices and the controllers that drive
them. Devices describe their routes (`REST` APIs that run a task) together
with the hazards each route may cause and the inputs it takes; controllers
turn those descriptions into requests and decide, through a privacy policy,
which requests they may send.

Every function of `src/` is verified with Verus against its contract, but
for the few wrappers in `src/esp.rs` that call into the `heapless` vector:
their contracts restate what that crate's source shows and are trusted, not
proved.

## Layout

- `src/hazards.rs`, `src/input.rs`: hazards and route inputs, as ordered
  collections without repetitions.
- `src/route.rs`: server routes, their inputs joined into the route, and
  route configurations; `src/stack.rs`: the route descriptions exchanged
  between devices and controllers.
- `src/action.rs`, `src/device.rs`, `src/server.rs`, `src/service.rs`: device
  actions, devices and lights, the server settings and the `mDNS` service
  description.
- `src/device_actions.rs`, `src/esp.rs`: devices served over HTTP and devices
  running on a board with a bounded number of actions (held in a
  `heapless` vector).
- `src/controller.rs` and `src/controller/`: the controller, its privacy
  policy, the request senders of each device and the parameters of a
  request.
- `src/camera.rs`, `src/error.rs`, `src/actions.rs`: camera selection and
  error values.
- `app/`: the light server program and the network code around the library
  (`axum`, `mdns-sd`, `reqwest`).
