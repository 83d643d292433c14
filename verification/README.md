# mini_ecs

A small entity–component–system engine whose core is verified with Verus.

- `src/` — the verified library:
  - `entity.rs`: entity handles;
  - `component.rs`: `SparseSet<T>`, component storage indexed by entity id,
    with its well-formedness, its map view and the swap-remove deletion;
  - `world.rs`: the entity counter of a world and the choice of the shortest
    entity list that a query walks;
  - `input.rs`: held / just-pressed / just-released state of keys and mouse
    buttons;
  - `engine.rs`: the engine's ordered system lists, the frame buffer, and the
    event-loop decisions (`runner_step`) as a function from phase and event to
    next phase and commands.
- `app/` — plain Rust around it: the type-indexed component and resource
  registry (`TypeId` and `Any` downcasts), queries, the device input resource
  with its floating-point cursor and scroll state, and the winit/softbuffer
  event loop that carries out the commands of `runner_step`.
- `tests/` — tests of the library.
