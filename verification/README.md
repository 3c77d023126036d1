# game_of_life_sim

Control logic of a GPU Game of Life, verified with Verus.

- `src/grid.rs`: the grid and work-group sizes, the compute dispatch that
  tiles the grid exactly, and the ping-pong schedule of the two cell textures.
- `src/control.rs`: the per-frame state machine (input events, generation
  count, frame-rate window, drawing strokes) and the laws over runs of frames
  and events.
- `src/launch.rs`: the device and window settings asked for at start-up, and
  the log line of a start-up or run failure.
- `app/`: the window, GPU and event-loop side, which turns the library's
  decisions into `glass`/`wgpu` calls and does the floating-point work
  (canvas coordinates, camera projection, frame timing).
