# korangar

Verified pieces of the Korangar client.

- `src/effect_renderer.rs`: the bind group layout, bind group, pipeline,
  push constant block and draw call of the deferred effect renderer, as plain
  values, with proofs that the bind group fills the layout and that the push
  constant write stays in the declared range.
- `src/interface/`: windows as plain values and the friend request window.
- `src/entity_roster.rs`: the entities on the current map, with the player
  first.
- `app/`: the effect renderer on a wgpu device, and a program that draws one
  effect quad offscreen.
