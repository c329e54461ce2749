# rockford

The rules of a small Boulder Dash style game, verified with Verus.

- `src/` is the library: points and steps on the tile grid (`components`),
  Rockford's motion and animation state machines (`plugins::player_input`,
  `plugins::animation_state`), sprite animation playback controls and frame
  choice (`plugins::sprite_animation`), the sprite index sequences
  (`animate_sprites`, `resources`), map parsing and start-up tiles
  (`tile_map`), and the movement and digging rules over a `bevy_ecs_tilemap`
  tile storage (`plugins::movement`, `plugins::dig_tunnel`).
- `app/` is the Bevy program: it reads input, files and the ECS world, does the
  floating point work (positions, timers, playback time, collisions, rendering),
  and asks the library what to do.
- `tests/` runs the library on concrete values.
