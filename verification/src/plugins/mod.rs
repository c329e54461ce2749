pub mod animation_state;
pub mod dig_tunnel;
pub mod movement;
pub mod player_input;
pub mod sprite_animation;
