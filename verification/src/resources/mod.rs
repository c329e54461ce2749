pub mod sprite_sequences_resource;
