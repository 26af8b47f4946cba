pub mod direction;
pub mod timer;
pub mod movement;
pub mod player;
pub mod animation;
pub mod collision;
pub mod components;
