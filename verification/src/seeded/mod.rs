pub mod controller;
pub mod effects;
pub mod face_colors;
pub mod game_save;
pub mod game_state;
pub mod level_selector;
pub mod levels;
pub mod maze;
pub mod sound;
