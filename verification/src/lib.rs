pub mod decimal;
pub mod effects;
pub mod game_save;
pub mod game_state;
pub mod is_room_junction;
pub mod level_selector;
pub mod levels;
pub mod load_level_asset;
pub mod maze;
pub mod menu;
pub mod play_statistics;
pub mod player_path;
pub mod seeded;
pub mod shape;
pub mod sound;
pub mod victory;
