//! Core game logic of a Diablo engine: menus, help screen, load-screen
//! progress, sound-effect bookkeeping, floating damage numbers and the
//! game-mode flags, each with machine-checked contracts.

pub mod numeric;
pub mod game_mode_state;
pub mod gmenu;
pub mod gamemenu;
pub mod help;
pub mod clock;
pub mod interfac;
pub mod strings;
pub mod random;
pub mod effects;
pub mod hwcursor;
pub mod game_mode;
pub mod init;
pub mod types;
pub mod combat_system;
pub mod floatingnumbers;
pub mod levels;
pub mod player;
pub mod game_state;
pub mod tileset;
pub mod game_loop;
pub mod hud;
pub mod objdat;
pub mod objects;
pub mod dungeon_level;
pub mod input;
