//! The rules and the pixel work of a small raycasting shooter: maps read from
//! text, what stops rays and bullets, the software framebuffer the world is
//! drawn into, menus, and the round's weapon and bomb-site state.

pub mod color;
pub mod framebuffer;
pub mod helpers;
pub mod interface;
pub mod map;
pub mod maze;
pub mod player;
pub mod world_textures;
