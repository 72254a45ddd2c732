//! DevPet: a deterministic, integer-only virtual-pet simulation together with
//! its indexed sprite art, display themes and save-game rules.

pub mod pet;
pub mod text;
pub mod theme;
pub mod storage;
pub mod sprites;
pub mod sheet;
pub mod ui;
pub mod wrap;
