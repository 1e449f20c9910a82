//! Typed building blocks for a JSON user-interface description: composition
//! objects, interactive elements, the slots that decide which element may stand
//! where, blocks and surfaces, and the wire text that each of them becomes.

pub mod blocks;
pub mod date;
pub mod elements;
pub mod json;
pub mod menus;
pub mod multi_select;
pub mod objects;
pub mod select;
pub mod slots;
pub mod surfaces;
pub mod text;
pub mod uri;
pub mod views;
