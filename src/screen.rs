pub mod gui_actions;
pub mod lore;
pub mod textures;
pub mod translations;

pub use crate::screen::gui_actions::GuiActions;
