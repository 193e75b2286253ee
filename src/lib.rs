pub mod loading;
pub mod screen;
pub mod widgets;
pub mod world;
