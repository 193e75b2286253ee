pub mod button;
