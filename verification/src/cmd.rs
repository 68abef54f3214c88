pub mod down;
pub mod up;
