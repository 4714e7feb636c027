pub mod callbacks;
pub mod cursor;
pub mod view;
pub mod window;
