pub mod button;
pub mod route;
pub mod screen;
pub mod state;
pub mod store;
