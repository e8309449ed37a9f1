pub mod home;
pub mod navigation;
pub mod screen;
