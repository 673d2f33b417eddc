pub mod profile;
pub mod tui;
pub mod userinfo;
