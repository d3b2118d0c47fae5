pub mod app;
pub mod command_handler;
pub mod number;
pub mod window;

pub use app::CommandPatternApp;
pub use command_handler::Command;
pub use window::WindowContent;
