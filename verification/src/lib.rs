pub mod instance;
pub mod laws;
pub mod settings;
pub mod timer;
pub mod tray;
pub mod utils;
