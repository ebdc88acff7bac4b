pub mod screensaver;
pub mod upload;

pub use screensaver::ScreensaverSvc;
