//! The driver framework's objects, as far as the bootstrap decides on them.

pub mod driver;

pub use driver::{create_driver, DriverHandle, NativeDriverConfig, WDFDriverConfig};
