pub mod external_driver;
pub mod utils;
