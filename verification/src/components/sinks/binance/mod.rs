pub mod client;
pub mod model;
pub mod spot;
