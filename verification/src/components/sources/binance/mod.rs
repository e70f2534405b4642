pub mod model;
pub mod spot;
