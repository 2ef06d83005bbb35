pub mod clock;
pub mod destination;
pub mod json;
pub mod keyed;
pub mod laws;
pub mod model;
pub mod proxy;
pub mod store;
pub mod text;
