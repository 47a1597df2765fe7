pub mod agent;
pub mod identity;
pub mod model;
pub mod stages;
pub mod tracking;
