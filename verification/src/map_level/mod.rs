pub mod map_level;
pub mod terrain;
pub mod zoning;
