pub mod movement_orders;
pub mod tile_track;
pub mod track_type;
pub mod track_type_set;
