pub mod player_state;
