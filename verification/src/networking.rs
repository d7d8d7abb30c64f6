use vstd::prelude::*;

verus! {

/// The port the game server listens on.
pub const PORT: u16 = 8080;

/// A server message, already encoded.
#[derive(Clone, Debug)]
pub struct EncodedServerMsg(pub Vec<u8>);

/// A client message, already encoded.
#[derive(Clone, Debug)]
pub struct EncodedClientMsg(pub Vec<u8>);

/// The channel over which the game's encoded messages travel.
#[derive(Debug, Clone)]
pub struct GameChannel;

} // verus!
