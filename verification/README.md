# shared_domain

The shared game model of a railway and logistics strategy game: the map (terrain, water
and zonings), the tracks, stations, industries and military buildings that players build
on it, the links along which industries and stations exchange cargo, the supply chains,
the players, and the checks that decide what may be built where.

`src/` is the library, written in Verus: every function carries a contract over a
mathematical model of the data (maps from tiles to what stands on them, sequences of
buildings, sets of track types), and Verus proves that the code meets it. Laws that span
several operations (what a lookup returns after a build, what a removal undoes, which
station an industry is linked to) are stated and proved as proof functions beside the
code they speak of.

Random identifiers, seeded colours and UUID parsing come from the `uuid` and `fastrand`
crates behind small trusted wrappers in `src/randomness.rs` and `src/uuid_text.rs`; their
contracts are the only claims that are not proved.

`app/` holds what the library cannot: the economy, whose cargo amounts, production rates
and game time are floating point. It keeps the stock of each building beside the
library's state and asks the library every question about buildings, placement, links
and suppliers.

`tests/` exercises the library on concrete values.
