//! Planets: where they are on the map and what they are rich in.
use vstd::prelude::*;

use crate::building::{Building, BUILDINGS_ON_PLANET};
use crate::fleet::OwnerKey;

verus! {

/// A planet's deposits and who holds it.
#[derive(Clone, Copy, Debug)]
pub struct PlanetInfo {
    pub metal: u16,
    pub chemical: u16,
    pub crystal: u16,
    pub fuel: u16,
    pub miner: Option<OwnerKey>,
    pub owner: Option<OwnerKey>,
}

/// A player's holding on a planet: its buildings and when it last harvested.
#[derive(Clone, Copy, Debug)]
pub struct PlanetHolding {
    pub last_harvest: u64,
    pub buildings: [Building; BUILDINGS_ON_PLANET],
}

/// Why a planet order was refused.
#[derive(Clone, Copy, Debug, PartialEq, Eq, Structural)]
pub enum PlanetErrorCode {
    /// The planet already has an owner.
    PlanetAlreadySettled,
    /// The player already claimed a first planet.
    MaxOneFirstPlanet,
    /// No planet lies at the coordinates.
    NoPlanetAtCoordinates,
}

/// Index of the richest of a planet's `[metal, crystal, chemical, fuel]`
/// deposits, fuel aside: 0 if metal is strictly the richest, else 1 if
/// crystal is richer than chemical, else 2.
pub open spec fn affinity_of(resources: [u16; 4]) -> u8 {
    if resources[0] > resources[1] && resources[0] > resources[2] {
        0
    } else if resources[1] > resources[2] {
        1
    } else {
        2
    }
}

pub fn get_planet_affinity(resources: [u16; 4]) -> (r: u8)
    ensures
        r == affinity_of(resources),
{
    let metal = resources[0];
    let crystal = resources[1];
    let chemical = resources[2];
    if metal > crystal && metal > chemical {
        0
    } else if crystal > chemical {
        1
    } else {
        2
    }
}

impl PlanetInfo {
    pub fn planet_affinity(&self) -> (r: u8)
        ensures
            r == affinity_of([self.metal, self.crystal, self.chemical, self.fuel]),
    {
        get_planet_affinity([self.metal, self.crystal, self.chemical, self.fuel])
    }
}

/// Number of the map cell `(x, y)` along the square spiral that winds out
/// from the origin: ring `x` starts after the `(2x - 1)^2` cells inside it.
pub open spec fn spiral_position(x: int, y: int) -> int {
    let side = 2 * x + 1;
    let inner = if side >= 2 { (side - 2) * (side - 2) } else { 0 };
    if x >= y {
        inner + (x - y)
    } else {
        let back = side * side - (y - x);
        if back < 0 { 0 } else { back }
    }
}

/// A planet lies at an odd spiral position that is a multiple of 7, 37 or 89.
pub open spec fn is_planet_position(p: int) -> bool {
    p % 2 != 0 && (p % 7 == 0 || p % 37 == 0 || p % 89 == 0)
}

/// Whether a planet lies at `(x, y)`. Rings past 127 do not fit the
/// position arithmetic.
pub fn are_planet_coordinates_valid(x: u16, y: u16) -> (r: bool)
    requires
        x <= 127,
    ensures
        r == is_planet_position(spiral_position(x as int, y as int)),
{
    let total_layers: u16 = (x * 2) + 1;
    assert(total_layers as int * total_layers as int <= 255 * 255) by (nonlinear_arith)
        requires
            total_layers <= 255,
    ;
    let spiral_length: u16 = total_layers * total_layers;
    let inner_side: u16 = total_layers.saturating_sub(2);
    assert(inner_side as int * inner_side as int <= 253 * 253) by (nonlinear_arith)
        requires
            inner_side <= 253,
    ;
    let min_val_per_layer: u16 = inner_side * inner_side;
    let position: u16 = if x >= y {
        min_val_per_layer + (x - y)
    } else {
        spiral_length.saturating_sub(y - x)
    };
    position % 2 != 0 && (position % 7 == 0 || position % 37 == 0 || position % 89 == 0)
}

/// The BLAKE3 digest of a byte string.
pub uninterp spec fn blake3_of(data: Seq<u8>) -> Seq<u8>;

/// Relies on `solana_program::blake3::hashv`: the 32-byte BLAKE3 digest of
/// the concatenated slices, here a single one, which depends on the bytes
/// alone.
#[verifier::external_body]
fn blake3_digest(data: &[u8]) -> (r: [u8; 32])
    ensures
        r@ == blake3_of(data@),
{
    solana_program::blake3::hashv(&[data]).to_bytes()
}

/// The little-endian bytes of `x`, then of `y`.
pub open spec fn coordinate_bytes(x: u16, y: u16) -> Seq<u8> {
    seq![(x % 256) as u8, (x / 256) as u8, (y % 256) as u8, (y / 256) as u8]
}

/// The little-endian `u16` at bytes `2 * i` and `2 * i + 1`.
pub open spec fn le_u16_at(bytes: Seq<u8>, i: int) -> int {
    bytes[2 * i] + 256 * bytes[2 * i + 1]
}

/// A planet's `[metal, crystal, chemical, fuel]` deposits from a digest: the
/// first four little-endian `u16` values in it.
pub fn resources_from_digest(digest: &[u8; 32]) -> (r: [u16; 4])
    ensures
        forall|i: int| 0 <= i < 4 ==> #[trigger] r[i] == le_u16_at(digest@, i),
{
    let mut values = [0u16; 4];
    let mut i: usize = 0;
    while i < 4
        invariant
            i <= 4,
            forall|j: int| 0 <= j < i ==> #[trigger] values[j] == le_u16_at(digest@, j),
        decreases 4 - i,
    {
        values[i] = digest[2 * i] as u16 + 256 * (digest[2 * i + 1] as u16);
        i = i + 1;
    }
    values
}

/// A planet's `[metal, crystal, chemical, fuel]` deposits: the first four
/// little-endian `u16` values of the BLAKE3 digest of its coordinates.
pub fn get_planet_resources(x: u16, y: u16) -> (r: [u16; 4])
    ensures
        forall|i: int| 0 <= i < 4 ==> #[trigger] r[i] == le_u16_at(blake3_of(coordinate_bytes(x, y)), i),
{
    let bytes: [u8; 4] = [(x % 256) as u8, (x / 256) as u8, (y % 256) as u8, (y / 256) as u8];
    assert(bytes@ =~= coordinate_bytes(x, y));
    let digest = blake3_digest(bytes.as_slice());
    resources_from_digest(&digest)
}

} // verus!
