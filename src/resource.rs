//! Amounts of the game's fungible resources, in base units.
use vstd::prelude::*;

use crate::utilities::{same_text, sat_add, sat_mul, saturating_mul_u64};

verus! {

/// One amount per resource. Eight decimals: 100_000_000 base units make one
/// nominal unit.
#[derive(Clone, Copy, Debug, PartialEq, Eq, Structural)]
pub struct Resources {
    pub igt: u64,
    pub metal: u64,
    pub crystal: u64,
    pub chemical: u64,
    pub fuel: u64,
}

pub open spec fn no_resources() -> Resources {
    Resources { igt: 0, metal: 0, crystal: 0, chemical: 0, fuel: 0 }
}

/// Component-wise saturating sum.
pub open spec fn add_resources(a: Resources, b: Resources) -> Resources {
    Resources {
        igt: sat_add(a.igt as int, b.igt as int) as u64,
        metal: sat_add(a.metal as int, b.metal as int) as u64,
        crystal: sat_add(a.crystal as int, b.crystal as int) as u64,
        chemical: sat_add(a.chemical as int, b.chemical as int) as u64,
        fuel: sat_add(a.fuel as int, b.fuel as int) as u64,
    }
}

/// `x - y`, clamped at zero.
pub open spec fn sat_sub(x: int, y: int) -> int {
    if x < y {
        0
    } else {
        x - y
    }
}

/// Component-wise difference, clamped at zero.
pub open spec fn sub_resources(a: Resources, b: Resources) -> Resources {
    Resources {
        igt: sat_sub(a.igt as int, b.igt as int) as u64,
        metal: sat_sub(a.metal as int, b.metal as int) as u64,
        crystal: sat_sub(a.crystal as int, b.crystal as int) as u64,
        chemical: sat_sub(a.chemical as int, b.chemical as int) as u64,
        fuel: sat_sub(a.fuel as int, b.fuel as int) as u64,
    }
}

/// Every amount multiplied by `n`, saturating.
pub open spec fn scale_resources(a: Resources, n: int) -> Resources {
    Resources {
        igt: sat_mul(a.igt as int, n) as u64,
        metal: sat_mul(a.metal as int, n) as u64,
        crystal: sat_mul(a.crystal as int, n) as u64,
        chemical: sat_mul(a.chemical as int, n) as u64,
        fuel: sat_mul(a.fuel as int, n) as u64,
    }
}

/// Every amount divided by `n`, rounded down.
pub open spec fn divide_resources(a: Resources, n: int) -> Resources {
    Resources {
        igt: (a.igt as int / n) as u64,
        metal: (a.metal as int / n) as u64,
        crystal: (a.crystal as int / n) as u64,
        chemical: (a.chemical as int / n) as u64,
        fuel: (a.fuel as int / n) as u64,
    }
}

/// `a` holds at most as much of every resource as `b`.
pub open spec fn resources_le(a: Resources, b: Resources) -> bool {
    &&& a.igt <= b.igt
    &&& a.metal <= b.metal
    &&& a.crystal <= b.crystal
    &&& a.chemical <= b.chemical
    &&& a.fuel <= b.fuel
}

impl Resources {
    /// A zeroed amount; `self` is left as it is.
    pub fn reset(&mut self) -> (r: Self)
        ensures
            r == no_resources(),
            *final(self) == *old(self),
    {
        Resources { igt: 0, metal: 0, crystal: 0, chemical: 0, fuel: 0 }
    }

    /// The amount of the resource named `key`; zero for any other name.
    pub fn by_key(&self, key: &str) -> (r: u64)
        ensures
            r == (if key@ == "metal"@ {
                self.metal
            } else if key@ == "crystal"@ {
                self.crystal
            } else if key@ == "chemical"@ {
                self.chemical
            } else if key@ == "fuel"@ {
                self.fuel
            } else if key@ == "igt"@ {
                self.igt
            } else {
                0
            }),
    {
        if same_text(key, "metal") {
            self.metal
        } else if same_text(key, "crystal") {
            self.crystal
        } else if same_text(key, "chemical") {
            self.chemical
        } else if same_text(key, "fuel") {
            self.fuel
        } else if same_text(key, "igt") {
            self.igt
        } else {
            0
        }
    }

    /// Component-wise sum, saturating at `u64::MAX`.
    pub fn sum(&self, other: Resources) -> (r: Resources)
        ensures
            r == add_resources(*self, other),
    {
        Resources {
            igt: self.igt.saturating_add(other.igt),
            metal: self.metal.saturating_add(other.metal),
            crystal: self.crystal.saturating_add(other.crystal),
            chemical: self.chemical.saturating_add(other.chemical),
            fuel: self.fuel.saturating_add(other.fuel),
        }
    }

    /// Adds `other` in place; every sum must fit in a `u64`.
    pub fn add(&mut self, other: Resources)
        requires
            old(self).igt + other.igt <= u64::MAX,
            old(self).metal + other.metal <= u64::MAX,
            old(self).crystal + other.crystal <= u64::MAX,
            old(self).chemical + other.chemical <= u64::MAX,
            old(self).fuel + other.fuel <= u64::MAX,
        ensures
            *final(self) == add_resources(*old(self), other),
    {
        self.igt = self.igt + other.igt;
        self.metal = self.metal + other.metal;
        self.crystal = self.crystal + other.crystal;
        self.chemical = self.chemical + other.chemical;
        self.fuel = self.fuel + other.fuel;
    }

    /// Component-wise difference, clamped at zero.
    pub fn sub(&self, other: Resources) -> (r: Resources)
        ensures
            r == sub_resources(*self, other),
    {
        Resources {
            igt: self.igt.saturating_sub(other.igt),
            metal: self.metal.saturating_sub(other.metal),
            crystal: self.crystal.saturating_sub(other.crystal),
            chemical: self.chemical.saturating_sub(other.chemical),
            fuel: self.fuel.saturating_sub(other.fuel),
        }
    }

    /// Every amount divided by a non-zero `factor`, rounded down.
    pub fn div(&self, factor: u64) -> (r: Resources)
        requires
            factor > 0,
        ensures
            r == divide_resources(*self, factor as int),
    {
        Resources {
            igt: self.igt / factor,
            metal: self.metal / factor,
            crystal: self.crystal / factor,
            chemical: self.chemical / factor,
            fuel: self.fuel / factor,
        }
    }

    /// Every amount multiplied by `factor`, saturating.
    pub fn mul(&self, factor: u64) -> (r: Resources)
        ensures
            r == scale_resources(*self, factor as int),
    {
        Resources {
            igt: saturating_mul_u64(self.igt, factor),
            metal: saturating_mul_u64(self.metal, factor),
            crystal: saturating_mul_u64(self.crystal, factor),
            chemical: saturating_mul_u64(self.chemical, factor),
            fuel: saturating_mul_u64(self.fuel, factor),
        }
    }
}

} // verus!
