//! A minimal two-coordinate phenotype.
//!
//! A self-contained example of the phenotype operations a genetic search
//! needs — scoring, recombination, perturbation — on a pair of integers
//! whose sum is driven toward a fixed target.

use vstd::prelude::*;

verus! {

/// The sum the fitness score rewards reaching.
pub const TARGET: i32 = 100;

/// A candidate solution made of two coordinates.
#[derive(Debug, Clone, Copy, PartialEq, Eq, Structural)]
pub struct MyPheno {
    pub x: i32,
    pub y: i32,
}

impl MyPheno {
    /// How fit this individual is: how far `x + y` falls short of the
    /// target (negative once the sum overshoots).
    pub fn fitness(&self) -> (r: i32)
        requires
            i32::MIN <= self.x + self.y <= i32::MAX,
            i32::MIN <= TARGET - (self.x + self.y) <= i32::MAX,
        ensures
            r == TARGET - (self.x + self.y),
    {
        TARGET - (self.x + self.y)
    }

    /// Two individuals create a new one: the first coordinate of one, the
    /// second of the other.
    pub fn crossover(&self, other: &MyPheno) -> (r: MyPheno)
        ensures
            r.x == self.x,
            r.y == other.y,
    {
        MyPheno { x: self.x, y: other.y }
    }

    /// Perturbs an individual, leaving its sum unchanged; the input is not
    /// modified.
    pub fn mutate(&self) -> (r: MyPheno)
        requires
            self.x < i32::MAX,
            self.y > i32::MIN,
        ensures
            r.x == self.x + 1,
            r.y == self.y - 1,
    {
        MyPheno { x: self.x + 1, y: self.y - 1 }
    }
}

} // verus!
