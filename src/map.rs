use vstd::prelude::*;

verus! {

/// One cell of the simulation's grid; the number picks the cell's texture.
#[derive(Debug, Clone, Copy, PartialEq, Eq, Structural)]
pub enum Tile {
    Air,
    Floor(usize),
    Wall(usize),
    Hole(usize),
}

impl Tile {
    pub fn is_wall(&self) -> (r: bool)
        ensures
            r == (self is Wall),
    {
        match *self {
            Tile::Wall(_) => true,
            _ => false,
        }
    }

    pub fn is_hole(&self) -> (r: bool)
        ensures
            r == (self is Hole),
    {
        match *self {
            Tile::Hole(_) => true,
            _ => false,
        }
    }

    pub fn is_floor(&self) -> (r: bool)
        ensures
            r == (self is Floor),
    {
        match *self {
            Tile::Floor(_) => true,
            _ => false,
        }
    }
}

} // verus!
