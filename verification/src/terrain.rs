//! The closed set of terrain kinds and the two properties of a kind that
//! the drawing rules read.

use vstd::prelude::*;

verus! {

/// What a map cell is made of.
#[derive(Clone, Copy, Debug, PartialEq, Eq, Hash, Structural)]
pub enum TerrainKind {
    Void,
    Floor,
    Chasm,
    Water,
    Shallows,
    Magma,
    Downstairs,
    Wall,
    RockWall,
    Rock,
    Tree,
    Grass,
    /// Grass drawn with the tufted sprite in place of the plain floor.
    Grass2,
    Stalagmite,
    Portal,
    Door,
    OpenDoor,
    Window,
    Table,
    Fence,
    Bars,
    Fountain,
    Altar,
    Barrel,
    Grave,
    Stone,
    Menhir,
    DeadTree,
    TallGrass,
}

impl TerrainKind {
    /// A wall-like kind fills its cell edge to edge, so that neighbouring
    /// wall pieces have to join up with it.
    pub open spec fn spec_is_wall(self) -> bool {
        self is Wall || self is RockWall || self is Rock || self is Door || self is OpenDoor
            || self is Window || self is Bars || self is Fence
    }

    #[verifier::when_used_as_spec(spec_is_wall)]
    pub fn is_wall(self) -> (b: bool)
        ensures
            b == self.spec_is_wall(),
    {
        match self {
            TerrainKind::Wall
            | TerrainKind::RockWall
            | TerrainKind::Rock
            | TerrainKind::Door
            | TerrainKind::OpenDoor
            | TerrainKind::Window
            | TerrainKind::Bars
            | TerrainKind::Fence => true,
            _ => false,
        }
    }

    /// A kind blocks walking unless a creature can stand on it or pass
    /// through it.
    pub open spec fn spec_blocks_walk(self) -> bool {
        !(self is Floor || self is Shallows || self is Grass || self is Grass2
            || self is Downstairs || self is Portal || self is Door || self is OpenDoor
            || self is TallGrass)
    }

    #[verifier::when_used_as_spec(spec_blocks_walk)]
    pub fn blocks_walk(self) -> (b: bool)
        ensures
            b == self.spec_blocks_walk(),
    {
        match self {
            TerrainKind::Floor
            | TerrainKind::Shallows
            | TerrainKind::Grass
            | TerrainKind::Grass2
            | TerrainKind::Downstairs
            | TerrainKind::Portal
            | TerrainKind::Door
            | TerrainKind::OpenDoor
            | TerrainKind::TallGrass => false,
            _ => true,
        }
    }
}

} // verus!
