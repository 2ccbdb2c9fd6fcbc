//! Cells of the grid, and the per-cell display decisions a host adapter needs.

use vstd::prelude::*;
use vstd::string::StringExecFns;

use crate::color::Color;

verus! {

/// The binary state of a cell.
#[derive(Clone, Copy, Debug, PartialEq, Eq, Structural)]
pub enum CellStatus {
    Dead,
    Alive,
}

impl CellStatus {
    /// This status's contribution to a live-neighbor count: 1 when alive, 0 when dead.
    pub open spec fn spec_live_value(self) -> nat {
        match self {
            CellStatus::Dead => 0,
            CellStatus::Alive => 1,
        }
    }

    /// Numeric form of the status, summed directly by neighbor counting.
    pub fn live_value(self) -> (v: u8)
        ensures
            v as nat == self.spec_live_value(),
            v <= 1,
    {
        match self {
            CellStatus::Dead => 0,
            CellStatus::Alive => 1,
        }
    }
}

/// One cell of the grid: its coordinates and its status.
///
/// The coordinates always match the cell's position in the owning grid; a
/// generation transition only changes `status` and rebuilds a same-shaped
/// grid.
#[derive(Clone, Copy, Debug, PartialEq, Eq, Structural)]
pub struct Cell {
    pub x: u32,
    pub y: u32,
    pub status: CellStatus,
}

impl Cell {
    pub fn new(x: u32, y: u32, status: CellStatus) -> (c: Cell)
        ensures
            c == (Cell { x, y, status }),
    {
        Cell { x, y, status }
    }

    /// Replaces the status, leaving the coordinates in place.
    pub fn change_status(&mut self, status: CellStatus)
        ensures
            *final(self) == (Cell { status, ..*old(self) }),
    {
        self.status = status;
    }

    /// The cell's grid coordinates.
    pub fn pos(&self) -> (p: (u32, u32))
        ensures
            p == (self.x, self.y),
    {
        (self.x, self.y)
    }
}

/// The color a host should paint dead cells with.
#[derive(Clone, Copy, Debug, PartialEq, Eq, Structural)]
pub struct CellDeadColor(pub Color);

/// The color a host should paint live cells with.
#[derive(Clone, Copy, Debug, PartialEq, Eq, Structural)]
pub struct CellAliveColor(pub Color);

/// Picks the color for a cell lookup, treating an absent cell as dead.
///
/// This is the whole display policy: live cells get the alive color, dead or
/// absent cells get the dead color. The host's draw loop applies the result.
pub fn cell_color(cell: Option<&Cell>, alive: &CellAliveColor, dead: &CellDeadColor) -> (c: Color)
    ensures
        c == (if cell matches Some(cl) && cl.status == CellStatus::Alive {
            alive.0
        } else {
            dead.0
        }),
{
    match cell {
        Some(cl) => {
            if cl.status == CellStatus::Alive {
                alive.0
            } else {
                dead.0
            }
        },
        None => dead.0,
    }
}

/// The scene node that groups all cell sprites, described as plain data.
pub struct CellParent {
    pub name: String,
}

/// Describes the container node for cell sprites; the host spawns it under
/// whatever scene-graph it uses.
pub fn spawn_cell_parent() -> (p: CellParent)
    ensures
        p.name@ == "Cell Container"@,
{
    CellParent { name: String::from_str("Cell Container") }
}

} // verus!
