use vstd::prelude::*;

verus! {

/// The seven piece shapes.
#[derive(PartialEq, Eq, Structural, Clone, Copy, Debug, Hash)]
pub enum Kind {
    I,
    O,
    T,
    S,
    Z,
    J,
    L,
}

/// The shape at position `index` of the list I, O, T, S, Z, J, L.
pub open spec fn kind_at(index: int) -> Kind {
    if index == 0 {
        Kind::I
    } else if index == 1 {
        Kind::O
    } else if index == 2 {
        Kind::T
    } else if index == 3 {
        Kind::S
    } else if index == 4 {
        Kind::Z
    } else if index == 5 {
        Kind::J
    } else {
        Kind::L
    }
}

impl Kind {
    /// The shape a random number picks: each shape for one residue modulo seven, so a
    /// uniform number gives each shape alike.
    pub fn from_roll(roll: u64) -> (r: Kind)
        ensures
            r == kind_at((roll % 7) as int),
    {
        let index = roll % 7;
        if index == 0 {
            Kind::I
        } else if index == 1 {
            Kind::O
        } else if index == 2 {
            Kind::T
        } else if index == 3 {
            Kind::S
        } else if index == 4 {
            Kind::Z
        } else if index == 5 {
            Kind::J
        } else {
            Kind::L
        }
    }
}

/// Colors a piece, and the squares it leaves behind, are painted in.
#[derive(PartialEq, Eq, Structural, Clone, Copy, Debug, Hash)]
pub enum Color {
    Cyan,
    Yellow,
    Magenta,
    Green,
    Red,
    Blue,
    LightRed,
}

/// Column of the anchor of a freshly spawned piece.
pub const SPAWN_X: i32 = 3;

/// Row of the anchor of a freshly spawned piece.
pub const SPAWN_Y: i32 = 0;

pub open spec fn color_of(kind: Kind) -> Color {
    match kind {
        Kind::I => Color::Cyan,
        Kind::O => Color::Yellow,
        Kind::T => Color::Magenta,
        Kind::S => Color::Green,
        Kind::Z => Color::Red,
        Kind::J => Color::Blue,
        Kind::L => Color::LightRed,
    }
}

/// Number of distinct rotation states of a shape.
pub open spec fn rotations(kind: Kind) -> int {
    match kind {
        Kind::O => 1,
        Kind::I | Kind::S | Kind::Z => 2,
        _ => 4,
    }
}

/// The rotation state after `rotation`, modulo the shape's number of states.
pub open spec fn next_rotation(kind: Kind, rotation: u8) -> u8 {
    if rotation + 1 >= rotations(kind) {
        0
    } else {
        (rotation + 1) as u8
    }
}

/// Cell offsets of a shape in one rotation state, as (column, row) inside a 4x4 box
/// whose top left corner is the anchor.
pub open spec fn offsets(kind: Kind, rotation: int) -> Seq<(i32, i32)> {
    match kind {
        Kind::I => if rotation == 0 {
            seq![(0, 1), (1, 1), (2, 1), (3, 1)]
        } else {
            seq![(2, 0), (2, 1), (2, 2), (2, 3)]
        },
        Kind::O => seq![(1, 0), (2, 0), (1, 1), (2, 1)],
        Kind::T => if rotation == 0 {
            seq![(1, 0), (0, 1), (1, 1), (2, 1)]
        } else if rotation == 1 {
            seq![(1, 0), (1, 1), (2, 1), (1, 2)]
        } else if rotation == 2 {
            seq![(0, 1), (1, 1), (2, 1), (1, 2)]
        } else {
            seq![(1, 0), (0, 1), (1, 1), (1, 2)]
        },
        Kind::S => if rotation == 0 {
            seq![(1, 0), (2, 0), (0, 1), (1, 1)]
        } else {
            seq![(1, 0), (1, 1), (2, 1), (2, 2)]
        },
        Kind::Z => if rotation == 0 {
            seq![(0, 0), (1, 0), (1, 1), (2, 1)]
        } else {
            seq![(2, 0), (1, 1), (2, 1), (1, 2)]
        },
        Kind::J => if rotation == 0 {
            seq![(0, 0), (0, 1), (1, 1), (2, 1)]
        } else if rotation == 1 {
            seq![(1, 0), (2, 0), (1, 1), (1, 2)]
        } else if rotation == 2 {
            seq![(0, 1), (1, 1), (2, 1), (2, 2)]
        } else {
            seq![(1, 0), (1, 1), (0, 2), (1, 2)]
        },
        Kind::L => if rotation == 0 {
            seq![(2, 0), (0, 1), (1, 1), (2, 1)]
        } else if rotation == 1 {
            seq![(1, 0), (1, 1), (1, 2), (2, 2)]
        } else if rotation == 2 {
            seq![(0, 1), (1, 1), (2, 1), (0, 2)]
        } else {
            seq![(0, 0), (1, 0), (1, 1), (1, 2)]
        },
    }
}

/// Every offset lies inside the 4x4 box.
pub proof fn lemma_offsets_in_box(kind: Kind, rotation: int, i: int)
    requires
        0 <= i < 4,
    ensures
        offsets(kind, rotation).len() == 4,
        0 <= offsets(kind, rotation)[i].0 < 4,
        0 <= offsets(kind, rotation)[i].1 < 4,
{
}

/// Absolute (column, row) of cell `i` of a shape whose anchor stands at (`x`, `y`).
pub open spec fn cell_at(kind: Kind, rotation: int, x: int, y: int, i: int) -> (int, int) {
    (x + offsets(kind, rotation)[i].0, y + offsets(kind, rotation)[i].1)
}

/// The exec form of the offset table.
pub fn shape_offsets(kind: Kind, rotation: u8) -> (r: [(i32, i32); 4])
    ensures
        r@ == offsets(kind, rotation as int),
{
    match kind {
        Kind::I => if rotation == 0 {
            [(0, 1), (1, 1), (2, 1), (3, 1)]
        } else {
            [(2, 0), (2, 1), (2, 2), (2, 3)]
        },
        Kind::O => [(1, 0), (2, 0), (1, 1), (2, 1)],
        Kind::T => if rotation == 0 {
            [(1, 0), (0, 1), (1, 1), (2, 1)]
        } else if rotation == 1 {
            [(1, 0), (1, 1), (2, 1), (1, 2)]
        } else if rotation == 2 {
            [(0, 1), (1, 1), (2, 1), (1, 2)]
        } else {
            [(1, 0), (0, 1), (1, 1), (1, 2)]
        },
        Kind::S => if rotation == 0 {
            [(1, 0), (2, 0), (0, 1), (1, 1)]
        } else {
            [(1, 0), (1, 1), (2, 1), (2, 2)]
        },
        Kind::Z => if rotation == 0 {
            [(0, 0), (1, 0), (1, 1), (2, 1)]
        } else {
            [(2, 0), (1, 1), (2, 1), (1, 2)]
        },
        Kind::J => if rotation == 0 {
            [(0, 0), (0, 1), (1, 1), (2, 1)]
        } else if rotation == 1 {
            [(1, 0), (2, 0), (1, 1), (1, 2)]
        } else if rotation == 2 {
            [(0, 1), (1, 1), (2, 1), (2, 2)]
        } else {
            [(1, 0), (1, 1), (0, 2), (1, 2)]
        },
        Kind::L => if rotation == 0 {
            [(2, 0), (0, 1), (1, 1), (2, 1)]
        } else if rotation == 1 {
            [(1, 0), (1, 1), (1, 2), (2, 2)]
        } else if rotation == 2 {
            [(0, 1), (1, 1), (2, 1), (0, 2)]
        } else {
            [(0, 0), (1, 0), (1, 1), (1, 2)]
        },
    }
}

/// A falling piece: its shape, rotation state and the grid position of its anchor.
/// Moving or rotating it is pure geometry: legality is the field's business.
#[derive(PartialEq, Eq, Structural, Clone, Copy, Debug, Hash)]
pub struct Tetromino {
    pub kind: Kind,
    pub rotation: u8,
    pub x: i32,
    pub y: i32,
}

impl Tetromino {
    /// The rotation index names one of the shape's rotation states.
    pub open spec fn wf(&self) -> bool {
        (self.rotation as int) < rotations(self.kind)
    }

    /// Absolute (column, row) of the piece's cell `i`, for `i` in `0..4`.
    pub open spec fn cell(&self, i: int) -> (int, int) {
        cell_at(self.kind, self.rotation as int, self.x as int, self.y as int, i)
    }

    pub open spec fn color_spec(&self) -> Color {
        color_of(self.kind)
    }

    pub open spec fn new_spec(kind: Kind) -> Tetromino {
        Tetromino { kind, rotation: 0, x: SPAWN_X, y: SPAWN_Y }
    }

    /// A piece of the given shape at the spawn anchor, in its first rotation state.
    pub fn new(kind: Kind) -> (r: Tetromino)
        ensures
            r == Tetromino::new_spec(kind),
            r.wf(),
    {
        Tetromino { kind, rotation: 0, x: SPAWN_X, y: SPAWN_Y }
    }

    /// The color fixed for the piece's shape.
    pub fn color(&self) -> (r: Color)
        ensures
            r == color_of(self.kind),
    {
        match self.kind {
            Kind::I => Color::Cyan,
            Kind::O => Color::Yellow,
            Kind::T => Color::Magenta,
            Kind::S => Color::Green,
            Kind::Z => Color::Red,
            Kind::J => Color::Blue,
            Kind::L => Color::LightRed,
        }
    }

    /// Number of rotation states of the piece's shape.
    pub fn rotation_count(&self) -> (r: u8)
        ensures
            r as int == rotations(self.kind),
    {
        match self.kind {
            Kind::O => 1,
            Kind::I | Kind::S | Kind::Z => 2,
            _ => 4,
        }
    }

    pub fn move_left(&mut self)
        requires
            old(self).x > i32::MIN,
        ensures
            *final(self) == (Tetromino { x: (old(self).x - 1) as i32, ..*old(self) }),
    {
        self.x = self.x - 1;
    }

    pub fn move_right(&mut self)
        requires
            old(self).x < i32::MAX,
        ensures
            *final(self) == (Tetromino { x: (old(self).x + 1) as i32, ..*old(self) }),
    {
        self.x = self.x + 1;
    }

    pub fn move_down(&mut self)
        requires
            old(self).y < i32::MAX,
        ensures
            *final(self) == (Tetromino { y: (old(self).y + 1) as i32, ..*old(self) }),
    {
        self.y = self.y + 1;
    }

    /// Advances to the next rotation state, wrapping to the first after the last.
    pub fn rotate(&mut self)
        requires
            old(self).wf(),
        ensures
            *final(self) == (Tetromino { rotation: next_rotation(old(self).kind, old(self).rotation), ..*old(self) }),
            final(self).wf(),
    {
        let count = self.rotation_count();
        if self.rotation + 1 == count {
            self.rotation = 0;
        } else {
            self.rotation = self.rotation + 1;
        }
    }

    /// The four absolute (column, row) coordinates the piece covers.
    pub fn cells(&self) -> (r: [(i64, i64); 4])
        ensures
            forall|i: int| 0 <= i < 4 ==> (r@[i].0 as int, r@[i].1 as int) == #[trigger] self.cell(i),
    {
        let offs = shape_offsets(self.kind, self.rotation);
        proof {
            lemma_offsets_in_box(self.kind, self.rotation as int, 0);
        }
        let mut r: [(i64, i64); 4] = [(0, 0); 4];
        let mut i: usize = 0;
        while i < 4
            invariant
                i <= 4,
                offs@ == offsets(self.kind, self.rotation as int),
                forall|j: int| 0 <= j < i ==> (r@[j].0 as int, r@[j].1 as int) == #[trigger] self.cell(j),
            decreases 4 - i,
        {
            proof {
                lemma_offsets_in_box(self.kind, self.rotation as int, i as int);
            }
            r[i] = (self.x as i64 + offs[i].0 as i64, self.y as i64 + offs[i].1 as i64);
            i = i + 1;
        }
        r
    }
}

} // verus!
