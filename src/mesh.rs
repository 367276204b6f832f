//! The geometry of a card: a thin box whose faces sample a shared sprite sheet.

use crate::cards::{Card, DECK_SIZE};
use crate::geometry::Position;
use vstd::prelude::*;

verus! {

/// Number of cells across the sprite sheet.
pub const TEXTURE_COLUMNS: u32 = 4;

/// Number of cells down the sprite sheet; the last row holds the card back.
pub const TEXTURE_ROWS: u32 = 13;

/// Texture coordinates are counted in hundredths of a cell along each axis.
pub const UV_CELL: u32 = 100;

/// Width of the whole sprite sheet in texture units.
pub const UV_SPAN_U: u32 = TEXTURE_COLUMNS * UV_CELL;

/// Height of the whole sprite sheet in texture units.
pub const UV_SPAN_V: u32 = TEXTURE_ROWS * UV_CELL;

/// Width of the strip that the left and right edges sample.
pub const EDGE_STRIP_U: u32 = 5;

/// Height of the strip that the top and bottom edges sample.
pub const EDGE_STRIP_V: u32 = 3;

/// Half of `CARD_SIZE_X`.
pub const HALF_X: i64 = 16000;

/// Half of `CARD_SIZE_Y`.
pub const HALF_Y: i64 = 27000;

/// Half of `CARD_SIZE_Z`.
pub const HALF_Z: i64 = 500;

/// Number of vertices of a card mesh: four for each of the six faces.
pub const VERTEX_COUNT: usize = 24;

/// A point of the sprite sheet, in texture units from its top left corner.
#[derive(Debug, Clone, Copy, PartialEq, Eq, Structural, Hash)]
pub struct Uv {
    pub u: u32,
    pub v: u32,
}

/// A unit vector along one of the axes.
#[derive(Debug, Clone, Copy, PartialEq, Eq, Structural, Hash)]
pub struct Normal {
    pub x: i8,
    pub y: i8,
    pub z: i8,
}

/// The cell of the sprite sheet that holds a card's face.
#[derive(Debug, Clone, Copy, PartialEq, Eq, Structural, Hash)]
pub struct TextureOffset {
    pub column: u32,
    pub row: u32,
}

/// The triangle list of a card: vertex attributes and the indices of the
/// twelve triangles, two per face.
#[derive(Debug)]
pub struct CardMesh {
    pub positions: Vec<Position>,
    pub normals: Vec<Normal>,
    pub uvs: Vec<Uv>,
    pub indices: Vec<u32>,
}

/// The corner of the card box on the given side of each axis.
pub open spec fn corner(sx: int, sy: int, sz: int) -> Position {
    Position { x: (sx * HALF_X) as i64, y: (sy * HALF_Y) as i64, z: (sz * HALF_Z) as i64 }
}

/// Vertex positions, face by face: front, back, bottom, top, left, right.
pub open spec fn box_positions() -> Seq<Position> {
    seq![
        corner(-1, 1, 1), corner(-1, -1, 1), corner(1, -1, 1), corner(1, 1, 1),
        corner(-1, 1, -1), corner(-1, -1, -1), corner(1, -1, -1), corner(1, 1, -1),
        corner(-1, -1, 1), corner(-1, -1, -1), corner(1, -1, -1), corner(1, -1, 1),
        corner(-1, 1, 1), corner(-1, 1, -1), corner(1, 1, -1), corner(1, 1, 1),
        corner(-1, 1, 1), corner(-1, 1, -1), corner(-1, -1, -1), corner(-1, -1, 1),
        corner(1, 1, 1), corner(1, 1, -1), corner(1, -1, -1), corner(1, -1, 1),
    ]
}

/// The outward normal of each face, in the order of `box_positions`.
pub open spec fn face_normal(face: int) -> Normal {
    seq![
        Normal { x: 0, y: 0, z: 1 },
        Normal { x: 0, y: 0, z: -1i8 },
        Normal { x: 0, y: -1i8, z: 0 },
        Normal { x: 0, y: 1, z: 0 },
        Normal { x: -1i8, y: 0, z: 0 },
        Normal { x: 1, y: 0, z: 0 },
    ][face]
}

/// Vertex indices of the triangles, two per face.
pub open spec fn box_indices() -> Seq<u32> {
    seq![
        0, 1, 3, 3, 1, 2,
        4, 7, 5, 5, 7, 6,
        8, 9, 11, 11, 9, 10,
        12, 15, 13, 13, 15, 14,
        16, 17, 19, 19, 17, 18,
        20, 23, 21, 21, 23, 22,
    ]
}

/// Texture coordinates of each vertex for the card in cell (`column`, `row`):
/// the front samples the card's own cell; the back samples the card back in
/// the last row; the top and bottom edges sample a thin strip at the foot of
/// the sheet; the left and right edges sample a narrow strip of the back.
pub open spec fn card_uvs(column: int, row: int) -> Seq<Uv> {
    let u0 = (column * UV_CELL) as u32;
    let u1 = ((column + 1) * UV_CELL) as u32;
    let v0 = (row * UV_CELL) as u32;
    let v1 = ((row + 1) * UV_CELL) as u32;
    let back_top = (UV_SPAN_V - UV_CELL) as u32;
    let full = UV_SPAN_V;
    let strip = (UV_SPAN_V - EDGE_STRIP_V) as u32;
    let side = (column * UV_CELL + EDGE_STRIP_U) as u32;
    seq![
        Uv { u: u0, v: v0 }, Uv { u: u0, v: v1 },
        Uv { u: u1, v: v1 }, Uv { u: u1, v: v0 },
        Uv { u: u0, v: back_top }, Uv { u: u0, v: full },
        Uv { u: u1, v: full }, Uv { u: u1, v: back_top },
        Uv { u: u0, v: strip }, Uv { u: u0, v: full },
        Uv { u: u1, v: full }, Uv { u: u1, v: strip },
        Uv { u: u0, v: strip }, Uv { u: u0, v: full },
        Uv { u: u1, v: full }, Uv { u: u1, v: strip },
        Uv { u: u0, v: back_top }, Uv { u: u0, v: full },
        Uv { u: side, v: full }, Uv { u: side, v: back_top },
        Uv { u: u0, v: back_top }, Uv { u: u0, v: full },
        Uv { u: side, v: full }, Uv { u: side, v: back_top },
    ]
}

/// The mesh of the card whose face is in cell (`column`, `row`) of the sprite sheet.
pub fn create_mesh(column: u32, row: u32) -> (r: CardMesh)
    requires
        column < TEXTURE_COLUMNS,
        row < TEXTURE_ROWS,
    ensures
        r.positions@ == box_positions(),
        r.normals@ == Seq::new(VERTEX_COUNT as nat, |v: int| face_normal(v / 4)),
        r.uvs@ == card_uvs(column as int, row as int),
        r.indices@ == box_indices(),
{
    let (left, right) = (-HALF_X, HALF_X);
    let (bottom, top) = (-HALF_Y, HALF_Y);
    let (back, front) = (-HALF_Z, HALF_Z);
    let positions = vec![
        Position { x: left, y: top, z: front },
        Position { x: left, y: bottom, z: front },
        Position { x: right, y: bottom, z: front },
        Position { x: right, y: top, z: front },
        Position { x: left, y: top, z: back },
        Position { x: left, y: bottom, z: back },
        Position { x: right, y: bottom, z: back },
        Position { x: right, y: top, z: back },
        Position { x: left, y: bottom, z: front },
        Position { x: left, y: bottom, z: back },
        Position { x: right, y: bottom, z: back },
        Position { x: right, y: bottom, z: front },
        Position { x: left, y: top, z: front },
        Position { x: left, y: top, z: back },
        Position { x: right, y: top, z: back },
        Position { x: right, y: top, z: front },
        Position { x: left, y: top, z: front },
        Position { x: left, y: top, z: back },
        Position { x: left, y: bottom, z: back },
        Position { x: left, y: bottom, z: front },
        Position { x: right, y: top, z: front },
        Position { x: right, y: top, z: back },
        Position { x: right, y: bottom, z: back },
        Position { x: right, y: bottom, z: front },
    ];
    let toward_front = Normal { x: 0, y: 0, z: 1 };
    let toward_back = Normal { x: 0, y: 0, z: -1i8 };
    let downward = Normal { x: 0, y: -1i8, z: 0 };
    let upward = Normal { x: 0, y: 1, z: 0 };
    let leftward = Normal { x: -1i8, y: 0, z: 0 };
    let rightward = Normal { x: 1, y: 0, z: 0 };
    let normals = vec![
        toward_front, toward_front, toward_front, toward_front,
        toward_back, toward_back, toward_back, toward_back,
        downward, downward, downward, downward,
        upward, upward, upward, upward,
        leftward, leftward, leftward, leftward,
        rightward, rightward, rightward, rightward,
    ];
    let u0 = column * UV_CELL;
    let u1 = (column + 1) * UV_CELL;
    let v0 = row * UV_CELL;
    let v1 = (row + 1) * UV_CELL;
    let back_top = UV_SPAN_V - UV_CELL;
    let full = UV_SPAN_V;
    let strip = UV_SPAN_V - EDGE_STRIP_V;
    let side = u0 + EDGE_STRIP_U;
    let uvs = vec![
        Uv { u: u0, v: v0 }, Uv { u: u0, v: v1 },
        Uv { u: u1, v: v1 }, Uv { u: u1, v: v0 },
        Uv { u: u0, v: back_top }, Uv { u: u0, v: full },
        Uv { u: u1, v: full }, Uv { u: u1, v: back_top },
        Uv { u: u0, v: strip }, Uv { u: u0, v: full },
        Uv { u: u1, v: full }, Uv { u: u1, v: strip },
        Uv { u: u0, v: strip }, Uv { u: u0, v: full },
        Uv { u: u1, v: full }, Uv { u: u1, v: strip },
        Uv { u: u0, v: back_top }, Uv { u: u0, v: full },
        Uv { u: side, v: full }, Uv { u: side, v: back_top },
        Uv { u: u0, v: back_top }, Uv { u: u0, v: full },
        Uv { u: side, v: full }, Uv { u: side, v: back_top },
    ];
    let indices = vec![
        0, 1, 3, 3, 1, 2,
        4, 7, 5, 5, 7, 6,
        8, 9, 11, 11, 9, 10,
        12, 15, 13, 13, 15, 14,
        16, 17, 19, 19, 17, 18,
        20, 23, 21, 21, 23, 22,
    ];
    let r = CardMesh { positions, normals, uvs, indices };
    assert(r.normals@ =~= Seq::new(VERTEX_COUNT as nat, |v: int| face_normal(v / 4)));
    r
}

/// Whether `uv` is the point of the sheet at `column_edge / TEXTURE_COLUMNS`
/// across and `row_edge / TEXTURE_ROWS` down, the fractions of a cell edge.
pub open spec fn at_cell_corner(uv: Uv, column_edge: int, row_edge: int) -> bool {
    &&& uv.u * TEXTURE_COLUMNS == column_edge * UV_SPAN_U
    &&& uv.v * TEXTURE_ROWS == row_edge * UV_SPAN_V
}

/// The card at position `i` of the canonical order has its cell at column
/// `i % 4` and row `i / 4`, inside the sheet, and the front face of its mesh
/// spans exactly that cell, from `(column / 4, row / 13)` to
/// `((column + 1) / 4, (row + 1) / 13)` of the sheet.
pub proof fn lemma_front_face_spans_cell(i: nat)
    requires
        i < DECK_SIZE,
    ensures
        i % 4 < TEXTURE_COLUMNS,
        i / 4 < TEXTURE_ROWS,
        ({
            let column = (i % 4) as int;
            let row = (i / 4) as int;
            let uvs = card_uvs(column, row);
            &&& at_cell_corner(uvs[0], column, row)
            &&& at_cell_corner(uvs[1], column, row + 1)
            &&& at_cell_corner(uvs[2], column + 1, row + 1)
            &&& at_cell_corner(uvs[3], column + 1, row)
        }),
{
}

impl Card {
    /// The cell of the sprite sheet that holds the card: cells are filled
    /// row by row, four to a row, in the canonical order of the cards.
    pub fn texture_offset(self) -> (r: TextureOffset)
        ensures
            r.column == self.ordinal() % 4,
            r.row == self.ordinal() / 4,
            r.column < TEXTURE_COLUMNS,
            r.row < TEXTURE_ROWS,
    {
        let index = self.index();
        TextureOffset {
            column: (index % 4) as u32,
            row: (index / 4) as u32,
        }
    }

    /// The mesh of the card, cut from its cell of the sprite sheet.
    pub fn create_mesh(self) -> (r: CardMesh)
        ensures
            r.positions@ == box_positions(),
            r.normals@ == Seq::new(VERTEX_COUNT as nat, |v: int| face_normal(v / 4)),
            r.uvs@ == card_uvs((self.ordinal() % 4) as int, (self.ordinal() / 4) as int),
            r.indices@ == box_indices(),
    {
        let offset = self.texture_offset();
        create_mesh(offset.column, offset.row)
    }
}

} // verus!
