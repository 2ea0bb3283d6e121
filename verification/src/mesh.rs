//! Meshes on the wire: the code of a primitive topology and which index
//! buffer a received mesh keeps.
use vstd::prelude::*;

verus! {

/// How the vertices of a mesh form primitives.
#[derive(Clone, Copy, Debug, PartialEq, Eq, Structural)]
pub enum PrimitiveTopology {
    PointList,
    LineList,
    LineStrip,
    TriangleList,
    TriangleStrip,
}

/// The code of a topology on the wire.
pub open spec fn topology_code_of(t: PrimitiveTopology) -> u8 {
    match t {
        PrimitiveTopology::PointList => 0,
        PrimitiveTopology::LineList => 1,
        PrimitiveTopology::LineStrip => 2,
        PrimitiveTopology::TriangleList => 3,
        PrimitiveTopology::TriangleStrip => 4,
    }
}

/// The topology a code stands for; an unknown code is read as a triangle
/// list.
pub open spec fn topology_of_code(c: u8) -> PrimitiveTopology {
    if c == 0 {
        PrimitiveTopology::PointList
    } else if c == 1 {
        PrimitiveTopology::LineList
    } else if c == 2 {
        PrimitiveTopology::LineStrip
    } else if c == 4 {
        PrimitiveTopology::TriangleStrip
    } else {
        PrimitiveTopology::TriangleList
    }
}

/// The code of a topology.
pub fn topology_code(t: PrimitiveTopology) -> (r: u8)
    ensures
        r == topology_code_of(t),
{
    match t {
        PrimitiveTopology::PointList => 0,
        PrimitiveTopology::LineList => 1,
        PrimitiveTopology::LineStrip => 2,
        PrimitiveTopology::TriangleList => 3,
        PrimitiveTopology::TriangleStrip => 4,
    }
}

/// The topology of a code.
pub fn topology_from_code(c: u8) -> (r: PrimitiveTopology)
    ensures
        r == topology_of_code(c),
{
    match c {
        0 => PrimitiveTopology::PointList,
        1 => PrimitiveTopology::LineList,
        2 => PrimitiveTopology::LineStrip,
        3 => PrimitiveTopology::TriangleList,
        4 => PrimitiveTopology::TriangleStrip,
        _ => PrimitiveTopology::TriangleList,
    }
}

/// Reading back the code of a topology gives that topology.
pub proof fn lemma_topology_round_trip(t: PrimitiveTopology)
    ensures
        topology_of_code(topology_code_of(t)) == t,
{
}

/// The index buffer of a mesh: 16-bit or 32-bit indices.
pub enum Indices {
    U16(Vec<u16>),
    U32(Vec<u32>),
}

/// The index buffers a mesh is sent with: the 32-bit one in the first slot,
/// the 16-bit one in the second, at most one of them present.
pub fn indices_to_parts(indices: Option<Indices>) -> (r: (Option<Vec<u32>>, Option<Vec<u16>>))
    ensures
        match indices {
            Some(Indices::U32(v)) => r.0 == Some(v) && r.1 is None,
            Some(Indices::U16(v)) => r.0 is None && r.1 == Some(v),
            None => r.0 is None && r.1 is None,
        },
{
    match indices {
        Some(Indices::U32(v)) => (Some(v), None),
        Some(Indices::U16(v)) => (None, Some(v)),
        None => (None, None),
    }
}

/// The index buffer a received mesh keeps: the 32-bit one is set first and
/// the 16-bit one, when present, replaces it.
pub fn indices_from_parts(indices32: Option<Vec<u32>>, indices16: Option<Vec<u16>>) -> (r: Option<Indices>)
    ensures
        match indices16 {
            Some(v) => r == Some(Indices::U16(v)),
            None => match indices32 {
                Some(v) => r == Some(Indices::U32(v)),
                None => r is None,
            },
        },
{
    match indices16 {
        Some(v) => Some(Indices::U16(v)),
        None => match indices32 {
            Some(v) => Some(Indices::U32(v)),
            None => None,
        },
    }
}

} // verus!
