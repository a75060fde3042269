//! The indexes of a quad made of two triangles.

use vstd::prelude::*;

verus! {

/// The type of vertex indexes.
pub type Index = u32;

/// The six indexes of a quad's two triangles (bottom left, bottom right, top left; then
/// top left, bottom right, top right), for a quad whose four vertexes start at
/// `quad_offset` in the vertex buffer (at 0 when no offset is given).
pub fn quad_indexes(quad_offset: Option<Index>) -> (indexes: Vec<Index>)
    requires
        quad_offset matches Some(o) ==> o + 3 <= Index::MAX,
    ensures
        ({
            let o = match quad_offset {
                Some(o) => o as int,
                None => 0,
            };
            indexes@ == seq![o as Index, (o + 1) as Index, (o + 2) as Index, (o + 2) as Index, (o + 1) as Index, (o + 3) as Index]
        }),
{
    let offset = match quad_offset {
        Some(o) => o,
        None => 0,
    };
    let indexes: Vec<Index> = vec![
        0 + offset,
        1 + offset,
        2 + offset,
        2 + offset,
        1 + offset,
        3 + offset,
    ];
    indexes
}

} // verus!
