//! Validation rules for the renderer layers: every buffer handed to a layer
//! must come with its matching layout, and index data and the index buffer
//! must be present together or not at all.

use vstd::prelude::*;

use crate::error::{NeedleErr, NeedleError};

verus! {

/// Checks the construction-time invariant of a shader-driven layer: the
/// number of vertex buffers must equal the number of declared vertex-buffer
/// layouts, and index data must be present exactly when an index buffer is.
pub fn validate_buffer_registration(
    vertex_buffer_count: usize,
    vertex_buffer_layout_count: usize,
    has_index_data: bool,
    has_index_buffer: bool,
) -> (r: NeedleErr<()>)
    ensures
        r is Ok <==> (vertex_buffer_count == vertex_buffer_layout_count && has_index_data
            == has_index_buffer),
        r is Err ==> r == NeedleErr::<()>::Err(NeedleError::InvalidBufferRegistration),
{
    if vertex_buffer_count != vertex_buffer_layout_count {
        return Err(NeedleError::InvalidBufferRegistration);
    }
    if has_index_data != has_index_buffer {
        return Err(NeedleError::InvalidBufferRegistration);
    }
    Ok(())
}

/// Checks a vertex-buffer swap: the replacement set must have exactly as
/// many buffers as the set it replaces.
pub fn validate_buffer_swap(new_count: usize, current_count: usize) -> (r: NeedleErr<()>)
    ensures
        r is Ok <==> new_count == current_count,
        r is Err ==> r == NeedleErr::<()>::Err(NeedleError::InvalidBufferRegistration),
{
    if new_count != current_count {
        Err(NeedleError::InvalidBufferRegistration)
    } else {
        Ok(())
    }
}

/// The index data of an indexed quad: four corner vertices drawn as two
/// triangles, six indices, each naming one of the four vertices.
pub fn indexed_rectangle_indices() -> (r: Vec<u16>)
    ensures
        r@ == seq![0u16, 1u16, 3u16, 1u16, 2u16, 3u16],
        forall|i: int| 0 <= i < r@.len() ==> r@[i] < 4,
{
    let mut r: Vec<u16> = Vec::new();
    r.push(0);
    r.push(1);
    r.push(3);
    r.push(1);
    r.push(2);
    r.push(3);
    proof {
        assert(r@ =~= seq![0u16, 1u16, 3u16, 1u16, 2u16, 3u16]);
    }
    r
}

} // verus!
