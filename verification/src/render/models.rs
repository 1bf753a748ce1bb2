use vstd::prelude::*;
use crate::render::vulkano_objects::buffers::ModelData;

verus! {

/// Main trait of every model: something with vertices, and with indices that
/// pick its triangles out of them.
pub trait Model<Vert> {
    fn get_indices(&self) -> &Vec<u16>;

    fn get_vertices(&self) -> &Vec<Vert>;
}

impl<Vert> Model<Vert> for ModelData<Vert> {
    fn get_indices(&self) -> (indices: &Vec<u16>)
        ensures
            indices@ == self.indices@,
    {
        &self.indices
    }

    fn get_vertices(&self) -> (vertices: &Vec<Vert>)
        ensures
            vertices@ == self.vertices@,
    {
        &self.vertices
    }
}

} // verus!
