use vstd::prelude::*;

verus! {

/// Why a mesh request is refused.
#[derive(Clone, Copy, Debug, PartialEq, Eq, Structural)]
pub enum MeshError {
    NotUploaded,
}

impl MeshError {
    pub fn message(&self) -> (r: &'static str)
        ensures
            r@ == "Attempt to bind mesh not uploaded to GPU"@,
    {
        match self {
            MeshError::NotUploaded => "Attempt to bind mesh not uploaded to GPU",
        }
    }
}

/// A mesh of vertices `V` and 16-bit indices, with the device buffers `Buf`
/// that hold them once uploaded.
pub struct Mesh<V, Buf> {
    vertices: Vec<V>,
    indices: Vec<u16>,
    vertex_buffer: Option<Buf>,
    index_buffer: Option<Buf>,
}

impl<V, Buf> Mesh<V, Buf> {
    pub closed spec fn vertices(&self) -> Seq<V> {
        self.vertices@
    }

    pub closed spec fn indices(&self) -> Seq<u16> {
        self.indices@
    }

    pub closed spec fn buffers(&self) -> (Option<Buf>, Option<Buf>) {
        (self.vertex_buffer, self.index_buffer)
    }

    /// A mesh that is not uploaded yet.
    pub fn new(vertices: Vec<V>, indices: Vec<u16>) -> (r: Self)
        ensures
            r.vertices() == vertices@,
            r.indices() == indices@,
            r.buffers() == (None::<Buf>, None::<Buf>),
    {
        Mesh { vertices, indices, vertex_buffer: None, index_buffer: None }
    }

    /// The vertices, for copying into a staging buffer.
    pub fn vertices_slice(&self) -> (r: &[V])
        ensures
            r@ == self.vertices(),
    {
        self.vertices.as_slice()
    }

    /// The indices, for copying into a staging buffer.
    pub fn indices_slice(&self) -> (r: &[u16])
        ensures
            r@ == self.indices(),
    {
        self.indices.as_slice()
    }

    /// The byte sizes of the vertex and index data, for vertices of
    /// `vertex_size` bytes.
    pub fn upload_sizes(&self, vertex_size: usize) -> (r: (u64, u64))
        requires
            vertex_size * self.vertices().len() <= usize::MAX,
            2 * self.indices().len() <= usize::MAX,
        ensures
            r.0 == vertex_size * self.vertices().len(),
            r.1 == 2 * self.indices().len(),
    {
        let vertices_size = vertex_size * self.vertices.len();
        let indices_size = 2 * self.indices.len();
        (vertices_size as u64, indices_size as u64)
    }

    /// Records the device buffers that now hold the mesh.
    pub fn set_buffers(&mut self, vertex_buffer: Buf, index_buffer: Buf)
        ensures
            final(self).buffers() == (Some(vertex_buffer), Some(index_buffer)),
            final(self).vertices() == old(self).vertices(),
            final(self).indices() == old(self).indices(),
    {
        self.vertex_buffer = Some(vertex_buffer);
        self.index_buffer = Some(index_buffer);
    }

    /// The buffers to bind; refused before the mesh is uploaded.
    pub fn bind(&self) -> (r: Result<(&Buf, &Buf), MeshError>)
        ensures
            match self.buffers() {
                (Some(v), Some(i)) => r matches Ok((a, b)) && *a == v && *b == i,
                _ => r == Err::<(&Buf, &Buf), MeshError>(MeshError::NotUploaded),
            },
    {
        match (&self.vertex_buffer, &self.index_buffer) {
            (Some(v), Some(i)) => Ok((v, i)),
            _ => Err(MeshError::NotUploaded),
        }
    }

    /// The number of indices to draw.
    pub fn index_count(&self) -> (r: usize)
        ensures
            r == self.indices().len(),
    {
        self.indices.len()
    }

    /// Hands out the device buffers so that they can be destroyed.
    pub fn take_buffers(&mut self) -> (r: (Option<Buf>, Option<Buf>))
        ensures
            r == old(self).buffers(),
            final(self).buffers() == (None::<Buf>, None::<Buf>),
    {
        let v = self.vertex_buffer.take();
        let i = self.index_buffer.take();
        (v, i)
    }
}

} // verus!
