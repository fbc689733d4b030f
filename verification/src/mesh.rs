use vstd::prelude::*;

verus! {

/// The index buffer of a procedural mesh, together with the number of
/// vertices the mesh holds. Every index names one of the mesh's vertices.
pub struct GeometryIndices {
    vertex_count: u32,
    indices: Vec<u32>,
}

impl GeometryIndices {
    /// Every index names an existing vertex.
    pub open spec fn wf(self) -> bool {
        forall|k: int| 0 <= k < self.spec_indices().len() ==> #[trigger] self.spec_indices()[k] < self.spec_vertex_count()
    }

    pub closed spec fn spec_vertex_count(self) -> u32 {
        self.vertex_count
    }

    pub closed spec fn spec_indices(self) -> Seq<u32> {
        self.indices@
    }

    /// An empty mesh with room for `initial_capacity` indices.
    pub fn new(initial_capacity: usize) -> (mesh: Self)
        ensures
            mesh.wf(),
            mesh.spec_vertex_count() == 0,
            mesh.spec_indices() == Seq::<u32>::empty(),
    {
        GeometryIndices { vertex_count: 0, indices: Vec::with_capacity(initial_capacity) }
    }

    /// Clears all geometry while retaining any allocated memory.
    pub fn clear(&mut self)
        ensures
            final(self).wf(),
            final(self).spec_vertex_count() == 0,
            final(self).spec_indices() == Seq::<u32>::empty(),
    {
        self.vertex_count = 0;
        self.indices.clear();
    }

    /// Add the three vertices and three indices of a triangle.
    pub fn triangle(&mut self) -> (base_index: u32)
        requires
            old(self).spec_vertex_count() + 3 <= u32::MAX,
        ensures
            base_index == old(self).spec_vertex_count(),
            final(self).spec_vertex_count() == old(self).spec_vertex_count() + 3,
            final(self).spec_indices() == old(self).spec_indices() + seq![
                base_index,
                (base_index + 1) as u32,
                (base_index + 2) as u32,
            ],
            old(self).wf() ==> final(self).wf(),
    {
        let base_index = self.vertex_count;
        self.vertex_count = base_index + 3;
        self.indices.push(base_index);
        self.indices.push(base_index + 1);
        self.indices.push(base_index + 2);
        proof {
            assert(self.indices@ =~= old(self).indices@ + seq![
                base_index,
                (base_index + 1) as u32,
                (base_index + 2) as u32,
            ]);
        }
        base_index
    }

    /// Add the four corners and the six indices (two triangles) of an
    /// axis-aligned quad: top left, bottom left, bottom right, then top left,
    /// bottom right, top right.
    pub fn aligned_quad(&mut self) -> (base_index: u32)
        requires
            old(self).spec_vertex_count() + 4 <= u32::MAX,
        ensures
            base_index == old(self).spec_vertex_count(),
            final(self).spec_vertex_count() == old(self).spec_vertex_count() + 4,
            final(self).spec_indices() == old(self).spec_indices() + seq![
                base_index,
                (base_index + 1) as u32,
                (base_index + 2) as u32,
                base_index,
                (base_index + 2) as u32,
                (base_index + 3) as u32,
            ],
            old(self).wf() ==> final(self).wf(),
    {
        let base_index = self.vertex_count;
        self.vertex_count = base_index + 4;
        self.indices.push(base_index);
        self.indices.push(base_index + 1);
        self.indices.push(base_index + 2);
        self.indices.push(base_index);
        self.indices.push(base_index + 2);
        self.indices.push(base_index + 3);
        proof {
            assert(self.indices@ =~= old(self).indices@ + seq![
                base_index,
                (base_index + 1) as u32,
                (base_index + 2) as u32,
                base_index,
                (base_index + 2) as u32,
                (base_index + 3) as u32,
            ]);
        }
        base_index
    }

    /// The number of vertices the mesh holds.
    pub fn vertex_count(&self) -> (count: u32)
        ensures
            count == self.spec_vertex_count(),
    {
        self.vertex_count
    }

    /// The index buffer.
    pub fn indices(&self) -> (indices: &[u32])
        ensures
            indices@ == self.spec_indices(),
    {
        self.indices.as_slice()
    }
}

/// Where one mesh's indices and vertices start in a frame's shared buffers,
/// and how many indices it draws.
#[derive(Copy, Clone, Debug, PartialEq, Eq, Structural)]
pub struct DrawRange {
    pub index_offset: u32,
    pub vertex_offset: u32,
    pub index_count: u32,
}

/// The sum of the first `n` index counts (`.0`) and vertex counts (`.1`).
pub open spec fn prefix_sums(mesh_sizes: Seq<(u32, u32)>, n: int) -> (int, int)
    decreases n,
{
    if n <= 0 {
        (0, 0)
    } else {
        let rest = prefix_sums(mesh_sizes, n - 1);
        (rest.0 + mesh_sizes[n - 1].0, rest.1 + mesh_sizes[n - 1].1)
    }
}

/// Lay the meshes out one after the other in the shared index and vertex
/// buffers: `mesh_sizes[k]` holds mesh `k`'s index count and vertex count.
/// The ranges depend on these meshes alone, so laying out a frame again
/// replaces, and does not extend, what an earlier layout gave.
pub fn draw_ranges(mesh_sizes: &Vec<(u32, u32)>) -> (ranges: Vec<DrawRange>)
    requires
        prefix_sums(mesh_sizes@, mesh_sizes@.len() as int).0 <= u32::MAX,
        prefix_sums(mesh_sizes@, mesh_sizes@.len() as int).1 <= u32::MAX,
    ensures
        ranges@.len() == mesh_sizes@.len(),
        forall|k: int|
            0 <= k < ranges@.len() ==> {
                &&& #[trigger] ranges@[k].index_offset == prefix_sums(mesh_sizes@, k).0
                &&& ranges@[k].vertex_offset == prefix_sums(mesh_sizes@, k).1
                &&& ranges@[k].index_count == mesh_sizes@[k].0
            },
{
    let mut ranges: Vec<DrawRange> = Vec::with_capacity(mesh_sizes.len());
    let mut index_offset: u32 = 0;
    let mut vertex_offset: u32 = 0;
    let mut k: usize = 0;
    while k < mesh_sizes.len()
        invariant
            k <= mesh_sizes@.len(),
            ranges@.len() == k,
            index_offset == prefix_sums(mesh_sizes@, k as int).0,
            vertex_offset == prefix_sums(mesh_sizes@, k as int).1,
            prefix_sums(mesh_sizes@, mesh_sizes@.len() as int).0 <= u32::MAX,
            prefix_sums(mesh_sizes@, mesh_sizes@.len() as int).1 <= u32::MAX,
            forall|j: int|
                0 <= j < k ==> {
                    &&& #[trigger] ranges@[j].index_offset == prefix_sums(mesh_sizes@, j).0
                    &&& ranges@[j].vertex_offset == prefix_sums(mesh_sizes@, j).1
                    &&& ranges@[j].index_count == mesh_sizes@[j].0
                },
        decreases mesh_sizes@.len() - k,
    {
        let (index_count, vertex_count) = mesh_sizes[k];
        proof {
            lemma_prefix_sums_monotonic(mesh_sizes@, k as int + 1, mesh_sizes@.len() as int);
        }
        ranges.push(DrawRange { index_offset, vertex_offset, index_count });
        index_offset = index_offset + index_count;
        vertex_offset = vertex_offset + vertex_count;
        k = k + 1;
    }
    ranges
}

/// Prefix sums grow with the number of summands.
pub proof fn lemma_prefix_sums_monotonic(mesh_sizes: Seq<(u32, u32)>, m: int, n: int)
    requires
        0 <= m <= n,
    ensures
        prefix_sums(mesh_sizes, m).0 <= prefix_sums(mesh_sizes, n).0,
        prefix_sums(mesh_sizes, m).1 <= prefix_sums(mesh_sizes, n).1,
    decreases n - m,
{
    if m < n {
        lemma_prefix_sums_monotonic(mesh_sizes, m, n - 1);
    }
}

/// The draw ranges follow one another without gap or overlap and all lie
/// within the shared buffers: mesh `k`'s indices and vertices start where
/// mesh `k - 1`'s end, and end no later than the totals.
pub proof fn law_draw_ranges_are_contiguous(mesh_sizes: Seq<(u32, u32)>, k: int)
    requires
        0 <= k < mesh_sizes.len(),
    ensures
        k > 0 ==> prefix_sums(mesh_sizes, k).0 == prefix_sums(mesh_sizes, k - 1).0 + mesh_sizes[k
            - 1].0,
        k > 0 ==> prefix_sums(mesh_sizes, k).1 == prefix_sums(mesh_sizes, k - 1).1 + mesh_sizes[k
            - 1].1,
        prefix_sums(mesh_sizes, k).0 + mesh_sizes[k].0 <= prefix_sums(
            mesh_sizes,
            mesh_sizes.len() as int,
        ).0,
        prefix_sums(mesh_sizes, k).1 + mesh_sizes[k].1 <= prefix_sums(
            mesh_sizes,
            mesh_sizes.len() as int,
        ).1,
{
    lemma_prefix_sums_monotonic(mesh_sizes, k + 1, mesh_sizes.len() as int);
}

/// The raw handle value of no pipeline.
pub const NULL_PIPELINE: u64 = 0;

/// Whether draw `k` must bind its pipeline: it does when the pipeline differs
/// from the one bound for the previous draw (none before the first draw).
pub open spec fn needs_bind(pipelines: Seq<u64>, k: int) -> bool {
    pipelines[k] != if k == 0 {
        NULL_PIPELINE
    } else {
        pipelines[k - 1]
    }
}

/// For each draw, in order, whether its pipeline must be bound before it.
pub fn pipeline_binds(pipelines: &Vec<u64>) -> (binds: Vec<bool>)
    ensures
        binds@.len() == pipelines@.len(),
        forall|k: int| 0 <= k < binds@.len() ==> #[trigger] binds@[k] == needs_bind(pipelines@, k),
{
    let mut binds: Vec<bool> = Vec::with_capacity(pipelines.len());
    let mut last_bound_pipeline: u64 = NULL_PIPELINE;
    let mut k: usize = 0;
    while k < pipelines.len()
        invariant
            k <= pipelines@.len(),
            binds@.len() == k,
            last_bound_pipeline == if k == 0 {
                NULL_PIPELINE
            } else {
                pipelines@[k - 1]
            },
            forall|j: int| 0 <= j < k ==> #[trigger] binds@[j] == needs_bind(pipelines@, j),
        decreases pipelines@.len() - k,
    {
        let pipeline = pipelines[k];
        if pipeline != last_bound_pipeline {
            binds.push(true);
            last_bound_pipeline = pipeline;
        } else {
            binds.push(false);
        }
        k = k + 1;
    }
    binds
}

} // verus!
