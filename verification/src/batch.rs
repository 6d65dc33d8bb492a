use vstd::prelude::*;

verus! {

/// Most vertices one batch holds: every vertex must be addressable by a `u16` index.
pub const MAX_VERTICES: usize = 65535;

/// Most indices one batch holds.
pub const MAX_INDICES: usize = MAX_VERTICES * 6;

/// Most instances one batch holds.
pub const MAX_INSTANCES: usize = 10000;

/// The mathematical state of a [`GeometryBatch`].
pub struct GeometryBatchView<V, I> {
    pub vertices: Seq<V>,
    pub indices: Seq<u16>,
    pub instances: Seq<I>,
    pub vertices_dirty: bool,
    pub indices_dirty: bool,
    pub instances_dirty: bool,
}

impl<V, I> GeometryBatchView<V, I> {
    /// Adding `vert_count` vertices and `idx_count` indices would exceed the limits.
    pub open spec fn overflows(self, vert_count: int, idx_count: int) -> bool {
        self.vertices.len() + vert_count > MAX_VERTICES || self.indices.len() + idx_count
            > MAX_INDICES
    }

    /// The state after reserving `vert_count` vertices (set to `fill`) and
    /// `idx_count` indices (set to 0).
    pub open spec fn reserved(self, vert_count: nat, idx_count: nat, fill: V) -> Self {
        GeometryBatchView {
            vertices: self.vertices + Seq::new(vert_count, |i: int| fill),
            indices: self.indices + Seq::new(idx_count, |i: int| 0u16),
            vertices_dirty: true,
            indices_dirty: true,
            ..self
        }
    }

    /// Holds at most [`MAX_VERTICES`] vertices, [`MAX_INDICES`] indices and
    /// [`MAX_INSTANCES`] instances.
    pub open spec fn within_limits(self) -> bool {
        &&& self.vertices.len() <= MAX_VERTICES
        &&& self.indices.len() <= MAX_INDICES
        &&& self.instances.len() <= MAX_INSTANCES
    }

    /// Nothing to draw on either path.
    pub open spec fn is_empty(self) -> bool {
        self.indices.len() == 0 && self.instances.len() == 0
    }
}

/// The indices of a push: each one offset by the number of vertices already held.
pub open spec fn offset_by(indices: Seq<u16>, offset: int) -> Seq<u16> {
    Seq::new(indices.len(), |i: int| (indices[i] + offset) as u16)
}

/// A batch of geometry (vertices + indices) and instances that can be drawn in
/// one GPU call per path.
///
/// Keeps the CPU side: the data, which parts changed since the last upload,
/// and the limits that keep every vertex addressable by a `u16` index.
/// Supports two draw paths:
/// - Baked geometry (vertices + indices) for paths, polygons, arbitrary meshes
/// - Instanced drawing for quads/rects/sprites via a static unit quad
pub struct GeometryBatch<V, I> {
    vertices: Vec<V>,
    indices: Vec<u16>,
    vertices_dirty: bool,
    indices_dirty: bool,
    instances: Vec<I>,
    instances_dirty: bool,
}

impl<V, I> View for GeometryBatch<V, I> {
    type V = GeometryBatchView<V, I>;

    closed spec fn view(&self) -> GeometryBatchView<V, I> {
        GeometryBatchView {
            vertices: self.vertices@,
            indices: self.indices@,
            instances: self.instances@,
            vertices_dirty: self.vertices_dirty,
            indices_dirty: self.indices_dirty,
            instances_dirty: self.instances_dirty,
        }
    }
}

impl<V, I> GeometryBatch<V, I> {
    #[verifier::type_invariant]
    spec fn within_limits(self) -> bool {
        &&& self.vertices@.len() <= MAX_VERTICES
        &&& self.indices@.len() <= MAX_INDICES
        &&& self.instances@.len() <= MAX_INSTANCES
    }
}

/// The state of a batch that holds nothing and has nothing to upload.
pub open spec fn empty_batch<V, I>() -> GeometryBatchView<V, I> {
    GeometryBatchView {
        vertices: Seq::empty(),
        indices: Seq::empty(),
        instances: Seq::empty(),
        vertices_dirty: false,
        indices_dirty: false,
        instances_dirty: false,
    }
}

impl<V, I> GeometryBatch<V, I> {
    /// An empty batch with nothing to upload.
    pub fn new() -> (r: Self)
        ensures
            r@ == empty_batch::<V, I>(),
    {
        GeometryBatch {
            vertices: Vec::with_capacity(MAX_VERTICES),
            indices: Vec::with_capacity(MAX_INDICES),
            vertices_dirty: false,
            indices_dirty: false,
            instances: Vec::new(),
            instances_dirty: false,
        }
    }

    /// Returns true if adding verts/indices would exceed max allowed
    pub fn would_overflow(&self, vert_count: usize, idx_count: usize) -> (r: bool)
        ensures
            r == self@.overflows(vert_count as int, idx_count as int),
            self@.within_limits(),
    {
        proof {
            use_type_invariant(self);
        }
        vert_count > MAX_VERTICES - self.vertices.len() || idx_count > MAX_INDICES
            - self.indices.len()
    }

    /// Returns true if the instance list is full: it never holds more than
    /// [`MAX_INSTANCES`], so full means exactly that many.
    pub fn instances_full(&self) -> (r: bool)
        ensures
            r == (self@.instances.len() >= MAX_INSTANCES),
            r == (self@.instances.len() == MAX_INSTANCES),
            self@.within_limits(),
    {
        proof {
            use_type_invariant(self);
        }
        self.instances.len() >= MAX_INSTANCES
    }

    /// Reserves space for `vert_count` vertices (set to `fill`) and `idx_count`
    /// indices (set to 0) and marks both dirty.
    ///
    /// Returns where the new vertices and indices start, and the start of the
    /// vertices again as the `u16` base that indices into them are offset by.
    /// Returns `None`, changing nothing, if this would exceed the limits.
    pub fn try_allocate(&mut self, vert_count: usize, idx_count: usize, fill: V) -> (r: Option<
        (usize, usize, u16),
    >) where V: Copy
        ensures
            final(self)@.within_limits(),
            old(self)@.overflows(vert_count as int, idx_count as int) ==> r is None
                && final(self)@ == old(self)@,
            !old(self)@.overflows(vert_count as int, idx_count as int) ==> r == Some(
                (
                    old(self)@.vertices.len() as usize,
                    old(self)@.indices.len() as usize,
                    old(self)@.vertices.len() as u16,
                ),
            ) && final(self)@ == old(self)@.reserved(vert_count as nat, idx_count as nat, fill),
    {
        proof {
            use_type_invariant(&*self);
        }
        if self.would_overflow(vert_count, idx_count) {
            return None;
        }
        proof {
            use_type_invariant(&*self);
        }
        let v_start = self.vertices.len();
        let i_start = self.indices.len();
        let mut verts: Vec<V> = Vec::new();
        let mut idxs: Vec<u16> = Vec::new();
        std::mem::swap(&mut verts, &mut self.vertices);
        std::mem::swap(&mut idxs, &mut self.indices);
        let ghost old_v = verts@;
        let ghost old_i = idxs@;
        let mut k: usize = 0;
        while k < vert_count
            invariant
                k <= vert_count,
                v_start + vert_count <= MAX_VERTICES,
                verts@ == old_v + Seq::new(k as nat, |i: int| fill),
                old_v.len() == v_start,
            decreases vert_count - k,
        {
            verts.push(fill);
            k += 1;
            assert(verts@ =~= old_v + Seq::new(k as nat, |i: int| fill));
        }
        let mut k: usize = 0;
        while k < idx_count
            invariant
                k <= idx_count,
                i_start + idx_count <= MAX_INDICES,
                idxs@ == old_i + Seq::new(k as nat, |i: int| 0u16),
                old_i.len() == i_start,
            decreases idx_count - k,
        {
            idxs.push(0);
            k += 1;
            assert(idxs@ =~= old_i + Seq::new(k as nat, |i: int| 0u16));
        }
        self.vertices = verts;
        self.indices = idxs;
        self.vertices_dirty = true;
        self.indices_dirty = true;
        Some((v_start, i_start, v_start as u16))
    }

    /// Overwrites vertex `i`.
    pub fn set_vertex(&mut self, i: usize, v: V)
        requires
            i < old(self)@.vertices.len(),
        ensures
            final(self)@ == (GeometryBatchView {
                vertices: old(self)@.vertices.update(i as int, v),
                ..old(self)@
            }),
    {
        proof {
            use_type_invariant(&*self);
        }
        let mut verts: Vec<V> = Vec::new();
        std::mem::swap(&mut verts, &mut self.vertices);
        verts.set(i, v);
        self.vertices = verts;
    }

    /// Overwrites index `i`.
    pub fn set_index(&mut self, i: usize, idx: u16)
        requires
            i < old(self)@.indices.len(),
        ensures
            final(self)@ == (GeometryBatchView {
                indices: old(self)@.indices.update(i as int, idx),
                ..old(self)@
            }),
    {
        proof {
            use_type_invariant(&*self);
        }
        let mut idxs: Vec<u16> = Vec::new();
        std::mem::swap(&mut idxs, &mut self.indices);
        idxs.set(i, idx);
        self.indices = idxs;
    }

    /// Adds vertices and indices, each index offset by the number of vertices
    /// already held; returns false, changing nothing, if it would overflow.
    pub fn push(&mut self, verts: &[V], indices: &[u16]) -> (r: bool) where V: Copy
        requires
            !old(self)@.overflows(verts@.len() as int, indices@.len() as int) ==> forall|j: int|
                0 <= j < indices@.len() ==> #[trigger] indices@[j] + old(self)@.vertices.len()
                    <= u16::MAX,
        ensures
            final(self)@.within_limits(),
            r == !old(self)@.overflows(verts@.len() as int, indices@.len() as int),
            !r ==> final(self)@ == old(self)@,
            r ==> final(self)@ == (GeometryBatchView {
                vertices: old(self)@.vertices + verts@,
                indices: old(self)@.indices + offset_by(indices@, old(self)@.vertices.len() as int),
                vertices_dirty: true,
                indices_dirty: true,
                ..old(self)@
            }),
    {
        proof {
            use_type_invariant(&*self);
        }
        if self.would_overflow(verts.len(), indices.len()) {
            return false;
        }
        proof {
            use_type_invariant(&*self);
        }
        let idx_offset = self.vertices.len() as u16;
        let mut vs: Vec<V> = Vec::new();
        let mut is: Vec<u16> = Vec::new();
        std::mem::swap(&mut vs, &mut self.vertices);
        std::mem::swap(&mut is, &mut self.indices);
        let ghost old_v = vs@;
        let ghost old_i = is@;
        let mut k: usize = 0;
        while k < verts.len()
            invariant
                k <= verts@.len(),
                old_v.len() + verts@.len() <= MAX_VERTICES,
                vs@ == old_v + verts@.subrange(0, k as int),
            decreases verts.len() - k,
        {
            vs.push(verts[k]);
            k += 1;
            assert(vs@ =~= old_v + verts@.subrange(0, k as int));
        }
        let mut k: usize = 0;
        while k < indices.len()
            invariant
                k <= indices@.len(),
                idx_offset == old_v.len(),
                old_i.len() + indices@.len() <= MAX_INDICES,
                is@ == old_i + offset_by(indices@, old_v.len() as int).subrange(0, k as int),
                forall|j: int| 0 <= j < indices@.len() ==> #[trigger] indices@[j] + old_v.len() <= u16::MAX,
            decreases indices.len() - k,
        {
            is.push(indices[k] + idx_offset);
            k += 1;
            assert(is@ =~= old_i + offset_by(indices@, old_v.len() as int).subrange(0, k as int));
        }
        self.vertices = vs;
        self.indices = is;
        assert(verts@.subrange(0, verts@.len() as int) =~= verts@);
        assert(offset_by(indices@, old_v.len() as int).subrange(0, indices@.len() as int) =~= offset_by(indices@, old_v.len() as int));
        self.vertices_dirty = true;
        self.indices_dirty = true;
        true
    }

    /// Pushes an instance for instanced drawing; dropped if the batch is full
    pub fn push_instance(&mut self, instance: I)
        ensures
            final(self)@.within_limits(),
            old(self)@.instances.len() < MAX_INSTANCES ==> final(self)@ == (GeometryBatchView {
                instances: old(self)@.instances.push(instance),
                instances_dirty: true,
                ..old(self)@
            }),
            old(self)@.instances.len() >= MAX_INSTANCES ==> final(self)@ == old(self)@,
    {
        proof {
            use_type_invariant(&*self);
        }
        if self.instances.len() < MAX_INSTANCES {
        proof {
            use_type_invariant(&*self);
        }
            let mut insts: Vec<I> = Vec::new();
            std::mem::swap(&mut insts, &mut self.instances);
            insts.push(instance);
            self.instances = insts;
            self.instances_dirty = true;
        }
    }

    /// Returns true if there is nothing to draw in either path
    pub fn is_empty(&self) -> (r: bool)
        ensures
            r == self@.is_empty(),
            self@.within_limits(),
    {
        proof {
            use_type_invariant(self);
        }
        self.indices.len() == 0 && self.instances.len() == 0
    }

    /// Clears geometry and instances; everything is marked for upload again
    pub fn clear(&mut self)
        ensures
            final(self)@ == (GeometryBatchView::<V, I> {
                vertices: Seq::empty(),
                indices: Seq::empty(),
                instances: Seq::empty(),
                vertices_dirty: true,
                indices_dirty: true,
                instances_dirty: true,
            }),
    {
        proof {
            use_type_invariant(&*self);
        }
        self.vertices = Vec::new();
        self.indices = Vec::new();
        self.instances = Vec::new();
        self.vertices_dirty = true;
        self.indices_dirty = true;
        self.instances_dirty = true;
    }

    /// Decides what must be uploaded to the GPU: each part that changed and is
    /// not empty, as (vertices, indices, instances). Those parts are marked
    /// clean; a changed but empty part stays marked.
    pub fn take_uploads(&mut self) -> (r: (bool, bool, bool))
        ensures
            r == (
                old(self)@.vertices_dirty && old(self)@.vertices.len() > 0,
                old(self)@.indices_dirty && old(self)@.indices.len() > 0,
                old(self)@.instances_dirty && old(self)@.instances.len() > 0,
            ),
            final(self)@ == (GeometryBatchView {
                vertices_dirty: old(self)@.vertices_dirty && !r.0,
                indices_dirty: old(self)@.indices_dirty && !r.1,
                instances_dirty: old(self)@.instances_dirty && !r.2,
                ..old(self)@
            }),
    {
        proof {
            use_type_invariant(&*self);
        }
        let v = self.vertices_dirty && self.vertices.len() > 0;
        let i = self.indices_dirty && self.indices.len() > 0;
        let n = self.instances_dirty && self.instances.len() > 0;
        if v {
            self.vertices_dirty = false;
        }
        if i {
            self.indices_dirty = false;
        }
        if n {
            self.instances_dirty = false;
        }
        (v, i, n)
    }

    /// Which draw calls to issue: the instanced one (when there are instances
    /// and their buffer exists) and the baked one (when there are indices and
    /// both the vertex and the index buffer exist).
    pub fn draw_plan(&self, has_instance_buffer: bool, has_vertex_buffer: bool, has_index_buffer: bool) -> (r: (bool, bool))
        ensures
            r == (
                self@.instances.len() > 0 && has_instance_buffer,
                self@.indices.len() > 0 && has_vertex_buffer && has_index_buffer,
            ),
    {
        (
            self.instances.len() > 0 && has_instance_buffer,
            self.indices.len() > 0 && has_vertex_buffer && has_index_buffer,
        )
    }

    /// The vertices held.
    pub fn vertices(&self) -> (r: &[V])
        ensures
            r@ == self@.vertices,
            self@.within_limits(),
    {
        proof {
            use_type_invariant(self);
        }
        self.vertices.as_slice()
    }

    /// The indices held.
    pub fn indices(&self) -> (r: &[u16])
        ensures
            r@ == self@.indices,
            self@.within_limits(),
    {
        proof {
            use_type_invariant(self);
        }
        self.indices.as_slice()
    }

    /// The instances held.
    pub fn instances(&self) -> (r: &[I])
        ensures
            r@ == self@.instances,
            self@.within_limits(),
    {
        proof {
            use_type_invariant(self);
        }
        self.instances.as_slice()
    }
}

impl<V, I> Default for GeometryBatch<V, I> {
    fn default() -> (r: Self)
        ensures
            r@ == empty_batch::<V, I>(),
    {
        Self::new()
    }
}

/// The geometry for one (texture, shader) pair.
pub struct BatchEntry<V, I> {
    pub texture_id: Option<usize>,
    pub shader_id: Option<usize>,
    pub geometry: GeometryBatch<V, I>,
}

/// The mathematical state of a [`BatchEntry`].
pub struct BatchEntryView<V, I> {
    pub texture_id: Option<usize>,
    pub shader_id: Option<usize>,
    pub geometry: GeometryBatchView<V, I>,
}

impl<V, I> View for BatchEntry<V, I> {
    type V = BatchEntryView<V, I>;

    open spec fn view(&self) -> BatchEntryView<V, I> {
        BatchEntryView {
            texture_id: self.texture_id,
            shader_id: self.shader_id,
            geometry: self.geometry@,
        }
    }
}

/// Geometry grouped into batches, one run of batches per (texture, shader) pair.
pub struct PrimitiveBatch<V, I> {
    batches: Vec<BatchEntry<V, I>>,
}

impl<V, I> View for PrimitiveBatch<V, I> {
    type V = Seq<BatchEntryView<V, I>>;

    closed spec fn view(&self) -> Seq<BatchEntryView<V, I>> {
        self.batches@.map_values(|e: BatchEntry<V, I>| e@)
    }
}

impl<V, I> PrimitiveBatch<V, I> {
    pub fn new() -> (r: Self)
        ensures
            r@ == Seq::<BatchEntryView<V, I>>::empty(),
    {
        let r = PrimitiveBatch { batches: Vec::new() };
        assert(r@ =~= Seq::<BatchEntryView<V, I>>::empty());
        r
    }

    /// The batch for `(texture_id, shader_id)` can take `vert_count` more
    /// vertices and `idx_count` more indices.
    pub open spec fn fits(e: BatchEntryView<V, I>, vert_count: int, idx_count: int, texture_id: Option<usize>, shader_id: Option<usize>) -> bool {
        &&& e.texture_id == texture_id
        &&& e.shader_id == shader_id
        &&& !e.geometry.overflows(vert_count, idx_count)
    }

    /// The state of an entry after a successful reservation in it.
    pub open spec fn reserved_in(e: BatchEntryView<V, I>, vert_count: nat, idx_count: nat, fill: V) -> BatchEntryView<V, I> {
        BatchEntryView { geometry: e.geometry.reserved(vert_count, idx_count, fill), ..e }
    }

    fn same_id(a: Option<usize>, b: Option<usize>) -> (r: bool)
        ensures
            r == (a == b),
    {
        match (a, b) {
            (Some(x), Some(y)) => x == y,
            (None, None) => true,
            _ => false,
        }
    }

    /// Reserves space for `vert_count` vertices and `idx_count` indices in the
    /// first batch for `texture_id` + `shader_id` that has room; if none has,
    /// a new batch for that pair is added and the space reserved there.
    ///
    /// Returns the batch used, where the new vertices and indices start in it,
    /// and the `u16` base for indices into the new vertices. Returns `None`
    /// only when the request exceeds the limits of an empty batch (the new,
    /// empty batch is still added).
    pub fn allocate(
        &mut self,
        vert_count: usize,
        idx_count: usize,
        texture_id: Option<usize>,
        shader_id: Option<usize>,
        fill: V,
    ) -> (r: Option<(usize, usize, usize, u16)>) where V: Copy
        ensures
            (exists|i: int| 0 <= i < old(self)@.len() && Self::fits(#[trigger] old(self)@[i], vert_count as int, idx_count as int, texture_id, shader_id)) ==> {
                &&& r is Some
                &&& {
                    let (e, v, x, base) = r->0;
                    &&& e < old(self)@.len()
                    &&& Self::fits(old(self)@[e as int], vert_count as int, idx_count as int, texture_id, shader_id)
                    &&& forall|j: int| 0 <= j < e ==> !Self::fits(#[trigger] old(self)@[j], vert_count as int, idx_count as int, texture_id, shader_id)
                    &&& v == old(self)@[e as int].geometry.vertices.len()
                    &&& x == old(self)@[e as int].geometry.indices.len()
                    &&& base == v as u16
                    &&& final(self)@ == old(self)@.update(e as int, Self::reserved_in(old(self)@[e as int], vert_count as nat, idx_count as nat, fill))
                }
            },
            !(exists|i: int| 0 <= i < old(self)@.len() && Self::fits(#[trigger] old(self)@[i], vert_count as int, idx_count as int, texture_id, shader_id)) ==> {
                let fresh = BatchEntryView { texture_id, shader_id, geometry: empty_batch::<V, I>() };
                &&& (r is None) == fresh.geometry.overflows(vert_count as int, idx_count as int)
                &&& r is None ==> final(self)@ == old(self)@.push(fresh)
                &&& r is Some ==> r == Some((old(self)@.len() as usize, 0usize, 0usize, 0u16))
                    && final(self)@ == old(self)@.push(Self::reserved_in(fresh, vert_count as nat, idx_count as nat, fill))
            },
    {
        let mut i: usize = 0;
        while i < self.batches.len()
            invariant
                i <= self.batches@.len(),
                self@ == old(self)@,
                forall|j: int| 0 <= j < i ==> !Self::fits(#[trigger] self@[j], vert_count as int, idx_count as int, texture_id, shader_id),
            decreases self.batches.len() - i,
        {
            if Self::same_id(self.batches[i].texture_id, texture_id) && Self::same_id(self.batches[i].shader_id, shader_id)
                && !self.batches[i].geometry.would_overflow(vert_count, idx_count) {
                assert(self@[i as int] == self.batches@[i as int]@);
                let r = self.batches[i].geometry.try_allocate(vert_count, idx_count, fill);
                assert(self@ =~= old(self)@.update(i as int, Self::reserved_in(old(self)@[i as int], vert_count as nat, idx_count as nat, fill)));
                let (v, x, base) = r.unwrap();
                return Some((i, v, x, base));
            }
            assert(self@[i as int] == self.batches@[i as int]@);
            i += 1;
        }
        let len = self.batches.len();
        self.batches.push(BatchEntry { texture_id, shader_id, geometry: GeometryBatch::new() });
        assert(self.batches@[len as int]@.geometry == empty_batch::<V, I>());
        let r = self.batches[len].geometry.try_allocate(vert_count, idx_count, fill);
        proof {
            let fresh = BatchEntryView { texture_id, shader_id, geometry: empty_batch::<V, I>() };
            if r is None {
                assert(self@ =~= old(self)@.push(fresh));
            } else {
                assert(self@ =~= old(self)@.push(Self::reserved_in(fresh, vert_count as nat, idx_count as nat, fill)));
            }
        }
        match r {
            Some((v, x, base)) => Some((len, v, x, base)),
            None => None,
        }
    }

    /// The state of an entry after `verts` and `indices` (relative to the
    /// first of `verts`) were added to it.
    pub open spec fn pushed_in(e: BatchEntryView<V, I>, verts: Seq<V>, indices: Seq<u16>) -> BatchEntryView<V, I> {
        BatchEntryView {
            geometry: GeometryBatchView {
                vertices: e.geometry.vertices + verts,
                indices: e.geometry.indices + offset_by(indices, e.geometry.vertices.len() as int),
                vertices_dirty: true,
                indices_dirty: true,
                ..e.geometry
            },
            ..e
        }
    }

    /// Adds a mesh, `verts` and `indices` into them (each below
    /// `verts.len()`), to the first batch for `texture_id` + `shader_id` that
    /// has room; if none has, a new batch for that pair is added and the mesh
    /// goes there. The indices are moved up by the number of vertices the
    /// batch held before.
    ///
    /// Returns the batch used; `None` only when the mesh exceeds the limits
    /// of an empty batch (the new, empty batch is still added).
    pub fn push_mesh(
        &mut self,
        verts: &[V],
        indices: &[u16],
        texture_id: Option<usize>,
        shader_id: Option<usize>,
    ) -> (r: Option<usize>) where V: Copy
        requires
            forall|j: int| 0 <= j < indices@.len() ==> #[trigger] indices@[j] < verts@.len(),
        ensures
            (exists|i: int| 0 <= i < old(self)@.len() && Self::fits(#[trigger] old(self)@[i], verts@.len() as int, indices@.len() as int, texture_id, shader_id)) ==> {
                &&& r is Some
                &&& {
                    let e = r->0;
                    &&& e < old(self)@.len()
                    &&& Self::fits(old(self)@[e as int], verts@.len() as int, indices@.len() as int, texture_id, shader_id)
                    &&& forall|j: int| 0 <= j < e ==> !Self::fits(#[trigger] old(self)@[j], verts@.len() as int, indices@.len() as int, texture_id, shader_id)
                    &&& final(self)@ == old(self)@.update(e as int, Self::pushed_in(old(self)@[e as int], verts@, indices@))
                }
            },
            !(exists|i: int| 0 <= i < old(self)@.len() && Self::fits(#[trigger] old(self)@[i], verts@.len() as int, indices@.len() as int, texture_id, shader_id)) ==> {
                let fresh = BatchEntryView { texture_id, shader_id, geometry: empty_batch::<V, I>() };
                &&& (r is None) == fresh.geometry.overflows(verts@.len() as int, indices@.len() as int)
                &&& r is None ==> final(self)@ == old(self)@.push(fresh)
                &&& r is Some ==> r == Some(old(self)@.len() as usize)
                    && final(self)@ == old(self)@.push(Self::pushed_in(fresh, verts@, indices@))
            },
    {
        let mut i: usize = 0;
        while i < self.batches.len()
            invariant
                i <= self.batches@.len(),
                self@ == old(self)@,
                forall|j: int| 0 <= j < i ==> !Self::fits(#[trigger] self@[j], verts@.len() as int, indices@.len() as int, texture_id, shader_id),
                forall|j: int| 0 <= j < indices@.len() ==> #[trigger] indices@[j] < verts@.len(),
            decreases self.batches.len() - i,
        {
            if Self::same_id(self.batches[i].texture_id, texture_id) && Self::same_id(self.batches[i].shader_id, shader_id)
                && !self.batches[i].geometry.would_overflow(verts.len(), indices.len()) {
                assert(self@[i as int] == self.batches@[i as int]@);
                let ghost held = self@[i as int].geometry.vertices.len();
                assert forall|j: int| 0 <= j < indices@.len() implies #[trigger] indices@[j] + held <= u16::MAX by {
                    assert(indices@[j] < verts@.len());
                }
                let ok = self.batches[i].geometry.push(verts, indices);
                assert(ok);
                assert(self@ =~= old(self)@.update(i as int, Self::pushed_in(old(self)@[i as int], verts@, indices@)));
                return Some(i);
            }
            assert(self@[i as int] == self.batches@[i as int]@);
            i += 1;
        }
        let len = self.batches.len();
        self.batches.push(BatchEntry { texture_id, shader_id, geometry: GeometryBatch::new() });
        assert(self.batches@[len as int]@.geometry == empty_batch::<V, I>());
        let ok = self.batches[len].geometry.push(verts, indices);
        proof {
            let fresh = BatchEntryView { texture_id, shader_id, geometry: empty_batch::<V, I>() };
            if !ok {
                assert(self@ =~= old(self)@.push(fresh));
            } else {
                assert(self@ =~= old(self)@.push(Self::pushed_in(fresh, verts@, indices@)));
            }
        }
        if ok {
            Some(len)
        } else {
            None
        }
    }

    /// Moves all batch entries out, leaving no batches.
    /// Used for ephemeral paths (offscreen rendering) where batch reuse isn't needed
    pub fn take(&mut self) -> (r: Vec<BatchEntry<V, I>>)
        ensures
            r@.map_values(|e: BatchEntry<V, I>| e@) == old(self)@,
            final(self)@ == Seq::<BatchEntryView<V, I>>::empty(),
    {
        let mut out: Vec<BatchEntry<V, I>> = Vec::new();
        std::mem::swap(&mut out, &mut self.batches);
        assert(self@ =~= Seq::<BatchEntryView<V, I>>::empty());
        out
    }

    /// Clears the geometry of all batches but keeps the entries (and whatever
    /// the caller keeps alongside them) for reuse next frame
    pub fn reset(&mut self)
        ensures
            final(self)@.len() == old(self)@.len(),
            forall|i: int| 0 <= i < old(self)@.len() ==> (#[trigger] final(self)@[i]) == (BatchEntryView {
                geometry: GeometryBatchView::<V, I> {
                    vertices: Seq::empty(),
                    indices: Seq::empty(),
                    instances: Seq::empty(),
                    vertices_dirty: true,
                    indices_dirty: true,
                    instances_dirty: true,
                },
                ..old(self)@[i]
            }),
    {
        let mut i: usize = 0;
        while i < self.batches.len()
            invariant
                i <= self.batches@.len(),
                self@.len() == old(self)@.len(),
                forall|j: int| 0 <= j < i ==> (#[trigger] self@[j]) == (BatchEntryView {
                    geometry: GeometryBatchView::<V, I> {
                        vertices: Seq::empty(),
                        indices: Seq::empty(),
                        instances: Seq::empty(),
                        vertices_dirty: true,
                        indices_dirty: true,
                        instances_dirty: true,
                    },
                    ..old(self)@[j]
                }),
                forall|j: int| i <= j < self@.len() ==> (#[trigger] self@[j]) == old(self)@[j],
            decreases self.batches.len() - i,
        {
            let ghost before = self@;
            assert(self@[i as int] == old(self)@[i as int]);
            self.batches[i].geometry.clear();
            assert(self@ =~= before.update(i as int, self.batches@[i as int]@));
            assert(self@[i as int].texture_id == old(self)@[i as int].texture_id);
            assert(self@[i as int].shader_id == old(self)@[i as int].shader_id);
            assert(self@[i as int].geometry.vertices =~= Seq::empty());
            assert(self@[i as int].geometry.indices =~= Seq::empty());
            assert(self@[i as int].geometry.instances =~= Seq::empty());
            i += 1;
        }
    }

    /// Number of batch entries.
    pub fn len(&self) -> (r: usize)
        ensures
            r == self@.len(),
    {
        self.batches.len()
    }

    /// Batch entry `i`.
    pub fn entry(&self, i: usize) -> (r: &BatchEntry<V, I>)
        requires
            i < self@.len(),
        ensures
            r@ == self@[i as int],
            r@.geometry.within_limits(),
    {
        let e = &self.batches[i];
        proof {
            use_type_invariant(&e.geometry);
        }
        e
    }

    /// Decides what batch `i` must upload (see [`GeometryBatch::take_uploads`]).
    pub fn take_uploads(&mut self, i: usize) -> (r: (bool, bool, bool))
        requires
            i < old(self)@.len(),
        ensures
            ({
                let g = old(self)@[i as int].geometry;
                &&& r == (
                    g.vertices_dirty && g.vertices.len() > 0,
                    g.indices_dirty && g.indices.len() > 0,
                    g.instances_dirty && g.instances.len() > 0,
                )
                &&& final(self)@ == old(self)@.update(i as int, BatchEntryView {
                    geometry: GeometryBatchView {
                        vertices_dirty: g.vertices_dirty && !r.0,
                        indices_dirty: g.indices_dirty && !r.1,
                        instances_dirty: g.instances_dirty && !r.2,
                        ..g
                    },
                    ..old(self)@[i as int]
                })
            }),
    {
        let r = self.batches[i].geometry.take_uploads();
        assert(self@ =~= old(self)@.update(i as int, self.batches@[i as int]@));
        r
    }

    /// Overwrites vertex `i` of batch `e` (a vertex reserved by [`Self::allocate`]).
    pub fn set_vertex(&mut self, e: usize, i: usize, v: V)
        requires
            e < old(self)@.len(),
            i < old(self)@[e as int].geometry.vertices.len(),
        ensures
            final(self)@ == old(self)@.update(e as int, BatchEntryView {
                geometry: GeometryBatchView {
                    vertices: old(self)@[e as int].geometry.vertices.update(i as int, v),
                    ..old(self)@[e as int].geometry
                },
                ..old(self)@[e as int]
            }),
    {
        assert(self@[e as int] == self.batches@[e as int]@);
        self.batches[e].geometry.set_vertex(i, v);
        assert(self@ =~= old(self)@.update(e as int, self.batches@[e as int]@));
    }

    /// Overwrites index `i` of batch `e` (an index reserved by [`Self::allocate`]).
    pub fn set_index(&mut self, e: usize, i: usize, idx: u16)
        requires
            e < old(self)@.len(),
            i < old(self)@[e as int].geometry.indices.len(),
        ensures
            final(self)@ == old(self)@.update(e as int, BatchEntryView {
                geometry: GeometryBatchView {
                    indices: old(self)@[e as int].geometry.indices.update(i as int, idx),
                    ..old(self)@[e as int].geometry
                },
                ..old(self)@[e as int]
            }),
    {
        assert(self@[e as int] == self.batches@[e as int]@);
        self.batches[e].geometry.set_index(i, idx);
        assert(self@ =~= old(self)@.update(e as int, self.batches@[e as int]@));
    }
}

/// Bytes to append to an upload of `byte_len` bytes so that its length is a
/// multiple of `align`.
pub fn copy_padding(byte_len: usize, align: usize) -> (r: usize)
    requires
        align > 0,
    ensures
        r < align,
        (byte_len + r) % (align as int) == 0,
        r == if byte_len % align == 0 { 0 } else { align - byte_len % align },
{
    let rem = byte_len % align;
    if rem != 0 {
        proof {
            assert((byte_len + (align - rem)) % (align as int) == 0) by (nonlinear_arith)
                requires
                    rem == byte_len % align,
                    align > 0,
            {
                vstd::arithmetic::div_mod::lemma_fundamental_div_mod(byte_len as int, align as int);
                vstd::arithmetic::div_mod::lemma_mod_multiples_basic((byte_len / align) as int + 1, align as int);
            }
        }
        align - rem
    } else {
        0
    }
}

/// Indices pushed into a batch point into the vertices pushed with them:
/// an index below the number of pushed vertices lands among them.
pub proof fn law_push_keeps_indices_in_range(indices: Seq<u16>, held: int, pushed: int)
    requires
        0 <= held,
        forall|j: int| 0 <= j < indices.len() ==> #[trigger] indices[j] < pushed && indices[j] + held <= u16::MAX,
    ensures
        forall|j: int| 0 <= j < indices.len() ==> held <= #[trigger] offset_by(indices, held)[j] < held + pushed,
{
}

/// Reserving never takes a batch past its limits, and a request that fits
/// an empty batch always fits a fresh one.
pub proof fn law_reserve_within_limits<V, I>(g: GeometryBatchView<V, I>, vert_count: nat, idx_count: nat, fill: V)
    requires
        !g.overflows(vert_count as int, idx_count as int),
    ensures
        g.reserved(vert_count, idx_count, fill).vertices.len() <= MAX_VERTICES,
        g.reserved(vert_count, idx_count, fill).indices.len() <= MAX_INDICES,
        !empty_batch::<V, I>().overflows(vert_count as int, idx_count as int) <== (vert_count <= MAX_VERTICES && idx_count <= MAX_INDICES),
{
}

/// A cleared batch has nothing to draw.
pub proof fn law_cleared_is_empty<V, I>()
    ensures
        (GeometryBatchView::<V, I> {
            vertices: Seq::empty(),
            indices: Seq::empty(),
            instances: Seq::empty(),
            vertices_dirty: true,
            indices_dirty: true,
            instances_dirty: true,
        }).is_empty(),
{
}

} // verus!
