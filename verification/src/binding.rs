//! Resource binding framework.
//!
//! A [`BindingLayout`] describes what resource kinds a shader stage expects
//! at which slots; a [`BindingSet`] attaches concrete resources against one
//! layout.  Creation of a binding set validates that the resource list
//! agrees with the layout in count, kind and order, exactly as the GPU API
//! would at bind-group creation time.

use vstd::prelude::*;

verus! {

/// The kind of resource a layout slot expects.
#[derive(Clone, Copy, PartialEq, Eq, Structural, Debug)]
pub enum ResourceKind {
    UniformBuffer,
    StorageBuffer { read_only: bool },
    SampledTexture,
    FilteringSampler,
    ComparisonSampler,
}

/// Which shader stages may read a binding slot.
#[derive(Clone, Copy, PartialEq, Eq, Structural, Debug)]
pub enum StageSet {
    Vertex,
    Fragment,
    VertexFragment,
    Compute,
}

/// One slot of a binding layout: its index, its visibility and the resource
/// kind it expects.
#[derive(Clone, Copy, PartialEq, Eq, Structural, Debug)]
pub struct LayoutEntry {
    pub binding: u32,
    pub visibility: StageSet,
    pub kind: ResourceKind,
}

/// Identity of a concrete GPU resource.  `slot` names the logical resource;
/// `generation` counts how many times it has been recreated, so a binding
/// set that captured an older generation is recognisably stale.
#[derive(Clone, Copy, PartialEq, Eq, Structural, Debug)]
pub struct ResourceId {
    pub slot: u64,
    pub generation: u64,
}

/// Hands out fresh resource identities, as the device does when a buffer
/// or texture is created.
#[derive(Debug)]
pub struct IdGen {
    pub next_slot: u64,
}

impl IdGen {
    pub fn new() -> (g: IdGen)
        ensures
            g.next_slot == 0,
    {
        IdGen { next_slot: 0 }
    }

    /// A fresh identity at generation zero.
    pub fn fresh(&mut self) -> (id: ResourceId)
        requires
            old(self).next_slot < u64::MAX,
        ensures
            id.slot == old(self).next_slot,
            id.generation == 0,
            final(self).next_slot == old(self).next_slot + 1,
    {
        let id = ResourceId { slot: self.next_slot, generation: 0 };
        self.next_slot = self.next_slot + 1;
        id
    }
}

/// A concrete resource attached to one binding slot.
#[derive(Clone, Copy, PartialEq, Eq, Structural, Debug)]
pub enum BoundResource {
    UniformBuffer { id: ResourceId },
    StorageBuffer { id: ResourceId, read_only: bool },
    TextureView { id: ResourceId },
    Sampler { id: ResourceId, comparison: bool },
}

/// The kind a concrete resource can fill.
pub open spec fn kind_of(r: BoundResource) -> ResourceKind {
    match r {
        BoundResource::UniformBuffer { .. } => ResourceKind::UniformBuffer,
        BoundResource::StorageBuffer { read_only, .. } => ResourceKind::StorageBuffer {
            read_only,
        },
        BoundResource::TextureView { .. } => ResourceKind::SampledTexture,
        BoundResource::Sampler { comparison, .. } => if comparison {
            ResourceKind::ComparisonSampler
        } else {
            ResourceKind::FilteringSampler
        },
    }
}

/// The identity of a concrete resource.
pub open spec fn id_of(r: BoundResource) -> ResourceId {
    match r {
        BoundResource::UniformBuffer { id } => id,
        BoundResource::StorageBuffer { id, .. } => id,
        BoundResource::TextureView { id } => id,
        BoundResource::Sampler { id, .. } => id,
    }
}

impl BoundResource {
    /// Executable mirror of [`kind_of`].
    pub fn kind(&self) -> (k: ResourceKind)
        ensures
            k == kind_of(*self),
    {
        match self {
            BoundResource::UniformBuffer { .. } => ResourceKind::UniformBuffer,
            BoundResource::StorageBuffer { read_only, .. } => ResourceKind::StorageBuffer {
                read_only: *read_only,
            },
            BoundResource::TextureView { .. } => ResourceKind::SampledTexture,
            BoundResource::Sampler { comparison, .. } => if *comparison {
                ResourceKind::ComparisonSampler
            } else {
                ResourceKind::FilteringSampler
            },
        }
    }
}

/// A layout's slots must be numbered consecutively from zero, the order in
/// which the GPU API receives them.
pub open spec fn entries_well_formed(entries: Seq<LayoutEntry>) -> bool {
    forall|i: int| 0 <= i < entries.len() ==> (#[trigger] entries[i]).binding == i
}

/// A resource list conforms to a layout when it agrees in count, kind and
/// order.
pub open spec fn conforms(resources: Seq<BoundResource>, entries: Seq<LayoutEntry>) -> bool {
    &&& resources.len() == entries.len()
    &&& forall|i: int|
        0 <= i < resources.len() ==> kind_of(#[trigger] resources[i]) == entries[i].kind
}

/// Description of what resource kinds a shader expects, built once per
/// bundle type.
#[derive(Debug)]
pub struct BindingLayout {
    pub label: String,
    pub entries: Vec<LayoutEntry>,
}

impl BindingLayout {
    pub open spec fn wf(self) -> bool {
        entries_well_formed(self.entries@)
    }
}

/// Why building a layout was refused.
#[derive(Clone, Copy, PartialEq, Eq, Structural, Debug)]
pub enum LayoutError {
    /// The first layout entry whose `binding` index does not equal its
    /// position.
    SlotOutOfOrder { position: usize },
}

/// Why attaching resources against a layout was refused.
#[derive(Clone, Copy, PartialEq, Eq, Structural, Debug)]
pub enum BindingError {
    /// The resource list and the layout differ in length.
    CountMismatch { expected: usize, got: usize },
    /// The first position whose resource is not of the kind the layout
    /// expects.
    KindMismatch { position: usize },
}

/// Builds a binding layout, refusing slot lists that are not numbered
/// consecutively from zero.
pub fn build_layout(entries: Vec<LayoutEntry>, label: &str) -> (r: Result<
    BindingLayout,
    LayoutError,
>)
    ensures
        r is Ok <==> entries_well_formed(entries@),
        r matches Ok(l) ==> l.entries@ == entries@ && l.label@ == label@ && l.wf(),
        r matches Err(e) ==> e matches LayoutError::SlotOutOfOrder { position } && 0 <= position
            < entries@.len() && entries@[position as int].binding != position && (forall|j: int|
            0 <= j < position ==> (#[trigger] entries@[j]).binding == j),
{
    let n = entries.len();
    let mut i: usize = 0;
    while i < n
        invariant
            i <= n,
            n == entries@.len(),
            forall|j: int| 0 <= j < i ==> (#[trigger] entries@[j]).binding == j,
        decreases n - i,
    {
        if entries[i].binding as usize != i {
            return Err(LayoutError::SlotOutOfOrder { position: i });
        }
        i += 1;
    }
    Ok(BindingLayout { label: label.to_owned(), entries })
}

/// Concrete resources instantiated against one layout, used at draw or
/// dispatch time.  It remembers the layout it was validated against and the
/// resources it captured.
#[derive(Debug)]
pub struct BindingSet {
    pub label: String,
    pub entries: Vec<LayoutEntry>,
    pub resources: Vec<BoundResource>,
}

impl BindingSet {
    pub open spec fn wf(self) -> bool {
        &&& entries_well_formed(self.entries@)
        &&& conforms(self.resources@, self.entries@)
    }

    /// True when some captured resource has the given identity.
    pub open spec fn references(self, id: ResourceId) -> bool {
        exists|i: int| 0 <= i < self.resources@.len() && id_of(#[trigger] self.resources@[i]) == id
    }

    /// True when every captured resource carries the given generation: no
    /// slot still points at an earlier incarnation of a recreated resource.
    pub open spec fn all_of_generation(self, generation: u64) -> bool {
        forall|i: int|
            0 <= i < self.resources@.len() ==> id_of(
                #[trigger] self.resources@[i],
            ).generation == generation
    }
}

/// A binding set whose every slot carries the current generation
/// references nothing of any other generation: once the targets it was
/// rebuilt over are current, no slot still points at a pre-resize
/// incarnation.
pub proof fn lemma_current_set_references_nothing_stale(
    s: BindingSet,
    current: u64,
    stale: ResourceId,
)
    requires
        s.all_of_generation(current),
        stale.generation != current,
    ensures
        !s.references(stale),
{
}

/// Attaches concrete resources against a layout.  Succeeds exactly when the
/// instance's resource list agrees with the layout in count, kind and
/// order; the reported error names the first disagreement.
pub fn create_binding_set(resources: Vec<BoundResource>, layout: &BindingLayout, label: &str) -> (r:
    Result<BindingSet, BindingError>)
    requires
        layout.wf(),
    ensures
        r is Ok <==> conforms(resources@, layout.entries@),
        r matches Ok(s) ==> s.resources@ == resources@ && s.entries@ == layout.entries@
            && s.label@ == label@ && s.wf(),
        r matches Err(BindingError::CountMismatch { expected, got }) ==> expected
            == layout.entries@.len() && got == resources@.len() && expected != got,
        r matches Err(BindingError::KindMismatch { position }) ==> resources@.len()
            == layout.entries@.len() && 0 <= position < resources@.len() && kind_of(
            resources@[position as int],
        ) != layout.entries@[position as int].kind && (forall|j: int|
            0 <= j < position ==> kind_of(#[trigger] resources@[j]) == layout.entries@[j].kind),
{
    let n = layout.entries.len();
    if resources.len() != n {
        return Err(
            BindingError::CountMismatch { expected: n, got: resources.len() },
        );
    }
    let mut i: usize = 0;
    while i < n
        invariant
            i <= n,
            n == layout.entries@.len(),
            n == resources@.len(),
            forall|j: int|
                0 <= j < i ==> kind_of(#[trigger] resources@[j]) == layout.entries@[j].kind,
        decreases n - i,
    {
        if resources[i].kind() != layout.entries[i].kind {
            return Err(BindingError::KindMismatch { position: i });
        }
        i += 1;
    }
    Ok(BindingSet { label: label.to_owned(), entries: copy_entries(&layout.entries), resources })
}

/// Copies a layout's entry list so a binding set can remember what it was
/// validated against.
fn copy_entries(entries: &Vec<LayoutEntry>) -> (r: Vec<LayoutEntry>)
    ensures
        r@ == entries@,
{
    let mut out: Vec<LayoutEntry> = Vec::new();
    let n = entries.len();
    let mut i: usize = 0;
    while i < n
        invariant
            i <= n,
            n == entries@.len(),
            out@ == entries@.subrange(0, i as int),
        decreases n - i,
    {
        out.push(entries[i]);
        i += 1;
    }
    proof {
        assert(out@ =~= entries@);
    }
    out
}

} // verus!
