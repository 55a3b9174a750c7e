//! Root-signature layout derivation from bind-group layouts.
//!
//! Walking the bind-group layouts in slot order, each group reserves one
//! root slot for a descriptor table over its fixed-offset entries (if it
//! has any), one for a sampler table (if it has samplers), and one root
//! slot per dynamic-offset buffer, since the native API has no per-table
//! dynamic offset. One extra leading slot is reserved for the emulated
//! draw constants when the device enables that feature. The whole layout
//! must fit the fixed budget of [`crate::MAX_ROOT_ELEMENTS`] slots;
//! a layout demanding more fails with a capacity error and never reaches
//! the native API.

use vstd::prelude::*;

use crate::descriptor::DualHandle;
use crate::resource::{GpuAddress, PipelineStateHandle, RootSignatureHandle};

verus! {

/// Kind of root buffer view a dynamic-offset buffer is bound as.
#[derive(Clone, Copy, Debug, PartialEq, Eq, Structural)]
pub enum BufferViewKind {
    Constant,
    ShaderResource,
    UnorderedAccess,
}

/// Which descriptor tables a bind group contributes to the root
/// signature.
#[derive(Clone, Copy, Debug, PartialEq, Eq, Structural)]
pub struct TableTypes {
    /// A table over constant-buffer, shader-resource and
    /// unordered-access entries.
    pub srv_cbv_uav: bool,
    /// A table over sampler entries.
    pub samplers: bool,
}

/// How a buffer binding is addressed by shaders.
#[derive(Clone, Copy, Debug, PartialEq, Eq, Structural)]
pub enum BufferBindingType {
    Uniform,
    Storage { read_only: bool },
}

/// Resource class of one bind-group layout entry.
#[derive(Clone, Copy, Debug, PartialEq, Eq, Structural)]
pub enum BindingType {
    Buffer { ty: BufferBindingType, has_dynamic_offset: bool },
    Sampler,
    Texture,
    StorageTexture,
}

/// One entry of a bind-group layout.
#[derive(Clone, Copy, Debug, PartialEq, Eq, Structural)]
pub struct BindGroupLayoutEntry {
    /// Shader-visible binding index; entries are kept sorted by it.
    pub binding: u32,
    pub ty: BindingType,
}

/// A bind-group layout: the sorted entries a group is instantiated
/// from.
#[derive(Debug, PartialEq, Eq)]
pub struct BindGroupLayout {
    pub entries: Vec<BindGroupLayoutEntry>,
}

/// An instantiated bind group: the descriptor tables copied into the
/// shader-visible heaps and the base addresses of its dynamic-offset
/// buffers, in layout-entry order.
#[derive(Debug, PartialEq, Eq)]
pub struct BindGroup {
    pub handle_views: Option<DualHandle>,
    pub handle_samplers: Option<DualHandle>,
    pub dynamic_buffers: Vec<GpuAddress>,
}

/// How one bind group maps onto root slots: where its slots start,
/// which tables it has, and the view kinds of its dynamic buffers in
/// traversal order — the order the binding state machine correlates
/// bind-time offsets with.
#[derive(Debug, PartialEq, Eq)]
pub struct BindGroupInfo {
    pub base_root_index: u32,
    pub tables: TableTypes,
    pub dynamic_buffers: Vec<BufferViewKind>,
}

/// The part of a pipeline layout every recording session reads: the
/// native signature (the layout's identity), how many root slots it
/// covers, and where the emulated draw constants live, if anywhere.
#[derive(Clone, Copy, Debug, PartialEq, Eq, Structural)]
pub struct PipelineLayoutShared {
    pub signature: RootSignatureHandle,
    pub total_root_elements: u32,
    pub special_constants_root_index: Option<u32>,
}

/// External-crate view: a fixed-capacity vector.
#[verifier::external_type_specification]
#[verifier::external_body]
#[verifier::reject_recursive_types(T)]
pub struct ExArrayVec<T, const CAP: usize>(arrayvec::ArrayVec<T, CAP>);

/// The bind-group infos an `ArrayVec` holds, in insertion order.
pub uninterp spec fn group_infos_of(
    v: arrayvec::ArrayVec<BindGroupInfo, 4>,
) -> Seq<BindGroupInfo>;

/// Relies on `ArrayVec::new`: the fresh vector is empty.
#[verifier::external_body]
fn group_infos_new() -> (r: arrayvec::ArrayVec<BindGroupInfo, 4>)
    ensures
        group_infos_of(r) == Seq::<BindGroupInfo>::empty(),
{
    arrayvec::ArrayVec::new()
}

/// Relies on `ArrayVec::push`: appends at the end; it panics when the
/// vector is full, which the precondition rules out.
#[verifier::external_body]
fn group_infos_push(v: &mut arrayvec::ArrayVec<BindGroupInfo, 4>, info: BindGroupInfo)
    requires
        group_infos_of(*old(v)).len() < 4,
    ensures
        group_infos_of(*final(v)) == group_infos_of(*old(v)).push(info),
{
    v.push(info)
}

/// Relies on `ArrayVec::len`: the number of elements held.
#[verifier::external_body]
fn group_infos_len(v: &arrayvec::ArrayVec<BindGroupInfo, 4>) -> (r: usize)
    ensures
        r == group_infos_of(*v).len(),
{
    v.len()
}

/// Relies on `ArrayVec`'s slice indexing (through `Deref`): the element
/// at `index`.
#[verifier::external_body]
pub(crate) fn group_infos_get(
    v: &arrayvec::ArrayVec<BindGroupInfo, 4>,
    index: usize,
) -> (r: &BindGroupInfo)
    requires
        index < group_infos_of(*v).len(),
    ensures
        *r == group_infos_of(*v)[index as int],
{
    &v[index]
}

/// A complete pipeline layout, immutable once built.
pub struct PipelineLayout {
    pub shared: PipelineLayoutShared,
    /// One entry per bind-group layout, in slot order.
    pub bind_group_infos: arrayvec::ArrayVec<BindGroupInfo, 4>,
}

impl PipelineLayout {
    /// Number of bind groups the layout covers.
    pub fn group_count(&self) -> (r: usize)
        ensures
            r == group_infos_of(self.bind_group_infos).len(),
    {
        group_infos_len(&self.bind_group_infos)
    }

    /// Root-slot mapping of the bind group at `index`.
    pub fn group_info(&self, index: usize) -> (r: &BindGroupInfo)
        requires
            index < group_infos_of(self.bind_group_infos).len(),
        ensures
            *r == group_infos_of(self.bind_group_infos)[index as int],
    {
        group_infos_get(&self.bind_group_infos, index)
    }
}

/// A compiled render pipeline and the layout identity it binds with.
pub struct RenderPipeline {
    pub raw: PipelineStateHandle,
    pub layout: PipelineLayoutShared,
    /// Native primitive topology code.
    pub topology: u32,
    /// Byte stride of each vertex buffer slot; zero means the slot is
    /// unused.
    pub vertex_strides: [u32; 16],
}

/// A compiled compute pipeline and the layout identity it binds with.
pub struct ComputePipeline {
    pub raw: PipelineStateHandle,
    pub layout: PipelineLayoutShared,
}

/// A pipeline layout could not be built.
#[derive(Clone, Copy, Debug, PartialEq, Eq, Structural)]
pub enum LayoutError {
    /// The bind-group layouts demand more root slots than the signature
    /// budget holds.
    Capacity,
}

/// Root buffer view kind of a dynamic-offset buffer binding.
pub open spec fn spec_dynamic_kind(ty: BufferBindingType) -> BufferViewKind {
    match ty {
        BufferBindingType::Uniform => BufferViewKind::Constant,
        BufferBindingType::Storage { read_only } => if read_only {
            BufferViewKind::ShaderResource
        } else {
            BufferViewKind::UnorderedAccess
        },
    }
}

/// Whether an entry goes into the group's view descriptor table:
/// fixed-offset buffers, textures and storage textures do; samplers
/// have their own table and dynamic buffers take root slots.
pub open spec fn spec_is_view_table_entry(e: BindGroupLayoutEntry) -> bool {
    match e.ty {
        BindingType::Buffer { has_dynamic_offset, .. } => !has_dynamic_offset,
        BindingType::Texture => true,
        BindingType::StorageTexture => true,
        BindingType::Sampler => false,
    }
}

/// Whether an entry goes into the group's sampler table.
pub open spec fn spec_is_sampler_entry(e: BindGroupLayoutEntry) -> bool {
    e.ty is Sampler
}

/// Whether any entry of the group needs a view descriptor table.
pub open spec fn spec_has_view_table(entries: Seq<BindGroupLayoutEntry>) -> bool
    decreases entries.len(),
{
    if entries.len() == 0 {
        false
    } else {
        spec_has_view_table(entries.drop_last()) || spec_is_view_table_entry(entries.last())
    }
}

/// Whether any entry of the group needs a sampler table.
pub open spec fn spec_has_sampler_table(entries: Seq<BindGroupLayoutEntry>) -> bool
    decreases entries.len(),
{
    if entries.len() == 0 {
        false
    } else {
        spec_has_sampler_table(entries.drop_last()) || spec_is_sampler_entry(entries.last())
    }
}

/// View kinds of the group's dynamic-offset buffers, in entry order.
pub open spec fn spec_dynamic_kinds(entries: Seq<BindGroupLayoutEntry>) -> Seq<BufferViewKind>
    decreases entries.len(),
{
    if entries.len() == 0 {
        Seq::<BufferViewKind>::empty()
    } else {
        let rest = spec_dynamic_kinds(entries.drop_last());
        match entries.last().ty {
            BindingType::Buffer { ty, has_dynamic_offset } => if has_dynamic_offset {
                rest.push(spec_dynamic_kind(ty))
            } else {
                rest
            },
            _ => rest,
        }
    }
}

/// Root slots one group demands: up to two tables plus one slot per
/// dynamic buffer.
pub open spec fn spec_group_slot_demand(entries: Seq<BindGroupLayoutEntry>) -> int {
    (if spec_has_view_table(entries) {
        1int
    } else {
        0int
    }) + (if spec_has_sampler_table(entries) {
        1int
    } else {
        0int
    }) + spec_dynamic_kinds(entries).len()
}

/// Combined root-slot demand of the first `n` bind-group layouts.
pub open spec fn spec_prefix_demand(groups: Seq<BindGroupLayout>, n: int) -> int
    decreases n,
{
    if n <= 0 {
        0
    } else {
        spec_prefix_demand(groups, n - 1) + spec_group_slot_demand(groups[n - 1].entries@)
    }
}

/// Combined root-slot demand of a whole pipeline layout, the leading
/// emulated-draw-constants slot included when that feature is on.
pub open spec fn spec_total_root_demand(groups: Seq<BindGroupLayout>, special: bool) -> int {
    (if special {
        1int
    } else {
        0int
    }) + spec_prefix_demand(groups, groups.len() as int)
}

/// Root index the slots of group `i` start at.
pub open spec fn spec_group_base_index(
    groups: Seq<BindGroupLayout>,
    special: bool,
    i: int,
) -> int {
    (if special {
        1int
    } else {
        0int
    }) + spec_prefix_demand(groups, i)
}

/// A prefix never demands more slots than a longer prefix.
proof fn lemma_prefix_demand_monotone(groups: Seq<BindGroupLayout>, i: int, j: int)
    requires
        0 <= i <= j,
    ensures
        spec_prefix_demand(groups, i) <= spec_prefix_demand(groups, j),
    decreases j - i,
{
    if i < j {
        lemma_prefix_demand_monotone(groups, i, j - 1);
    }
}

/// Scans one group's entries: which tables it needs and its dynamic
/// view kinds in entry order.
fn scan_group(entries: &Vec<BindGroupLayoutEntry>) -> (r: (bool, bool, Vec<BufferViewKind>))
    ensures
        r.0 == spec_has_view_table(entries@),
        r.1 == spec_has_sampler_table(entries@),
        r.2@ == spec_dynamic_kinds(entries@),
{
    let mut has_view = false;
    let mut has_sampler = false;
    let mut kinds: Vec<BufferViewKind> = Vec::new();
    let mut i: usize = 0;
    while i < entries.len()
        invariant
            i <= entries.len(),
            has_view == spec_has_view_table(entries@.take(i as int)),
            has_sampler == spec_has_sampler_table(entries@.take(i as int)),
            kinds@ == spec_dynamic_kinds(entries@.take(i as int)),
        decreases entries.len() - i,
    {
        proof {
            assert(entries@.take(i + 1 as int).drop_last() =~= entries@.take(i as int));
            assert(entries@.take(i + 1 as int).last() == entries@[i as int]);
        }
        let entry = entries[i];
        match entry.ty {
            BindingType::Buffer { ty, has_dynamic_offset } => {
                if has_dynamic_offset {
                    match ty {
                        BufferBindingType::Uniform => kinds.push(BufferViewKind::Constant),
                        BufferBindingType::Storage { read_only } => {
                            if read_only {
                                kinds.push(BufferViewKind::ShaderResource);
                            } else {
                                kinds.push(BufferViewKind::UnorderedAccess);
                            }
                        },
                    }
                } else {
                    has_view = true;
                }
            },
            BindingType::Texture | BindingType::StorageTexture => {
                has_view = true;
            },
            BindingType::Sampler => {
                has_sampler = true;
            },
        }
        i = i + 1;
    }
    proof {
        assert(entries@.take(entries@.len() as int) =~= entries@);
    }
    (has_view, has_sampler, kinds)
}

/// Builds the root-signature layout for an ordered list of bind-group
/// layouts, with `signature` the native signature the runtime created
/// for it. Fails with a capacity error — before anything is bound to
/// the native API — exactly when the combined demand exceeds the
/// 64-slot budget.
pub fn build_pipeline_layout(
    bind_group_layouts: &Vec<BindGroupLayout>,
    special_constants: bool,
    signature: RootSignatureHandle,
) -> (r: Result<PipelineLayout, LayoutError>)
    requires
        bind_group_layouts@.len() <= crate::MAX_BIND_GROUPS,
    ensures
        r is Ok <==> spec_total_root_demand(bind_group_layouts@, special_constants)
            <= crate::MAX_ROOT_ELEMENTS,
        r is Err ==> r == Result::<PipelineLayout, LayoutError>::Err(LayoutError::Capacity),
        r matches Ok(pl) ==> {
            &&& pl.shared.signature == signature
            &&& pl.shared.total_root_elements == spec_total_root_demand(
                bind_group_layouts@,
                special_constants,
            )
            &&& pl.shared.special_constants_root_index == (if special_constants {
                Some(0u32)
            } else {
                None::<u32>
            })
            &&& group_infos_of(pl.bind_group_infos).len() == bind_group_layouts@.len()
            &&& forall|i: int|
                0 <= i < bind_group_layouts@.len() ==> {
                    let info = #[trigger] group_infos_of(pl.bind_group_infos)[i];
                    &&& info.base_root_index == spec_group_base_index(
                        bind_group_layouts@,
                        special_constants,
                        i,
                    )
                    &&& info.tables.srv_cbv_uav == spec_has_view_table(
                        bind_group_layouts@[i].entries@,
                    )
                    &&& info.tables.samplers == spec_has_sampler_table(
                        bind_group_layouts@[i].entries@,
                    )
                    &&& info.dynamic_buffers@ == spec_dynamic_kinds(
                        bind_group_layouts@[i].entries@,
                    )
                }
        },
{
    let ghost groups = bind_group_layouts@;
    let mut infos = group_infos_new();
    let mut base: u32 = if special_constants {
        1
    } else {
        0
    };
    let mut g: usize = 0;
    while g < bind_group_layouts.len()
        invariant
            groups == bind_group_layouts@,
            groups.len() <= crate::MAX_BIND_GROUPS,
            g <= groups.len(),
            base == spec_group_base_index(groups, special_constants, g as int),
            base <= crate::MAX_ROOT_ELEMENTS,
            group_infos_of(infos).len() == g,
            forall|i: int|
                0 <= i < g ==> {
                    let info = #[trigger] group_infos_of(infos)[i];
                    &&& info.base_root_index == spec_group_base_index(
                        groups,
                        special_constants,
                        i,
                    )
                    &&& info.tables.srv_cbv_uav == spec_has_view_table(groups[i].entries@)
                    &&& info.tables.samplers == spec_has_sampler_table(groups[i].entries@)
                    &&& info.dynamic_buffers@ == spec_dynamic_kinds(groups[i].entries@)
                },
        decreases bind_group_layouts.len() - g,
    {
        let (has_view, has_sampler, kinds) = scan_group(&bind_group_layouts[g].entries);
        if kinds.len() > crate::MAX_ROOT_ELEMENTS {
            proof {
                lemma_prefix_demand_monotone(groups, g + 1 as int, groups.len() as int);
            }
            return Err(LayoutError::Capacity);
        }
        let table_slots: u32 = (if has_view {
            1u32
        } else {
            0u32
        }) + (if has_sampler {
            1u32
        } else {
            0u32
        });
        let slots: u32 = table_slots + kinds.len() as u32;
        if slots > crate::MAX_ROOT_ELEMENTS as u32 - base {
            proof {
                lemma_prefix_demand_monotone(groups, g + 1 as int, groups.len() as int);
            }
            return Err(LayoutError::Capacity);
        }
        group_infos_push(
            &mut infos,
            BindGroupInfo {
                base_root_index: base,
                tables: TableTypes { srv_cbv_uav: has_view, samplers: has_sampler },
                dynamic_buffers: kinds,
            },
        );
        base = base + slots;
        g = g + 1;
    }
    Ok(
        PipelineLayout {
            shared: PipelineLayoutShared {
                signature,
                total_root_elements: base,
                special_constants_root_index: if special_constants {
                    Some(0)
                } else {
                    None
                },
            },
            bind_group_infos: infos,
        },
    )
}

} // verus!
