//! The dirty-tracked root-binding state machine.
//!
//! Per recording session, a 64-slot array mirrors the logical value of
//! every root parameter, and a 64-bit mask marks the slots whose native
//! binding is stale relative to the array. Changing the pipeline layout
//! invalidates every native binding, so it dirties every slot the new
//! layout covers — even when the new layout is structurally identical
//! to the old one, only identity (the native signature) counts. Binding
//! a group stores and dirties only the slots whose value actually
//! changed. Immediately before every draw or dispatch the dirty slots
//! are flushed as native bind commands and the mask returns to zero.

use vstd::prelude::*;

use crate::layout::{
    BindGroup, BindGroupInfo, BufferViewKind, PipelineLayout, PipelineLayoutShared,
    group_infos_of, group_infos_get,
};
use crate::resource::{GpuDescriptor, RootSignatureHandle};

verus! {

/// The logical value occupying one root-parameter slot.
#[derive(Clone, Copy, Debug, PartialEq, Eq, Structural)]
pub enum RootElement {
    Empty,
    /// Emulated base-vertex/base-instance draw constants.
    SpecialConstantBuffer { base_vertex: i32, base_instance: u32, other: u32 },
    /// A descriptor table in a shader-visible heap.
    Table(GpuDescriptor),
    /// A buffer bound directly with a bind-time dynamic offset.
    DynamicOffsetBuffer { kind: BufferViewKind, address: u64 },
}

/// What a recording session is currently doing.
#[derive(Clone, Copy, Debug, PartialEq, Eq, Structural)]
pub enum PassKind {
    Render,
    Compute,
    Transfer,
}

/// A native vertex-buffer binding.
#[derive(Clone, Copy, Debug, PartialEq, Eq, Structural)]
pub struct VertexBufferView {
    pub buffer_location: u64,
    pub size_in_bytes: u32,
    pub stride_in_bytes: u32,
}

/// One native bind call the flush asks the runtime to issue.
#[derive(Clone, Copy, Debug, PartialEq, Eq, Structural)]
pub enum BindCommand {
    /// Bind a descriptor table at a root slot.
    SetTable { index: u32, handle: GpuDescriptor },
    /// Bind a root buffer view of the given kind at a root slot.
    SetBufferView { index: u32, kind: BufferViewKind, address: u64 },
    /// Set the inline 32-bit draw constants at a root slot.
    SetConstants { index: u32, base_vertex: i32, base_instance: u32, other: u32 },
}

/// Whether bit `i` of the dirty mask is set.
pub open spec fn spec_bit_set(mask: u64, i: u64) -> bool {
    i < 64 && (mask >> i) & 1u64 == 1u64
}

/// Per-session root-binding state, reset to all-empty at the start of
/// every pass.
pub struct PassState {
    /// Layout the session last bound; its signature is the identity
    /// that layout changes are detected by.
    pub layout: PipelineLayoutShared,
    /// Logical value of every root slot.
    pub root_elements: [RootElement; 64],
    /// Bit `i` set exactly when slot `i`'s native binding is stale
    /// relative to `root_elements[i]`.
    pub dirty_root_elements: u64,
    /// Logical value of every vertex-buffer slot.
    pub vertex_buffers: [VertexBufferView; 16],
    /// Vertex-buffer slots `0..dirty_vertex_buffers` cover every stale
    /// slot; the native call binds that contiguous range.
    pub dirty_vertex_buffers: usize,
    pub kind: PassKind,
}

/// Well-formedness of a session: the layout fits the budget, every
/// dirty bit lies below the layout's slot count, and the vertex dirty
/// count stays within its array.
pub open spec fn spec_pass_wf(s: PassState) -> bool {
    &&& s.layout.total_root_elements <= 64
    &&& forall|i: u64| spec_bit_set(s.dirty_root_elements, i) ==> i < s.layout.total_root_elements
    &&& s.dirty_vertex_buffers <= 16
}

/// The all-empty session state.
pub open spec fn spec_pass_cleared(s: PassState) -> bool {
    &&& s.layout.signature == RootSignatureHandle(0)
    &&& s.layout.total_root_elements == 0
    &&& s.layout.special_constants_root_index is None
    &&& forall|i: int| 0 <= i < 64 ==> s.root_elements@[i] == RootElement::Empty
    &&& s.dirty_root_elements == 0
    &&& forall|i: int|
        0 <= i < 16 ==> s.vertex_buffers@[i] == (VertexBufferView {
            buffer_location: 0,
            size_in_bytes: 0,
            stride_in_bytes: 0,
        })
    &&& s.dirty_vertex_buffers == 0
    &&& s.kind == PassKind::Transfer
}

/// A zero mask has no bit set.
proof fn lemma_zero_mask_clear(i: u64)
    ensures
        !spec_bit_set(0u64, i),
{
    assert((0u64 >> i) & 1u64 != 1u64) by (bit_vector);
}

/// Setting bit `j` leaves every other bit alone.
proof fn lemma_bit_or_single(m: u64, j: u64, i: u64)
    requires
        j < 64,
        i < 64,
    ensures
        spec_bit_set(m | (1u64 << j), i) <==> (spec_bit_set(m, i) || i == j),
{
    assert((((m | (1u64 << j)) >> i) & 1u64 == 1u64) <==> (((m >> i) & 1u64 == 1u64) || i == j))
        by (bit_vector)
        requires
            i < 64 && j < 64,
    ;
}

/// A mask whose set bits are exactly those below `n`.
fn low_mask(n: u32) -> (r: u64)
    requires
        n <= 64,
    ensures
        forall|i: u64| spec_bit_set(r, i) <==> i < n,
{
    if n >= 64 {
        proof {
            assert forall|i: u64| spec_bit_set(0xFFFF_FFFF_FFFF_FFFFu64, i) <==> i < 64u32 by {
                if i < 64 {
                    assert((0xFFFF_FFFF_FFFF_FFFFu64 >> i) & 1u64 == 1u64) by (bit_vector)
                        requires
                            i < 64,
                    ;
                }
            }
        }
        0xFFFF_FFFF_FFFF_FFFF
    } else {
        let r = !(0xFFFF_FFFF_FFFF_FFFFu64 << (n as u64));
        proof {
            assert forall|i: u64| spec_bit_set(r, i) <==> i < n by {
                if i < 64 {
                    let nn = n as u64;
                    assert(((!(0xFFFF_FFFF_FFFF_FFFFu64 << nn) >> i) & 1u64 == 1u64) <==> i < nn)
                        by (bit_vector)
                        requires
                            i < 64 && nn < 64,
                    ;
                }
            }
        }
        r
    }
}

impl PassState {
    /// The all-empty state a session starts every pass in.
    pub fn new() -> (r: PassState)
        ensures
            spec_pass_cleared(r),
            spec_pass_wf(r),
    {
        let r = PassState {
            layout: PipelineLayoutShared {
                signature: RootSignatureHandle(0),
                total_root_elements: 0,
                special_constants_root_index: None,
            },
            root_elements: [RootElement::Empty; 64],
            dirty_root_elements: 0,
            vertex_buffers: [VertexBufferView {
                buffer_location: 0,
                size_in_bytes: 0,
                stride_in_bytes: 0,
            }; 16],
            dirty_vertex_buffers: 0,
            kind: PassKind::Transfer,
        };
        proof {
            assert forall|i: u64| spec_bit_set(r.dirty_root_elements, i) implies i
                < r.layout.total_root_elements by {
                lemma_zero_mask_clear(i);
            }
        }
        r
    }

    /// Resets the session between passes.
    pub fn clear(&mut self)
        ensures
            spec_pass_cleared(*final(self)),
            spec_pass_wf(*final(self)),
    {
        *self = Self::new();
    }

    /// Switches the session to `new_layout`. If the layout is the same
    /// by identity (same native signature), nothing changes — in
    /// particular no clean slot becomes dirty. A different identity
    /// dirties every slot the new layout covers, structural equality
    /// notwithstanding: the native API invalidates all bindings on a
    /// signature change.
    pub fn set_pipeline_layout(&mut self, new_layout: &PipelineLayoutShared)
        requires
            spec_pass_wf(*old(self)),
            new_layout.total_root_elements <= 64,
        ensures
            spec_pass_wf(*final(self)),
            final(self).root_elements@ == old(self).root_elements@,
            final(self).vertex_buffers@ == old(self).vertex_buffers@,
            final(self).dirty_vertex_buffers == old(self).dirty_vertex_buffers,
            final(self).kind == old(self).kind,
            old(self).layout.signature == new_layout.signature ==> final(self).layout == old(
                self,
            ).layout && final(self).dirty_root_elements == old(self).dirty_root_elements,
            old(self).layout.signature != new_layout.signature ==> final(self).layout
                == *new_layout && (forall|i: u64|
                spec_bit_set(final(self).dirty_root_elements, i) <==> i
                    < new_layout.total_root_elements),
    {
        if self.layout.signature != new_layout.signature {
            self.dirty_root_elements = low_mask(new_layout.total_root_elements);
            self.layout = *new_layout;
        }
    }

    /// Stores `value` at root slot `index`, marking the slot dirty
    /// exactly when the stored value actually changed.
    fn update_root_element(&mut self, index: u32, value: RootElement)
        requires
            spec_pass_wf(*old(self)),
            index < old(self).layout.total_root_elements,
        ensures
            spec_pass_wf(*final(self)),
            final(self).layout == old(self).layout,
            final(self).vertex_buffers@ == old(self).vertex_buffers@,
            final(self).dirty_vertex_buffers == old(self).dirty_vertex_buffers,
            final(self).kind == old(self).kind,
            final(self).root_elements@ == old(self).root_elements@.update(index as int, value),
            forall|i: u64|
                spec_bit_set(final(self).dirty_root_elements, i) <==> (spec_bit_set(
                    old(self).dirty_root_elements,
                    i,
                ) || (i == index && old(self).root_elements@[index as int] != value)),
    {
        let current = self.root_elements[index as usize];
        if current != value {
            self.root_elements[index as usize] = value;
            self.dirty_root_elements = self.dirty_root_elements | (1u64 << (index as u64));
            proof {
                assert forall|i: u64|
                    spec_bit_set(self.dirty_root_elements, i) <==> (spec_bit_set(
                        old(self).dirty_root_elements,
                        i,
                    ) || i == index) by {
                    if i < 64 {
                        lemma_bit_or_single(old(self).dirty_root_elements, index as u64, i);
                    }
                }
            }
        } else {
            proof {
                assert(old(self).root_elements@.update(index as int, value) =~= old(
                    self,
                ).root_elements@);
            }
        }
    }

    /// Updates the emulated draw constants, if the current layout
    /// reserves a slot for them; the slot is dirtied only when the
    /// constants changed.
    pub fn set_special_constants(&mut self, base_vertex: i32, base_instance: u32, other: u32)
        requires
            spec_pass_wf(*old(self)),
            old(self).layout.special_constants_root_index matches Some(idx) ==> idx < old(
                self,
            ).layout.total_root_elements,
        ensures
            spec_pass_wf(*final(self)),
            final(self).layout == old(self).layout,
            final(self).vertex_buffers@ == old(self).vertex_buffers@,
            final(self).dirty_vertex_buffers == old(self).dirty_vertex_buffers,
            final(self).kind == old(self).kind,
            old(self).layout.special_constants_root_index is None ==> *final(self) == *old(self),
            old(self).layout.special_constants_root_index matches Some(idx) ==> {
                let value = RootElement::SpecialConstantBuffer { base_vertex, base_instance, other };
                &&& final(self).root_elements@ == old(self).root_elements@.update(
                    idx as int,
                    value,
                )
                &&& forall|i: u64|
                    spec_bit_set(final(self).dirty_root_elements, i) <==> (spec_bit_set(
                        old(self).dirty_root_elements,
                        i,
                    ) || (i == idx && old(self).root_elements@[idx as int] != value))
            },
    {
        match self.layout.special_constants_root_index {
            Some(idx) => {
                self.update_root_element(
                    idx,
                    RootElement::SpecialConstantBuffer { base_vertex, base_instance, other },
                );
            },
            None => {},
        }
    }
}

/// Root slots one bind group occupies.
pub open spec fn spec_info_slot_count(info: BindGroupInfo) -> int {
    (if info.tables.srv_cbv_uav {
        1int
    } else {
        0int
    }) + (if info.tables.samplers {
        1int
    } else {
        0int
    }) + info.dynamic_buffers@.len()
}

/// The slot values a bind group binds, in slot order: the view table,
/// then the sampler table, then one dynamic-offset buffer per recorded
/// kind, each at its base address plus the bind-time offset.
pub open spec fn spec_group_candidates(
    info: BindGroupInfo,
    group: BindGroup,
    offsets: Seq<u32>,
) -> Seq<RootElement> {
    (if info.tables.srv_cbv_uav {
        seq![RootElement::Table(GpuDescriptor(group.handle_views.unwrap().gpu))]
    } else {
        Seq::<RootElement>::empty()
    }) + (if info.tables.samplers {
        seq![RootElement::Table(GpuDescriptor(group.handle_samplers.unwrap().gpu))]
    } else {
        Seq::<RootElement>::empty()
    }) + Seq::new(
        info.dynamic_buffers@.len(),
        |j: int| RootElement::DynamicOffsetBuffer {
            kind: info.dynamic_buffers@[j],
            address: (group.dynamic_buffers@[j] + offsets[j]) as u64,
        },
    )
}

impl PassState {
    /// Binds `group` at `group_index` of the session's current layout:
    /// each slot the group owns receives its candidate value, and is
    /// dirtied only if that value differs from what the slot held — an
    /// identical value is left untouched, so no redundant native bind
    /// is issued for it.
    pub fn set_bind_group(
        &mut self,
        layout: &PipelineLayout,
        group_index: usize,
        group: &BindGroup,
        dynamic_offsets: &Vec<u32>,
    )
        requires
            spec_pass_wf(*old(self)),
            old(self).layout == layout.shared,
            group_index < group_infos_of(layout.bind_group_infos).len(),
            ({
                let info = group_infos_of(layout.bind_group_infos)[group_index as int];
                &&& info.base_root_index + spec_info_slot_count(info) <= old(
                    self,
                ).layout.total_root_elements
                &&& info.tables.srv_cbv_uav ==> group.handle_views is Some
                &&& info.tables.samplers ==> group.handle_samplers is Some
                &&& group.dynamic_buffers@.len() == info.dynamic_buffers@.len()
                &&& dynamic_offsets@.len() == info.dynamic_buffers@.len()
                &&& forall|j: int|
                    0 <= j < info.dynamic_buffers@.len() ==> group.dynamic_buffers@[j]
                        + dynamic_offsets@[j] <= u64::MAX
            }),
        ensures
            spec_pass_wf(*final(self)),
            final(self).layout == old(self).layout,
            final(self).vertex_buffers@ == old(self).vertex_buffers@,
            final(self).dirty_vertex_buffers == old(self).dirty_vertex_buffers,
            final(self).kind == old(self).kind,
            ({
                let info = group_infos_of(layout.bind_group_infos)[group_index as int];
                let base = info.base_root_index as int;
                let cands = spec_group_candidates(info, *group, dynamic_offsets@);
                &&& forall|s: int|
                    base <= s < base + cands.len() ==> final(self).root_elements@[s] == cands[s
                        - base]
                &&& forall|s: int|
                    0 <= s < 64 && !(base <= s < base + cands.len())
                        ==> final(self).root_elements@[s] == old(self).root_elements@[s]
                &&& forall|i: u64|
                    spec_bit_set(final(self).dirty_root_elements, i) <==> (spec_bit_set(
                        old(self).dirty_root_elements,
                        i,
                    ) || (base <= i < base + cands.len() && old(self).root_elements@[i as int]
                        != cands[i - base]))
            }),
    {
        let info = group_infos_get(&layout.bind_group_infos, group_index);
        let ghost cands = spec_group_candidates(*info, *group, dynamic_offsets@);
        let base = info.base_root_index;
        let mut root_index: u32 = base;
        if info.tables.srv_cbv_uav {
            let views = group.handle_views.unwrap();
            self.update_root_element(root_index, RootElement::Table(GpuDescriptor(views.gpu)));
            root_index = root_index + 1;
        }
        if info.tables.samplers {
            let samplers = group.handle_samplers.unwrap();
            self.update_root_element(root_index, RootElement::Table(GpuDescriptor(samplers.gpu)));
            root_index = root_index + 1;
        }
        let mut j: usize = 0;
        while j < dynamic_offsets.len()
            invariant
                spec_pass_wf(*self),
                self.layout == old(self).layout,
                self.vertex_buffers@ == old(self).vertex_buffers@,
                self.dirty_vertex_buffers == old(self).dirty_vertex_buffers,
                self.kind == old(self).kind,
                *info == group_infos_of(layout.bind_group_infos)[group_index as int],
                cands == spec_group_candidates(*info, *group, dynamic_offsets@),
                info.base_root_index + spec_info_slot_count(*info)
                    <= self.layout.total_root_elements,
                info.tables.srv_cbv_uav ==> group.handle_views is Some,
                info.tables.samplers ==> group.handle_samplers is Some,
                group.dynamic_buffers@.len() == info.dynamic_buffers@.len(),
                dynamic_offsets@.len() == info.dynamic_buffers@.len(),
                forall|jj: int|
                    0 <= jj < info.dynamic_buffers@.len() ==> group.dynamic_buffers@[jj]
                        + dynamic_offsets@[jj] <= u64::MAX,
                j <= dynamic_offsets@.len(),
                root_index == info.base_root_index + (cands.len() - info.dynamic_buffers@.len())
                    + j,
                forall|s: int|
                    info.base_root_index <= s < root_index ==> self.root_elements@[s] == cands[s
                        - info.base_root_index],
                forall|s: int|
                    0 <= s < 64 && !(info.base_root_index <= s < root_index)
                        ==> self.root_elements@[s] == old(self).root_elements@[s],
                forall|i: u64|
                    spec_bit_set(self.dirty_root_elements, i) <==> (spec_bit_set(
                        old(self).dirty_root_elements,
                        i,
                    ) || (info.base_root_index <= i < root_index && old(
                        self,
                    ).root_elements@[i as int] != cands[i - info.base_root_index])),
            decreases dynamic_offsets@.len() - j,
        {
            let address = group.dynamic_buffers[j] + (dynamic_offsets[j] as u64);
            let kind = info.dynamic_buffers[j];
            self.update_root_element(
                root_index,
                RootElement::DynamicOffsetBuffer { kind, address },
            );
            root_index = root_index + 1;
            j = j + 1;
        }
    }
}

/// The native bind command one slot value needs, if any: an empty slot
/// has nothing to bind.
pub open spec fn spec_command_of(index: u32, e: RootElement) -> Option<BindCommand> {
    match e {
        RootElement::Empty => None,
        RootElement::SpecialConstantBuffer { base_vertex, base_instance, other } => Some(
            BindCommand::SetConstants { index, base_vertex, base_instance, other },
        ),
        RootElement::Table(handle) => Some(BindCommand::SetTable { index, handle }),
        RootElement::DynamicOffsetBuffer { kind, address } => Some(
            BindCommand::SetBufferView { index, kind, address },
        ),
    }
}

/// Commands a flush emits for the dirty slots below `n`, in ascending
/// slot order.
pub open spec fn spec_flush_commands_upto(s: PassState, n: int) -> Seq<BindCommand>
    decreases n,
{
    if n <= 0 {
        Seq::<BindCommand>::empty()
    } else {
        let rest = spec_flush_commands_upto(s, n - 1);
        if spec_bit_set(s.dirty_root_elements, (n - 1) as u64) {
            match spec_command_of((n - 1) as u32, s.root_elements@[n - 1]) {
                Some(c) => rest.push(c),
                None => rest,
            }
        } else {
            rest
        }
    }
}

/// Everything a flush of the whole session emits.
pub open spec fn spec_flush_commands(s: PassState) -> Seq<BindCommand> {
    spec_flush_commands_upto(s, s.layout.total_root_elements as int)
}

/// Root slot a command binds.
pub open spec fn spec_command_index(c: BindCommand) -> u32 {
    match c {
        BindCommand::SetTable { index, .. } => index,
        BindCommand::SetBufferView { index, .. } => index,
        BindCommand::SetConstants { index, .. } => index,
    }
}

/// Slot value a command establishes in the native state.
pub open spec fn spec_command_element(c: BindCommand) -> RootElement {
    match c {
        BindCommand::SetTable { handle, .. } => RootElement::Table(handle),
        BindCommand::SetBufferView { kind, address, .. } => RootElement::DynamicOffsetBuffer {
            kind,
            address,
        },
        BindCommand::SetConstants { base_vertex, base_instance, other, .. } => {
            RootElement::SpecialConstantBuffer { base_vertex, base_instance, other }
        },
    }
}

/// Native binding state after a command sequence runs, in order.
pub open spec fn spec_apply_commands(
    native: Seq<RootElement>,
    cmds: Seq<BindCommand>,
) -> Seq<RootElement>
    decreases cmds.len(),
{
    if cmds.len() == 0 {
        native
    } else {
        spec_apply_commands(native, cmds.drop_last()).update(
            spec_command_index(cmds.last()) as int,
            spec_command_element(cmds.last()),
        )
    }
}

impl PassState {
    /// Emits the native bind call for every dirty slot, in ascending
    /// slot order, and clears the mask to zero. Must run immediately
    /// before every draw or dispatch — intervening state changes may
    /// re-dirty slots, so the commands cannot be batched across draws.
    pub fn flush_before_draw(&mut self) -> (cmds: Vec<BindCommand>)
        requires
            spec_pass_wf(*old(self)),
        ensures
            spec_pass_wf(*final(self)),
            cmds@ == spec_flush_commands(*old(self)),
            final(self).dirty_root_elements == 0,
            final(self).layout == old(self).layout,
            final(self).root_elements@ == old(self).root_elements@,
            final(self).vertex_buffers@ == old(self).vertex_buffers@,
            final(self).dirty_vertex_buffers == old(self).dirty_vertex_buffers,
            final(self).kind == old(self).kind,
    {
        let mut cmds: Vec<BindCommand> = Vec::new();
        let total = self.layout.total_root_elements;
        let mut i: u32 = 0;
        while i < total
            invariant
                spec_pass_wf(*self),
                *self == *old(self),
                total == self.layout.total_root_elements,
                i <= total,
                cmds@ == spec_flush_commands_upto(*self, i as int),
            decreases total - i,
        {
            if (self.dirty_root_elements >> (i as u64)) & 1 == 1 {
                match self.root_elements[i as usize] {
                    RootElement::Empty => {},
                    RootElement::SpecialConstantBuffer { base_vertex, base_instance, other } => {
                        cmds.push(
                            BindCommand::SetConstants { index: i, base_vertex, base_instance, other },
                        );
                    },
                    RootElement::Table(handle) => {
                        cmds.push(BindCommand::SetTable { index: i, handle });
                    },
                    RootElement::DynamicOffsetBuffer { kind, address } => {
                        cmds.push(BindCommand::SetBufferView { index: i, kind, address });
                    },
                }
            }
            i = i + 1;
        }
        self.dirty_root_elements = 0;
        proof {
            assert forall|i: u64| spec_bit_set(self.dirty_root_elements, i) implies i
                < self.layout.total_root_elements by {
                lemma_zero_mask_clear(i);
            }
        }
        cmds
    }

    /// Stores a vertex-buffer binding and widens the dirty range to
    /// cover it; the native call later binds the smallest contiguous
    /// range starting at slot zero that covers every changed slot.
    pub fn set_vertex_buffer(&mut self, index: usize, view: VertexBufferView)
        requires
            spec_pass_wf(*old(self)),
            index < 16,
        ensures
            spec_pass_wf(*final(self)),
            final(self).layout == old(self).layout,
            final(self).root_elements@ == old(self).root_elements@,
            final(self).dirty_root_elements == old(self).dirty_root_elements,
            final(self).kind == old(self).kind,
            final(self).vertex_buffers@ == old(self).vertex_buffers@.update(index as int, view),
            final(self).dirty_vertex_buffers == (if old(self).dirty_vertex_buffers < index + 1 {
                (index + 1) as int
            } else {
                old(self).dirty_vertex_buffers as int
            }),
    {
        self.vertex_buffers[index] = view;
        if self.dirty_vertex_buffers < index + 1 {
            self.dirty_vertex_buffers = index + 1;
        }
    }

    /// Takes the dirty vertex-buffer range: the runtime binds slots
    /// `0..r` in one native call, after which no slot is stale.
    pub fn flush_vertex_buffers(&mut self) -> (r: usize)
        requires
            spec_pass_wf(*old(self)),
        ensures
            spec_pass_wf(*final(self)),
            r == old(self).dirty_vertex_buffers,
            r <= 16,
            final(self).dirty_vertex_buffers == 0,
            final(self).layout == old(self).layout,
            final(self).root_elements@ == old(self).root_elements@,
            final(self).dirty_root_elements == old(self).dirty_root_elements,
            final(self).vertex_buffers@ == old(self).vertex_buffers@,
            final(self).kind == old(self).kind,
    {
        let r = self.dirty_vertex_buffers;
        self.dirty_vertex_buffers = 0;
        r
    }
}

/// After applying a prefix flush, a slot holds its session value when
/// the prefix dirtied it, and its prior native value otherwise.
proof fn lemma_apply_commands_upto(s: PassState, native: Seq<RootElement>, n: int)
    requires
        spec_pass_wf(s),
        native.len() == 64,
        0 <= n <= s.layout.total_root_elements,
    ensures
        spec_apply_commands(native, spec_flush_commands_upto(s, n)).len() == 64,
        forall|i: int|
            0 <= i < 64 ==> spec_apply_commands(native, spec_flush_commands_upto(s, n))[i] == (
            if i < n && spec_bit_set(s.dirty_root_elements, i as u64) && s.root_elements@[i]
                != RootElement::Empty {
                s.root_elements@[i]
            } else {
                native[i]
            }),
    decreases n,
{
    if n > 0 {
        lemma_apply_commands_upto(s, native, n - 1);
        let rest = spec_flush_commands_upto(s, n - 1);
        let full = spec_flush_commands_upto(s, n);
        if spec_bit_set(s.dirty_root_elements, (n - 1) as u64) && s.root_elements@[n - 1]
            != RootElement::Empty {
            assert(full.drop_last() =~= rest);
        } else {
            assert(full =~= rest);
        }
    }
}

/// Law: a flush fully synchronises the native bindings. If, before the
/// flush, every clean non-empty slot already matched the native state,
/// then after the emitted commands run, every non-empty slot the
/// layout covers holds exactly the session's value for it — together
/// with the flush's own contract (mask zero, elements unchanged), every
/// slot reflects its last-set root element.
pub proof fn lemma_flush_synchronizes(s: PassState, native: Seq<RootElement>)
    requires
        spec_pass_wf(s),
        native.len() == 64,
        forall|i: int|
            0 <= i < s.layout.total_root_elements && !spec_bit_set(
                s.dirty_root_elements,
                i as u64,
            ) && s.root_elements@[i] != RootElement::Empty ==> native[i] == s.root_elements@[i],
    ensures
        forall|i: int|
            0 <= i < s.layout.total_root_elements && s.root_elements@[i] != RootElement::Empty
                ==> spec_apply_commands(native, spec_flush_commands(s))[i] == s.root_elements@[i],
{
    lemma_apply_commands_upto(s, native, s.layout.total_root_elements as int);
}

} // verus!
