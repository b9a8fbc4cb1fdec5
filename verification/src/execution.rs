//! Execution programs, and what they allow a stage to resume.
use vstd::prelude::*;

verus! {

/// Lanes of a preview vector.
pub const TRANSIENT_PREVIEW_LEN: usize = 8;

/// Lanes of each of the query, key and value slices that may be carried.
pub const ATTENTION_PROJECTION_CARRY_BUDGET: usize = 4;

/// Lanes of each of the score and value slices that may be carried.
pub const ATTENTION_MIX_CARRY_BUDGET: usize = 8;

/// Weight, in thousandths, with which resumed query, key and value slices are blended in.
pub const ATTENTION_PROJECTION_BLEND_WEIGHT_MILLI: u16 = 350;

/// Weight, in thousandths, with which resumed score and value slices are blended in.
pub const ATTENTION_MIX_BLEND_WEIGHT_MILLI: u16 = 250;

/// Blend weights below this many thousandths are weak.
pub const WEAK_BLEND_LIMIT_MILLI: u16 = 300;

/// What an operation of a layer program does.
#[derive(Debug, Clone, Copy, PartialEq, Eq, Structural)]
pub enum ExecutionOpKind {
    PromptIngress,
    Positional,
    SharedAuxiliary,
    AttentionNorm,
    AttentionQ,
    AttentionK,
    AttentionV,
    AttentionOut,
    PostAttentionNorm,
    FfnNorm,
    FfnGate,
    FfnUp,
    FfnDown,
    PostFfnNorm,
    InputGate,
    Projection,
    LayerOutputScale,
    TailOnly,
    Unknown,
}

/// How the tensors of an operation are stored.
#[derive(Debug, Clone, Copy, PartialEq, Eq, Structural)]
pub enum ExecutionBinding {
    F32Vector,
    F32Matrix,
    QuantizedMatrix,
    Mixed,
    Unsupported,
}

/// When the target recomputes a resumed attention slice.
#[derive(Debug, Clone, Copy, PartialEq, Eq, Structural)]
pub enum StageAttentionResumePhase {
    Direct,
    AfterProjection,
}

/// How strongly a resumed attention slice is blended with the recomputed one.
#[derive(Debug, Clone, Copy, PartialEq, Eq, Structural)]
pub enum StageAttentionResumeBlend {
    Overwrite,
    WeakBlend,
    StrongBlend,
}

/// The resume contract of one attention slice.
#[derive(Debug, Clone, Copy, PartialEq, Eq, Structural)]
pub struct StageAttentionResumeContractSummary {
    pub phase: StageAttentionResumePhase,
    pub blend: StageAttentionResumeBlend,
    pub blend_weight_milli: Option<u16>,
}

/// The resume contracts of the five attention slices.
#[derive(Debug, Clone, Copy, PartialEq, Eq, Structural)]
pub struct StageResumeContractSummary {
    pub attention_q: Option<StageAttentionResumeContractSummary>,
    pub attention_k: Option<StageAttentionResumeContractSummary>,
    pub attention_v: Option<StageAttentionResumeContractSummary>,
    pub attention_score: Option<StageAttentionResumeContractSummary>,
    pub attention_value: Option<StageAttentionResumeContractSummary>,
}

/// Whether a blend weight counts as weak or strong.
#[derive(Debug, Clone, Copy, PartialEq, Eq, Structural)]
pub enum AttentionBlendStrength {
    WeakBlend,
    StrongBlend,
}

/// When an execution program recomputes an attention slice.
#[derive(Debug, Clone, Copy, PartialEq, Eq, Structural)]
pub enum AttentionSliceRecomputePhase {
    Direct,
    AfterProjection,
}

/// How an execution program resumes one attention slice.
#[derive(Debug, Clone, Copy, PartialEq, Eq, Structural)]
pub struct AttentionSliceResumePath {
    pub recompute_phase: AttentionSliceRecomputePhase,
    pub blend_strength: Option<AttentionBlendStrength>,
    pub blend_weight_milli: Option<u16>,
}

/// The five attention slices that can be resumed.
#[derive(Debug, Clone, Copy, PartialEq, Eq, Structural)]
pub enum AttentionResumeSlice {
    Q,
    K,
    V,
    Score,
    Value,
}

/// Whether a resumed slice replaces the recomputed one or is blended into it.
#[derive(Debug, Clone, Copy, PartialEq, Eq, Structural)]
pub enum ExecutionResumeBlendMode {
    Overwrite,
    Blend { weight_milli: u16 },
}

/// What an operation promises about resuming one attention slice.
#[derive(Debug, Clone, Copy, PartialEq, Eq, Structural)]
pub struct ExecutionAttentionResumeContract {
    pub slice: AttentionResumeSlice,
    pub recompute_phase: AttentionSliceRecomputePhase,
    pub blend_mode: ExecutionResumeBlendMode,
}

/// What an operation promises about resuming attention slices.
#[derive(Debug, PartialEq, Eq)]
pub struct ExecutionResumeContract {
    pub attention: Vec<ExecutionAttentionResumeContract>,
}

/// A promise of an operation, with the slice it is about.
#[derive(Debug, Clone, Copy, PartialEq, Eq, Structural)]
pub enum ExecutionResumeDescriptor {
    AttentionQ(AttentionSliceResumePath),
    AttentionK(AttentionSliceResumePath),
    AttentionV(AttentionSliceResumePath),
    AttentionScore(AttentionSliceResumePath),
    AttentionValue(AttentionSliceResumePath),
}

/// One operation of a layer program.
#[derive(Debug, PartialEq, Eq)]
pub struct ExecutionOp {
    pub kind: ExecutionOpKind,
    pub tensor_names: Vec<String>,
    pub binding: ExecutionBinding,
    pub binding_reason: &'static str,
    pub resume_contract: ExecutionResumeContract,
}

/// The operations of one layer, with the dimensions they work on.
#[derive(Debug, PartialEq, Eq)]
pub struct LayerExecutionProgram {
    pub layer_index: u32,
    pub hidden_dim: Option<u64>,
    pub q_out_dim: Option<u64>,
    pub k_out_dim: Option<u64>,
    pub v_out_dim: Option<u64>,
    pub ffn_inner_dim: Option<u64>,
    pub runnable_sketch: bool,
    pub ops: Vec<ExecutionOp>,
}

/// Which parts of a carry a target stage can resume.
#[derive(Debug, Clone, Copy, PartialEq, Eq, Structural)]
pub struct StageResumeCapabilities {
    pub attention_path: bool,
    pub attention_q: bool,
    pub attention_k: bool,
    pub attention_v: bool,
    pub attention_projection: bool,
    pub attention_mix: bool,
    pub ffn_path: bool,
    pub projection_path: bool,
}

/// How many lanes of each part of a carry a target stage can resume.
#[derive(Debug, Clone, Copy, PartialEq, Eq, Structural)]
pub struct StageResumeBudgets {
    pub attention_q_lanes: Option<usize>,
    pub attention_k_lanes: Option<usize>,
    pub attention_v_lanes: Option<usize>,
    pub attention_projection_lanes: Option<usize>,
    pub attention_mix_lanes: Option<usize>,
    pub ffn_lanes: Option<usize>,
}

/// How many layers old each resumed attention slice may be.
#[derive(Debug, Clone, Copy, PartialEq, Eq, Structural)]
pub struct StageResumeFreshnessPolicy {
    pub attention_q_max_distance: Option<u32>,
    pub attention_k_max_distance: Option<u32>,
    pub attention_v_max_distance: Option<u32>,
    pub attention_score_max_distance: Option<u32>,
    pub attention_value_max_distance: Option<u32>,
}

/// The resume paths of the five attention slices: query, key, value, score and mixed value.
pub type AttentionResumePaths = (
    Option<AttentionSliceResumePath>,
    Option<AttentionSliceResumePath>,
    Option<AttentionSliceResumePath>,
    Option<AttentionSliceResumePath>,
    Option<AttentionSliceResumePath>,
);

impl ExecutionAttentionResumeContract {
    /// The resume path that the promise amounts to.
    pub open spec fn path(self) -> AttentionSliceResumePath {
        AttentionSliceResumePath {
            recompute_phase: self.recompute_phase,
            blend_strength: match self.blend_mode {
                ExecutionResumeBlendMode::Overwrite => None,
                ExecutionResumeBlendMode::Blend { weight_milli } => Some(
                    StageResumeFreshnessPolicy::strength(weight_milli),
                ),
            },
            blend_weight_milli: match self.blend_mode {
                ExecutionResumeBlendMode::Overwrite => None,
                ExecutionResumeBlendMode::Blend { weight_milli } => Some(weight_milli),
            },
        }
    }

    /// The descriptor that the promise amounts to.
    pub open spec fn descriptor(self) -> ExecutionResumeDescriptor {
        match self.slice {
            AttentionResumeSlice::Q => ExecutionResumeDescriptor::AttentionQ(self.path()),
            AttentionResumeSlice::K => ExecutionResumeDescriptor::AttentionK(self.path()),
            AttentionResumeSlice::V => ExecutionResumeDescriptor::AttentionV(self.path()),
            AttentionResumeSlice::Score => ExecutionResumeDescriptor::AttentionScore(self.path()),
            AttentionResumeSlice::Value => ExecutionResumeDescriptor::AttentionValue(self.path()),
        }
    }

    /// A promise to recompute `slice` in `phase` and to blend with `weight_milli` thousandths.
    pub open spec fn blended(
        slice: AttentionResumeSlice,
        phase: AttentionSliceRecomputePhase,
        weight_milli: u16,
    ) -> Self {
        ExecutionAttentionResumeContract {
            slice,
            recompute_phase: phase,
            blend_mode: ExecutionResumeBlendMode::Blend { weight_milli },
        }
    }
}

impl ExecutionOpKind {
    /// The promises that an operation of this kind makes.
    pub open spec fn promises(self) -> Seq<ExecutionAttentionResumeContract> {
        match self {
            ExecutionOpKind::AttentionQ => seq![
                ExecutionAttentionResumeContract::blended(
                    AttentionResumeSlice::Q,
                    AttentionSliceRecomputePhase::Direct,
                    ATTENTION_PROJECTION_BLEND_WEIGHT_MILLI,
                ),
            ],
            ExecutionOpKind::AttentionK => seq![
                ExecutionAttentionResumeContract::blended(
                    AttentionResumeSlice::K,
                    AttentionSliceRecomputePhase::Direct,
                    ATTENTION_PROJECTION_BLEND_WEIGHT_MILLI,
                ),
            ],
            ExecutionOpKind::AttentionV => seq![
                ExecutionAttentionResumeContract::blended(
                    AttentionResumeSlice::V,
                    AttentionSliceRecomputePhase::Direct,
                    ATTENTION_PROJECTION_BLEND_WEIGHT_MILLI,
                ),
            ],
            ExecutionOpKind::AttentionOut => seq![
                ExecutionAttentionResumeContract::blended(
                    AttentionResumeSlice::Score,
                    AttentionSliceRecomputePhase::AfterProjection,
                    ATTENTION_MIX_BLEND_WEIGHT_MILLI,
                ),
                ExecutionAttentionResumeContract::blended(
                    AttentionResumeSlice::Value,
                    AttentionSliceRecomputePhase::AfterProjection,
                    ATTENTION_MIX_BLEND_WEIGHT_MILLI,
                ),
            ],
            _ => Seq::empty(),
        }
    }

    /// Whether the operation belongs to the attention block.
    pub open spec fn is_attention(self) -> bool {
        self is AttentionQ || self is AttentionK || self is AttentionV || self is AttentionOut
    }

    /// Whether the operation belongs to the feed-forward block.
    pub open spec fn is_ffn(self) -> bool {
        self is FfnGate || self is FfnUp || self is FfnDown
    }
}

impl ExecutionResumeContract {
    /// The promise about `slice` that counts: the last one in `promises`.
    pub open spec fn path_of(
        promises: Seq<ExecutionAttentionResumeContract>,
        slice: AttentionResumeSlice,
    ) -> Option<AttentionSliceResumePath>
        decreases promises.len(),
    {
        if promises.len() == 0 {
            None
        } else if promises.last().slice == slice {
            Some(promises.last().path())
        } else {
            Self::path_of(promises.drop_last(), slice)
        }
    }
}

impl Clone for ExecutionResumeContract {
    fn clone(&self) -> (r: Self)
        ensures
            r.attention@ == self.attention@,
    {
        let attention = self.attention.clone();
        proof {
            assert(attention@ =~= self.attention@);
        }
        ExecutionResumeContract { attention }
    }
}

impl Default for ExecutionResumeContract {
    fn default() -> (r: Self)
        ensures
            r.attention@ == Seq::<ExecutionAttentionResumeContract>::empty(),
    {
        ExecutionResumeContract { attention: Vec::new() }
    }
}

impl ExecutionOp {
    /// The resume path of `slice` after `ops` have run: the last promise about it counts.
    pub open spec fn path_of(ops: Seq<ExecutionOp>, slice: AttentionResumeSlice) -> Option<
        AttentionSliceResumePath,
    >
        decreases ops.len(),
    {
        if ops.len() == 0 {
            None
        } else {
            match ExecutionResumeContract::path_of(ops.last().resume_contract.attention@, slice) {
                Some(path) => Some(path),
                None => Self::path_of(ops.drop_last(), slice),
            }
        }
    }

    /// Blending with the given weight in thousandths.
    pub fn blend_mode(weight_milli: u16) -> (r: ExecutionResumeBlendMode)
        ensures
            r == (ExecutionResumeBlendMode::Blend { weight_milli }),
    {
        ExecutionResumeBlendMode::Blend { weight_milli }
    }

    /// The promises of an operation of the given kind.
    pub fn resume_contract_for_kind(kind: ExecutionOpKind) -> (r: ExecutionResumeContract)
        ensures
            r.attention@ == kind.promises(),
    {
        let mut attention: Vec<ExecutionAttentionResumeContract> = Vec::new();
        match kind {
            ExecutionOpKind::AttentionQ => {
                attention.push(
                    ExecutionAttentionResumeContract {
                        slice: AttentionResumeSlice::Q,
                        recompute_phase: AttentionSliceRecomputePhase::Direct,
                        blend_mode: Self::blend_mode(ATTENTION_PROJECTION_BLEND_WEIGHT_MILLI),
                    },
                );
            },
            ExecutionOpKind::AttentionK => {
                attention.push(
                    ExecutionAttentionResumeContract {
                        slice: AttentionResumeSlice::K,
                        recompute_phase: AttentionSliceRecomputePhase::Direct,
                        blend_mode: Self::blend_mode(ATTENTION_PROJECTION_BLEND_WEIGHT_MILLI),
                    },
                );
            },
            ExecutionOpKind::AttentionV => {
                attention.push(
                    ExecutionAttentionResumeContract {
                        slice: AttentionResumeSlice::V,
                        recompute_phase: AttentionSliceRecomputePhase::Direct,
                        blend_mode: Self::blend_mode(ATTENTION_PROJECTION_BLEND_WEIGHT_MILLI),
                    },
                );
            },
            ExecutionOpKind::AttentionOut => {
                attention.push(
                    ExecutionAttentionResumeContract {
                        slice: AttentionResumeSlice::Score,
                        recompute_phase: AttentionSliceRecomputePhase::AfterProjection,
                        blend_mode: Self::blend_mode(ATTENTION_MIX_BLEND_WEIGHT_MILLI),
                    },
                );
                attention.push(
                    ExecutionAttentionResumeContract {
                        slice: AttentionResumeSlice::Value,
                        recompute_phase: AttentionSliceRecomputePhase::AfterProjection,
                        blend_mode: Self::blend_mode(ATTENTION_MIX_BLEND_WEIGHT_MILLI),
                    },
                );
            },
            _ => {},
        }
        assert(attention@ =~= kind.promises());
        ExecutionResumeContract { attention }
    }

    /// The descriptor of one promise.
    pub fn descriptor_for_attention_contract(contract: ExecutionAttentionResumeContract) -> (r:
        ExecutionResumeDescriptor)
        ensures
            r == contract.descriptor(),
    {
        let path = AttentionSliceResumePath {
            recompute_phase: contract.recompute_phase,
            blend_strength: match contract.blend_mode {
                ExecutionResumeBlendMode::Overwrite => None,
                ExecutionResumeBlendMode::Blend { weight_milli } => Some(
                    StageResumeFreshnessPolicy::blend_strength_for_weight_milli(weight_milli),
                ),
            },
            blend_weight_milli: match contract.blend_mode {
                ExecutionResumeBlendMode::Overwrite => None,
                ExecutionResumeBlendMode::Blend { weight_milli } => Some(weight_milli),
            },
        };
        match contract.slice {
            AttentionResumeSlice::Q => ExecutionResumeDescriptor::AttentionQ(path),
            AttentionResumeSlice::K => ExecutionResumeDescriptor::AttentionK(path),
            AttentionResumeSlice::V => ExecutionResumeDescriptor::AttentionV(path),
            AttentionResumeSlice::Score => ExecutionResumeDescriptor::AttentionScore(path),
            AttentionResumeSlice::Value => ExecutionResumeDescriptor::AttentionValue(path),
        }
    }

    /// The descriptors of all promises, in order.
    pub fn descriptors_for_contract(contract: &ExecutionResumeContract) -> (r: Vec<
        ExecutionResumeDescriptor,
    >)
        ensures
            r@ == contract.attention@.map_values(
                |promise: ExecutionAttentionResumeContract| promise.descriptor(),
            ),
    {
        let mut out: Vec<ExecutionResumeDescriptor> = Vec::new();
        let mut index: usize = 0;
        while index < contract.attention.len()
            invariant
                index <= contract.attention@.len(),
                out@ == contract.attention@.take(index as int).map_values(
                    |promise: ExecutionAttentionResumeContract| promise.descriptor(),
                ),
            decreases contract.attention.len() - index,
        {
            out.push(Self::descriptor_for_attention_contract(contract.attention[index]));
            index += 1;
            proof {
                assert(contract.attention@.take(index as int).drop_last()
                    =~= contract.attention@.take(index - 1));
                assert(out@ =~= contract.attention@.take(index as int).map_values(
                    |promise: ExecutionAttentionResumeContract| promise.descriptor(),
                ));
            }
        }
        assert(contract.attention@.take(index as int) =~= contract.attention@);
        out
    }

    /// The same operation with other promises.
    pub fn with_resume_contract(self, resume_contract: ExecutionResumeContract) -> (r: Self)
        ensures
            r == (ExecutionOp { resume_contract, ..self }),
    {
        ExecutionOp {
            kind: self.kind,
            tensor_names: self.tensor_names,
            binding: self.binding,
            binding_reason: self.binding_reason,
            resume_contract,
        }
    }

    /// An operation with the promises of its kind.
    pub fn new(
        kind: ExecutionOpKind,
        tensor_names: Vec<String>,
        binding: ExecutionBinding,
        binding_reason: &'static str,
    ) -> (r: Self)
        ensures
            r.kind == kind,
            r.tensor_names == tensor_names,
            r.binding == binding,
            r.binding_reason == binding_reason,
            r.resume_contract.attention@ == kind.promises(),
    {
        let resume_contract = Self::resume_contract_for_kind(kind);
        ExecutionOp { kind, tensor_names, binding, binding_reason, resume_contract }
    }

    /// The operation's promises, as descriptors.
    pub fn attention_resume_descriptors(&self) -> (r: Vec<ExecutionResumeDescriptor>)
        ensures
            r@ == self.resume_contract.attention@.map_values(
                |promise: ExecutionAttentionResumeContract| promise.descriptor(),
            ),
    {
        Self::descriptors_for_contract(&self.resume_contract)
    }
}

impl LayerExecutionProgram {
    /// Whether some operation has the given kind.
    pub open spec fn has(self, kind: ExecutionOpKind) -> bool {
        exists|i: int| 0 <= i < self.ops@.len() && #[trigger] self.ops@[i].kind == kind
    }

    /// Whether the program can be run and has an attention operation.
    pub open spec fn runs_attention(self) -> bool {
        self.runnable_sketch && exists|i: int|
            0 <= i < self.ops@.len() && (#[trigger] self.ops@[i]).kind.is_attention()
    }

    /// Whether the program can be run and has a feed-forward operation.
    pub open spec fn runs_ffn(self) -> bool {
        self.runnable_sketch && exists|i: int|
            0 <= i < self.ops@.len() && (#[trigger] self.ops@[i]).kind.is_ffn()
    }

    /// The first runnable program at `from` or later in the list whose layer is at least `layer`.
    pub open spec fn first_at_or_after(
        programs: Seq<LayerExecutionProgram>,
        layer: u32,
        from: int,
    ) -> Option<int>
        decreases programs.len() - from,
    {
        if from < 0 || from >= programs.len() {
            None
        } else if programs[from].runnable_sketch && programs[from].layer_index >= layer {
            Some(from)
        } else {
            Self::first_at_or_after(programs, layer, from + 1)
        }
    }

    /// The first runnable program at `from` or later in the list whose layer is `layer`.
    pub open spec fn first_at(
        programs: Seq<LayerExecutionProgram>,
        layer: u32,
        from: int,
    ) -> Option<int>
        decreases programs.len() - from,
    {
        if from < 0 || from >= programs.len() {
            None
        } else if programs[from].runnable_sketch && programs[from].layer_index == layer {
            Some(from)
        } else {
            Self::first_at(programs, layer, from + 1)
        }
    }

    /// The program that a resumed request enters first: the first runnable one at or after the
    /// entry layer, else the first runnable one. Layer indices are unsigned, so "at or after
    /// layer zero" means any runnable program.
    pub open spec fn entry(
        programs: Seq<LayerExecutionProgram>,
        resume_entry_layer: Option<u32>,
    ) -> Option<int> {
        match resume_entry_layer {
            Some(layer) => match Self::first_at_or_after(programs, layer, 0) {
                Some(index) => Some(index),
                None => Self::first_at_or_after(programs, 0, 0),
            },
            None => Self::first_at_or_after(programs, 0, 0),
        }
    }

    /// The runnable program of exactly the next layer.
    pub open spec fn next(
        programs: Seq<LayerExecutionProgram>,
        next_layer_index: Option<u32>,
    ) -> Option<int> {
        match next_layer_index {
            Some(layer) => Self::first_at(programs, layer, 0),
            None => None,
        }
    }

    /// Whether some operation has the given kind.
    pub(crate) fn has_kind(&self, kind: ExecutionOpKind) -> (r: bool)
        ensures
            r == self.has(kind),
    {
        let mut index: usize = 0;
        while index < self.ops.len()
            invariant
                index <= self.ops@.len(),
                forall|i: int| 0 <= i < index ==> #[trigger] self.ops@[i].kind != kind,
            decreases self.ops.len() - index,
        {
            if self.ops[index].kind == kind {
                return true;
            }
            index += 1;
        }
        false
    }

    /// The index of the first runnable program whose layer is at least `layer`.
    fn find_at_or_after(programs: &[LayerExecutionProgram], layer: u32) -> (r: Option<usize>)
        ensures
            match r {
                Some(index) => Self::first_at_or_after(programs@, layer, 0) == Some(index as int)
                    && index < programs@.len(),
                None => Self::first_at_or_after(programs@, layer, 0) is None,
            },
    {
        let mut index: usize = 0;
        while index < programs.len()
            invariant
                index <= programs@.len(),
                Self::first_at_or_after(programs@, layer, 0) == Self::first_at_or_after(
                    programs@,
                    layer,
                    index as int,
                ),
            decreases programs.len() - index,
        {
            if programs[index].runnable_sketch && programs[index].layer_index >= layer {
                return Some(index);
            }
            index += 1;
        }
        None
    }

    /// The index of the program that a resumed request enters first.
    pub(crate) fn find_entry(
        programs: &[LayerExecutionProgram],
        resume_entry_layer: Option<u32>,
    ) -> (r: Option<usize>)
        ensures
            match r {
                Some(index) => Self::entry(programs@, resume_entry_layer) == Some(index as int)
                    && index < programs@.len(),
                None => Self::entry(programs@, resume_entry_layer) is None,
            },
    {
        if let Some(layer) = resume_entry_layer {
            let found = Self::find_at_or_after(programs, layer);
            if found.is_some() {
                return found;
            }
        }
        Self::find_at_or_after(programs, 0)
    }

    /// The index of the runnable program of exactly the next layer.
    pub(crate) fn find_next(
        programs: &[LayerExecutionProgram],
        next_layer_index: Option<u32>,
    ) -> (r: Option<usize>)
        ensures
            match r {
                Some(index) => Self::next(programs@, next_layer_index) == Some(index as int)
                    && index < programs@.len(),
                None => Self::next(programs@, next_layer_index) is None,
            },
    {
        if let Some(layer) = next_layer_index {
            let mut index: usize = 0;
            while index < programs.len()
                invariant
                    index <= programs@.len(),
                    next_layer_index == Some(layer),
                    Self::first_at(programs@, layer, 0) == Self::first_at(
                        programs@,
                        layer,
                        index as int,
                    ),
                decreases programs.len() - index,
            {
                if programs[index].runnable_sketch && programs[index].layer_index == layer {
                    return Some(index);
                }
                index += 1;
            }
        }
        None
    }
}

} // verus!
