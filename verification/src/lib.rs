//! Running a language model in stages: the tensors that stages hand to one another, what of a
//! stage's inner state crosses a boundary, and on what terms the next stage resumes with it.
//!
//! Numbers are held as bit patterns. Whatever is computed with them as numbers is computed
//! outside this library, which decides what is computed, on which tensors and in which order, and
//! what is handed on.
pub mod backend;
pub mod boundary;
pub mod bundle;
pub mod bytes_b64;
pub mod capabilities;
pub mod carry;
pub mod carry_laws;
pub mod compare_laws;
pub mod execution;
pub mod frame;
pub mod framing;
pub mod hidden;
pub mod lanes;
pub mod layer_laws;
pub mod layer_plan;
pub mod layer_run;
pub mod model;
pub mod model_view;
pub mod names;
pub mod number;
pub mod pack_laws;
pub mod packed;
pub mod prompt_suite;
pub mod prompting;
pub mod quant_laws;
pub mod quants;
pub mod resume;
pub mod resume_laws;
pub mod sample_laws;
pub mod sketch;
pub mod stage_laws;
pub mod stub;
pub mod tensor;
pub mod text;
pub mod toy;
pub mod view_laws;

pub use crate::backend::PackedResidencySketchBackend;
pub use crate::boundary::StageBoundaryPlan;
pub use crate::bundle::{LoadedRuntimeBundle, LoadedRuntimeStage, StageResidencyAdapter};
pub use crate::carry::{
    AttentionCheckpointProvenance, CarryableAttentionMixState, CarryableAttentionProjectionState,
    CarryableAttentionState, CarryableFfnState, StageCarryPolicy, StageCarryState,
};
pub use crate::execution::{
    ExecutionBinding, ExecutionOp, ExecutionOpKind, LayerExecutionProgram,
    StageAttentionResumeBlend, StageAttentionResumeContractSummary, StageAttentionResumePhase,
    StageResumeBudgets, StageResumeCapabilities, StageResumeContractSummary,
    StageResumeFreshnessPolicy,
};
pub use crate::frame::{
    StageForwardFrame, StageForwardFrameSummary, StageRoute, StageTransferFrame,
    StageTransferPayload, StageTransferStateEnvelope, StageTransferTransientState,
    TransientSignature, STAGE_FORWARD_FRAME_VERSION,
};
pub use crate::framing::{
    encode_stage_tensor_bytes, stage_tensor_byte_sections, StageTensorByteSections,
};
pub use crate::model::StageError;
pub use crate::model_view::{LayerExecutionSpec, LayerOperatorView, StageLayerView, StageModelView};
pub use crate::packed::{
    PackedStageArtifact, PackedStageIndex, PackedTensorEntry, StageTensorStore, TensorSlice,
};
pub use crate::resume::{StageResumeDecision, StageResumeReceipt, StageResumeRequest};
pub use crate::stub::{DeterministicStubBackend, StageForwardBackend};
pub use crate::tensor::{
    AttentionContinuation, FfnContinuation, PayloadKind, StageContinuation, StageLayout,
    StageSample, StageStateEnvelope, StageTensor, StageTransientState,
};
pub use crate::toy::{
    ArtifactBackedToyBackend, ToyLayerArtifact, ToyLinearBackend, ToyProjectionArtifact,
    ToyShardArtifact,
};
