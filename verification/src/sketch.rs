//! A packed stage at work: loading it, the layers that it runs, and the tensors that it hands on.
//! The numbers are computed elsewhere; here they are bytes and bit patterns.
use vstd::prelude::*;
use vstd::string::*;
use crate::backend::PackedResidencySketchBackend;
use crate::carry::{StageCarryPolicy, StageCarryState, StageCarryStateModel};
use crate::execution::{ExecutionOp, ExecutionOpKind, LayerExecutionProgram};
use crate::layer_run::{merge_stage_carry, merge_transient_checkpoint};
use crate::model::{fail, fail_with, StageError};
use crate::model_view::{StageModelView, StageModelViewModel};
use crate::packed::StageTensorStore;
use crate::tensor::{
    PayloadKind, StageContinuation, StageContinuationModel, StageLayout, StageLayoutModel,
    StageStateEnvelopeModel, StageTensor, StageTensorModel, StageTransientState,
};
use crate::text::{chars_of, decimal, flag_text, text_of, trimmed_chars};

verus! {

/// Whether a packed stage's role is that of a layout.
pub open spec fn role_fits(role: Seq<char>, layout: StageLayoutModel) -> bool {
    if role == "head"@ {
        layout.is_head && !layout.is_tail
    } else if role == "tail"@ {
        layout.is_tail && !layout.is_head
    } else if role == "middle"@ {
        !layout.is_head && !layout.is_tail
    } else {
        false
    }
}

/// What is wrong with a packed stage that is to run under a layout: the offsets of its tensors, or
/// its role.
pub open spec fn stage_fault(
    store: crate::packed::PackedStageArtifactModel,
    layout: StageLayoutModel,
) -> Option<Seq<char>> {
    crate::model::then_check(
        store.index.offsets_fault(0),
        if role_fits(store.index.role, layout) {
            None
        } else {
            Some(
                "Packed stage role "@ + store.index.role + " does not match layout head="@
                    + crate::text::flag(layout.is_head) + " tail="@ + crate::text::flag(
                    layout.is_tail,
                ),
            )
        },
    )
}

fn check_role(role: &String, layout: &StageLayout) -> (r: bool)
    ensures
        r == role_fits(role@, layout@),
{
    if *role == "head".to_owned() {
        layout.is_head && !layout.is_tail
    } else if *role == "tail".to_owned() {
        layout.is_tail && !layout.is_head
    } else if *role == "middle".to_owned() {
        !layout.is_head && !layout.is_tail
    } else {
        false
    }
}

/// What is wrong with a prompt at a packed stage.
pub open spec fn begin_fault(
    layout: Option<StageLayoutModel>,
    view: Option<StageModelViewModel>,
    has_store: bool,
) -> Option<Seq<char>> {
    if layout is None {
        Some("No stage layout loaded"@)
    } else if view is None {
        Some("No stage model view loaded"@)
    } else if !has_store {
        Some("No stage tensor store loaded"@)
    } else if !layout->0.is_head {
        Some("Only the head stage may accept prompt ingress"@)
    } else if view->0.prompt_ingress.len() == 0 {
        Some("Head packed stage is missing prompt ingress tensors"@)
    } else {
        None
    }
}

/// What is wrong with a tensor that a packed stage is to continue.
pub open spec fn continue_fault(
    layout: Option<StageLayoutModel>,
    view: Option<StageModelViewModel>,
    has_store: bool,
    kind: PayloadKind,
) -> Option<Seq<char>> {
    if layout is None {
        Some("No stage layout loaded"@)
    } else if view is None {
        Some("No stage model view loaded"@)
    } else if !has_store {
        Some("No stage tensor store loaded"@)
    } else if kind != PayloadKind::HiddenState {
        Some("Stage forward requires hidden-state payloads"@)
    } else if layout->0.is_head {
        Some("Head stage should use begin_prompt, not continue_forward"@)
    } else {
        None
    }
}

/// What is wrong with a tensor that a packed stage is to sample.
pub open spec fn tail_fault(
    layout: Option<StageLayoutModel>,
    view: Option<StageModelViewModel>,
    has_store: bool,
    kind: PayloadKind,
) -> Option<Seq<char>> {
    if layout is None {
        Some("No stage layout loaded"@)
    } else if !has_store {
        Some("No stage tensor store loaded"@)
    } else if view is None {
        Some("No stage model view loaded"@)
    } else if !layout->0.is_tail {
        Some("Only the tail stage may sample output"@)
    } else if kind != PayloadKind::HiddenState {
        Some("Tail sampling requires hidden-state payloads"@)
    } else if view->0.tail_only.len() == 0 {
        Some("Tail packed stage is missing tail-only tensors"@)
    } else {
        None
    }
}

/// The width of the hidden state of a stage: it grows with its layers and shared tensors, within
/// limits, to a multiple of sixteen.
pub open spec fn state_width(layers: nat, shared: nat) -> nat {
    let grown = 16 * layers + 8 * shared;
    let base = if grown < 64 {
        64
    } else if grown > 512 {
        512
    } else {
        grown
    };
    (base + 15) / 16 * 16
}

impl LayerExecutionProgram {
    /// Whether some program has an operation of one of the kinds.
    pub open spec fn any_op(
        programs: Seq<LayerExecutionProgram>,
        kinds: spec_fn(ExecutionOpKind) -> bool,
    ) -> bool {
        exists|i: int, j: int|
            0 <= i < programs.len() && 0 <= j < programs[i].ops@.len() && kinds(
                (#[trigger] programs[i].ops@[j]).kind,
            )
    }
}

/// Whether an operation belongs to the projection path.
pub open spec fn is_projection(kind: ExecutionOpKind) -> bool {
    kind is InputGate || kind is Projection
}

/// A group of operations.
#[derive(Debug, Clone, Copy, PartialEq, Eq, Structural)]
enum OpGroup {
    Attention,
    Ffn,
    Projection,
}

spec fn in_group(group: OpGroup, kind: ExecutionOpKind) -> bool {
    match group {
        OpGroup::Attention => kind.is_attention(),
        OpGroup::Ffn => kind.is_ffn(),
        OpGroup::Projection => is_projection(kind),
    }
}

fn group_holds(group: OpGroup, kind: ExecutionOpKind) -> (r: bool)
    ensures
        r == in_group(group, kind),
{
    match group {
        OpGroup::Attention => matches!(
            kind,
            ExecutionOpKind::AttentionQ | ExecutionOpKind::AttentionK | ExecutionOpKind::AttentionV
                | ExecutionOpKind::AttentionOut
        ),
        OpGroup::Ffn => matches!(
            kind,
            ExecutionOpKind::FfnGate | ExecutionOpKind::FfnUp | ExecutionOpKind::FfnDown
        ),
        OpGroup::Projection => matches!(
            kind,
            ExecutionOpKind::InputGate | ExecutionOpKind::Projection
        ),
    }
}

fn ops_hold(ops: &[ExecutionOp], group: OpGroup) -> (r: bool)
    ensures
        r == exists|j: int|
            0 <= j < ops@.len() && in_group(group, (#[trigger] ops@[j]).kind),
{
    let mut index: usize = 0;
    while index < ops.len()
        invariant
            index <= ops@.len(),
            forall|j: int| 0 <= j < index ==> !in_group(group, (#[trigger] ops@[j]).kind),
        decreases ops.len() - index,
    {
        if group_holds(group, ops[index].kind) {
            return true;
        }
        index += 1;
    }
    false
}

fn programs_hold(programs: &[LayerExecutionProgram], group: OpGroup) -> (r: bool)
    ensures
        r == LayerExecutionProgram::any_op(
            programs@,
            |kind: ExecutionOpKind| in_group(group, kind),
        ),
{
    let mut index: usize = 0;
    while index < programs.len()
        invariant
            index <= programs@.len(),
            forall|i: int, j: int|
                0 <= i < index && 0 <= j < programs@[i].ops@.len() ==> !in_group(
                    group,
                    (#[trigger] programs@[i].ops@[j]).kind,
                ),
        decreases programs.len() - index,
    {
        if ops_hold(&programs[index].ops, group) {
            return true;
        }
        index += 1;
    }
    false
}

impl StageContinuationModel {
    /// Where a stage with the given model view stands after `completed_layers`.
    pub open spec fn of_view(
        view: StageModelViewModel,
        programs: Seq<LayerExecutionProgram>,
        completed_layers: u32,
        next_layer_index: Option<u32>,
    ) -> Self {
        StageContinuationModel {
            version: 1,
            stage_role: view.role,
            next_layer_index,
            completed_layers,
            operator_layers: view.operator_layers.len() as usize,
            has_attention_path: LayerExecutionProgram::any_op(
                programs,
                |kind: ExecutionOpKind| kind.is_attention(),
            ),
            has_ffn_path: LayerExecutionProgram::any_op(
                programs,
                |kind: ExecutionOpKind| kind.is_ffn(),
            ),
            has_projection_path: LayerExecutionProgram::any_op(
                programs,
                |kind: ExecutionOpKind| is_projection(kind),
            ),
        }
    }
}

/// A number's eight bytes, least significant first.
pub open spec fn eight_bytes(value: u64) -> Seq<u8> {
    crate::framing::le_bytes(value as int % 0x1_0000_0000) + crate::framing::le_bytes(
        value as int / 0x1_0000_0000,
    )
}

fn push_eight_bytes(out: &mut Vec<u8>, value: u64)
    ensures
        final(out)@ == old(out)@ + eight_bytes(value),
{
    let low: u64 = value % 0x1_0000_0000;
    let high: u64 = value / 0x1_0000_0000;
    out.push((low % 0x100) as u8);
    out.push((low / 0x100 % 0x100) as u8);
    out.push((low / 0x1_0000 % 0x100) as u8);
    out.push((low / 0x100_0000 % 0x100) as u8);
    out.push((high % 0x100) as u8);
    out.push((high / 0x100 % 0x100) as u8);
    out.push((high / 0x1_0000 % 0x100) as u8);
    out.push((high / 0x100_0000 % 0x100) as u8);
    assert(out@ =~= old(out)@ + eight_bytes(value));
}

/// A byte with its bits turned towards the upper end, around the end.
pub open spec fn rotated(byte: int, count: int) -> int {
    let moved = byte * crate::quants::weight(count);
    moved % 256 + moved / 256
}

fn rotate(byte: u8, count: usize) -> (r: u8)
    requires
        count < 7,
    ensures
        r as int == rotated(byte as int, count as int),
{
    proof {
        reveal_with_fuel(crate::quants::weight, 8);
    }
    let moved: u32 = match count {
        0 => byte as u32,
        1 => byte as u32 * 2,
        2 => byte as u32 * 4,
        3 => byte as u32 * 8,
        4 => byte as u32 * 16,
        5 => byte as u32 * 32,
        _ => byte as u32 * 64,
    };
    let ghost weight = crate::quants::weight(count as int);
    assert(moved as int == byte as int * weight) by (nonlinear_arith)
        requires
            (weight == 1 && moved == byte) || (weight == 2 && moved == byte * 2) || (weight == 4
                && moved == byte * 4) || (weight == 8 && moved == byte * 8) || (weight == 16
                && moved == byte * 16) || (weight == 32 && moved == byte * 32) || (weight == 64
                && moved == byte * 64),
    ;
    assert(moved % 256 + moved / 256 < 256);
    (moved % 256 + moved / 256) as u8
}

/// The bytes that the state of a prompt grows from: the prompt, the stage's name, and the numbers
/// of its layers, ingress tensors and shared tensors.
pub open spec fn prompt_bytes(prompt: Seq<char>, view: StageModelViewModel, stage_id: Seq<char>) -> Seq<
    u8,
> {
    crate::stub::text_bytes(prompt) + crate::stub::text_bytes(stage_id) + eight_bytes(
        view.layers.len() as u64,
    ) + eight_bytes(view.prompt_ingress.len() as u64) + eight_bytes(
        view.shared_auxiliary.len() as u64,
    )
}

/// The bytes that the state of a prompt is made of.
pub open spec fn prompt_seed_bytes(
    prompt: Seq<char>,
    view: StageModelViewModel,
    stage_id: Seq<char>,
    width: nat,
) -> Seq<u8> {
    let seed = prompt_bytes(prompt, view, stage_id);
    let stage = crate::stub::text_bytes(stage_id);
    Seq::new(
        width,
        |i: int|
            rotated(
                (seed[i % seed.len() as int] + stage[i % stage.len() as int] + i % 251) % 256,
                i % 7,
            ) as u8,
    )
}

/// The characters that a packed stage samples from.
pub open spec fn sketch_vocabulary() -> Seq<char> {
    " ABCDEFGHIJKLMNOPQRSTUVWXYZ0123456789:-"@
}

/// The number of characters that a packed stage samples: what is asked for, within limits.
pub open spec fn sketch_take(max_tokens: Option<u32>) -> nat {
    match max_tokens {
        Some(count) => if count < 4 {
            4
        } else if count > 32 {
            32
        } else {
            count as nat
        },
        None => 16,
    }
}

/// The text that a packed stage samples from a state: a character for each byte, without the space
/// around.
pub open spec fn sketch_text(bytes: Seq<u8>, max_tokens: Option<u32>) -> Seq<char> {
    crate::text::trim(
        Seq::new(
            sketch_take(max_tokens),
            |i: int| sketch_vocabulary()[bytes[i % bytes.len() as int] as int % 39],
        ),
    )
}

/// The carry that a stage resumes with: the one handed over, else that of the preview handed over.
pub open spec fn resumed_carry(input: StageTensorModel) -> Option<StageCarryStateModel> {
    match (input.carry, input.transient) {
        (Some(carry), _) => Some(carry),
        (None, Some(transient)) => Some(
            StageCarryStateModel::of_transient(
                transient,
                StageCarryPolicy { carry_attention: true, carry_ffn: true },
            ),
        ),
        (None, None) => None,
    }
}

/// The layers of a stage at work: what those that are done leave behind, and what the first ones
/// may resume with.
#[derive(Debug, PartialEq)]
pub struct LayerLoop {
    pub resume_carry: Option<StageCarryState>,
    pub transient: Option<StageTransientState>,
    pub carry: Option<StageCarryState>,
}

impl LayerLoop {
    /// The loop before the first layer.
    pub fn start(resume_carry: Option<StageCarryState>) -> (r: Self)
        ensures
            r.resume_carry == resume_carry,
            r.transient is None,
            r.carry is None,
    {
        LayerLoop { resume_carry, transient: None, carry: None }
    }

    /// What the next layer resumes with: the carry handed over, until a layer has left a preview.
    pub fn resume_seed(&self) -> (r: Option<&StageCarryState>)
        ensures
            match r {
                Some(carry) => self.transient is None && self.resume_carry == Some(*carry),
                None => self.transient is Some || self.resume_carry is None,
            },
    {
        if self.transient.is_none() {
            self.resume_carry.as_ref()
        } else {
            None
        }
    }

    /// Takes what a layer left behind.
    pub fn absorb(
        self,
        transient: Option<StageTransientState>,
        carry: Option<StageCarryState>,
    ) -> (r: Self)
        ensures
            r.resume_carry == self.resume_carry,
            crate::model::opt(r.transient) == crate::layer_run::merged_transient(
                crate::model::opt(self.transient),
                crate::model::opt(transient),
            ),
            crate::model::opt(r.carry) == crate::layer_run::merged_carry(
                crate::model::opt(self.carry),
                crate::model::opt(carry),
            ),
    {
        LayerLoop {
            resume_carry: self.resume_carry,
            transient: merge_transient_checkpoint(self.transient, transient),
            carry: merge_stage_carry(self.carry, carry),
        }
    }
}

impl Default for PackedResidencySketchBackend {
    fn default() -> (r: Self)
        ensures
            r.index_path@ == "stage-required.index.json"@,
            r.layout is None,
            r.store is None,
            r.model_view is None,
            r.debug_layer_cap is None,
    {
        Self::new("stage-required.index.json".to_owned())
    }
}

impl PackedResidencySketchBackend {
    /// Loads a packed stage under a layout. Nothing changes where the stage's offsets are wrong or
    /// its role is not that of the layout.
    pub fn load_stage(&mut self, store: StageTensorStore, layout: StageLayout) -> (r: Result<
        (),
        StageError,
    >)
        ensures
            crate::model::failure(r) == stage_fault(store@, layout@),
            final(self).index_path == old(self).index_path,
            final(self).debug_layer_cap == old(self).debug_layer_cap,
            r is Err ==> *final(self) == *old(self),
            r is Ok ==> {
                &&& final(self).layout == Some(layout)
                &&& final(self).store == Some(store)
                &&& final(self).model_view matches Some(view) && view@
                    == StageModelViewModel::of_tensors(store@.index.role, store@.index.tensors)
            },
    {
        if let Err(error) = store.validate_offsets() {
            return Err(error);
        }
        if !check_role(&store.artifact.index.role, &layout) {
            return fail_with(
                "Packed stage role ".to_owned().concat(
                    store.artifact.index.role.as_str(),
                ).concat(" does not match layout head=").concat(flag_text(layout.is_head)).concat(
                    " tail=",
                ).concat(flag_text(layout.is_tail)),
            );
        }
        let view = store.model_view();
        self.layout = Some(layout);
        self.model_view = Some(view);
        self.store = Some(store);
        Ok(())
    }

    /// Checks that the stage may start a prompt.
    pub fn check_begin(&self) -> (r: Result<(), StageError>)
        ensures
            crate::model::failure(r) == begin_fault(
                crate::model::opt(self.layout),
                crate::model::opt(self.model_view),
                self.store is Some,
            ),
    {
        let layout = match self.layout() {
            Ok(layout) => layout,
            Err(error) => return Err(error),
        };
        let view = match self.model_view() {
            Ok(view) => view,
            Err(error) => return Err(error),
        };
        if let Err(error) = self.store() {
            return Err(error);
        }
        if !layout.is_head {
            return fail("Only the head stage may accept prompt ingress");
        }
        if view.prompt_ingress.len() == 0 {
            return fail("Head packed stage is missing prompt ingress tensors");
        }
        Ok(())
    }

    /// Checks that the stage may continue a tensor.
    pub fn check_continue(&self, kind: PayloadKind) -> (r: Result<(), StageError>)
        ensures
            crate::model::failure(r) == continue_fault(
                crate::model::opt(self.layout),
                crate::model::opt(self.model_view),
                self.store is Some,
                kind,
            ),
    {
        let layout = match self.layout() {
            Ok(layout) => layout,
            Err(error) => return Err(error),
        };
        if let Err(error) = self.model_view() {
            return Err(error);
        }
        if let Err(error) = self.store() {
            return Err(error);
        }
        if kind != PayloadKind::HiddenState {
            return fail("Stage forward requires hidden-state payloads");
        }
        if layout.is_head {
            return fail("Head stage should use begin_prompt, not continue_forward");
        }
        Ok(())
    }

    /// Checks that the stage may sample a tensor.
    pub fn check_tail(&self, kind: PayloadKind) -> (r: Result<(), StageError>)
        ensures
            crate::model::failure(r) == tail_fault(
                crate::model::opt(self.layout),
                crate::model::opt(self.model_view),
                self.store is Some,
                kind,
            ),
    {
        let layout = match self.layout() {
            Ok(layout) => layout,
            Err(error) => return Err(error),
        };
        if let Err(error) = self.store() {
            return Err(error);
        }
        let view = match self.model_view() {
            Ok(view) => view,
            Err(error) => return Err(error),
        };
        if !layout.is_tail {
            return fail("Only the tail stage may sample output");
        }
        if kind != PayloadKind::HiddenState {
            return fail("Tail sampling requires hidden-state payloads");
        }
        if view.tail_only.len() == 0 {
            return fail("Tail packed stage is missing tail-only tensors");
        }
        Ok(())
    }

    /// The number of layers that the stage runs: all of them, or as many as the cap lets it.
    pub open spec fn layer_count(self, view: StageModelView) -> usize {
        let all = view.execution_programs@.len() as usize;
        match self.debug_layer_cap {
            Some(cap) if cap < all => cap,
            _ => all,
        }
    }

    /// The number of layers that the stage runs.
    pub fn execution_layer_count(&self, view: &StageModelView) -> (r: usize)
        ensures
            r == self.layer_count(*view),
            r <= view.execution_programs@.len(),
    {
        let all: usize = view.execution_programs.len();
        match self.debug_layer_cap {
            Some(cap) => if cap < all {
                cap
            } else {
                all
            },
            None => all,
        }
    }

    /// The width of the stage's hidden state.
    pub fn hidden_dim(view: &StageModelView) -> (r: usize)
        ensures
            r == state_width(view@.layers.len(), view@.shared_auxiliary.len()),
    {
        let layers: usize = view.layers.len();
        let shared: usize = view.shared_auxiliary.len();
        if layers > 32 || shared > 64 {
            return 512;
        }
        let grown: usize = 16 * layers + 8 * shared;
        let base: usize = if grown < 64 {
            64
        } else if grown > 512 {
            512
        } else {
            grown
        };
        (base + 15) / 16 * 16
    }

    /// Where the stage stands after `completed_layers`.
    pub fn continuation_for_view(
        model_view: &StageModelView,
        completed_layers: u32,
        next_layer_index: Option<u32>,
    ) -> (r: StageContinuation)
        ensures
            r@ == StageContinuationModel::of_view(
                model_view@,
                model_view.execution_programs@,
                completed_layers,
                next_layer_index,
            ),
    {
        let programs = &model_view.execution_programs;
        let has_attention_path = programs_hold(programs, OpGroup::Attention);
        let has_ffn_path = programs_hold(programs, OpGroup::Ffn);
        let has_projection_path = programs_hold(programs, OpGroup::Projection);
        proof {
            assert((|kind: ExecutionOpKind| in_group(OpGroup::Attention, kind)) =~= (
            |kind: ExecutionOpKind| kind.is_attention()));
            assert((|kind: ExecutionOpKind| in_group(OpGroup::Ffn, kind)) =~= (
            |kind: ExecutionOpKind| kind.is_ffn()));
            assert((|kind: ExecutionOpKind| in_group(OpGroup::Projection, kind)) =~= (
            |kind: ExecutionOpKind| is_projection(kind)));
        }
        StageContinuation {
            version: 1,
            stage_role: model_view.role.clone(),
            next_layer_index,
            completed_layers,
            operator_layers: model_view.operator_layers.len(),
            has_attention_path,
            has_ffn_path,
            has_projection_path,
        }
    }

    /// Where the stage stands after it ran `count` layers, counted in 32 bits: the next layer is
    /// told as long as there is one.
    pub fn continuation_after(&self, layout: &StageLayout, view: &StageModelView, count: usize) -> (r:
        StageContinuation)
        requires
            count < view.execution_programs@.len() ==> layout.start_layer + count as int % 0x1_0000_0000
                <= u32::MAX,
        ensures
            r@ == StageContinuationModel::of_view(
                view@,
                view.execution_programs@,
                (count as int % 0x1_0000_0000) as u32,
                if count < view.execution_programs@.len() {
                    Some((layout.start_layer + count as int % 0x1_0000_0000) as u32)
                } else {
                    None
                },
            ),
    {
        let completed: u32 = (count as u64 % 0x1_0000_0000) as u32;
        let next_layer_index: Option<u32> = if count < view.execution_programs.len() {
            Some(layout.start_layer + completed)
        } else {
            None
        };
        Self::continuation_for_view(view, completed, next_layer_index)
    }

    /// The bytes that the state of a prompt is made of.
    pub fn prompt_seed(prompt: &str, view: &StageModelView, stage_id: &str, width: usize) -> (r: Vec<
        u8,
    >)
        requires
            width > 0 ==> stage_id@.len() > 0,
        ensures
            r@ == prompt_seed_bytes(prompt@, view@, stage_id@, width as nat),
    {
        proof {
            if width > 0 {
                crate::stub::lemma_text_has_bytes(stage_id@);
            }
        }
        let stage = stage_id.as_bytes();
        let mut seed: Vec<u8> = Vec::new();
        seed.extend_from_slice(prompt.as_bytes());
        seed.extend_from_slice(stage);
        assert(seed@ =~= crate::stub::text_bytes(prompt@) + crate::stub::text_bytes(stage_id@));
        push_eight_bytes(&mut seed, view.layers.len() as u64);
        push_eight_bytes(&mut seed, view.prompt_ingress.len() as u64);
        push_eight_bytes(&mut seed, view.shared_auxiliary.len() as u64);
        assert(seed@ =~= prompt_bytes(prompt@, view@, stage_id@));
        let ghost expected = prompt_seed_bytes(prompt@, view@, stage_id@, width as nat);
        let mut out: Vec<u8> = Vec::new();
        let mut index: usize = 0;
        while index < width
            invariant
                index <= width,
                seed@ == prompt_bytes(prompt@, view@, stage_id@),
                stage@ == crate::stub::text_bytes(stage_id@),
                seed@.len() > 0,
                width > 0 ==> stage@.len() > 0,
                expected == prompt_seed_bytes(prompt@, view@, stage_id@, width as nat),
                out@.len() == index,
                forall|i: int| 0 <= i < index ==> #[trigger] out@[i] == expected[i],
            decreases width - index,
        {
            let sum: u32 = seed[index % seed.len()] as u32 + stage[index % stage.len()] as u32 + (
            index % 251) as u32;
            out.push(rotate((sum % 256) as u8, index % 7));
            index += 1;
        }
        assert(out@ =~= expected);
        out
    }

    /// The text that the stage samples from a state.
    pub fn sample_text(bytes: &[u8], max_tokens: Option<u32>) -> (r: String)
        requires
            bytes@.len() > 0,
        ensures
            r@ == sketch_text(bytes@, max_tokens),
    {
        proof {
            reveal_strlit(" ABCDEFGHIJKLMNOPQRSTUVWXYZ0123456789:-");
        }
        let vocabulary = chars_of(" ABCDEFGHIJKLMNOPQRSTUVWXYZ0123456789:-");
        let take: usize = match max_tokens {
            Some(count) => if count < 4 {
                4
            } else if count > 32 {
                32
            } else {
                count as usize
            },
            None => 16,
        };
        let mut out: Vec<char> = Vec::new();
        let mut index: usize = 0;
        while index < take
            invariant
                index <= take,
                bytes@.len() > 0,
                vocabulary@ == sketch_vocabulary(),
                vocabulary@.len() == 39,
                out@.len() == index,
                forall|i: int|
                    0 <= i < index ==> #[trigger] out@[i] == sketch_vocabulary()[bytes@[i
                        % bytes@.len() as int] as int % 39],
            decreases take - index,
        {
            let byte: u8 = bytes[index % bytes.len()];
            out.push(vocabulary[byte as usize % 39]);
            index += 1;
        }
        assert(out@ =~= Seq::new(
            sketch_take(max_tokens),
            |i: int| sketch_vocabulary()[bytes@[i % bytes@.len() as int] as int % 39],
        ));
        text_of(&trimmed_chars(&out))
    }

    /// The carry that the stage resumes with.
    pub fn resume_carry(input: &StageTensor) -> (r: Option<StageCarryState>)
        ensures
            crate::model::opt(r) == resumed_carry(input@),
    {
        match (&input.carry, &input.transient) {
            (Some(carry), _) => Some(carry.clone()),
            (None, Some(transient)) => Some(
                StageCarryState::from_transient(transient, &StageCarryPolicy::full()),
            ),
            (None, None) => None,
        }
    }
}

/// A step of a packed stage at work on its state. A tensor or a layer is told by its place in its
/// list of the model view.
#[derive(Debug, Clone, Copy, PartialEq, Eq, Structural)]
pub enum StageStep {
    /// Mix a number made of a prompt ingress tensor into the state.
    MixIngress(usize),
    /// Mix a number made of a positional tensor into the state.
    MixPositional(usize),
    /// Mix a number made of a shared tensor into the state.
    MixShared(usize),
    /// Run a layer on the state.
    RunLayer(usize),
    /// Mix a number made of a tail tensor into the state.
    MixTail(usize),
}

impl StageStep {
    /// The same kind of step for each place of a list.
    pub open spec fn each(step: spec_fn(usize) -> StageStep, count: nat) -> Seq<StageStep> {
        Seq::new(count, |place: int| step(place as usize))
    }

    /// The layers that are run when at most `count` are: those that have both an operator view
    /// and a program.
    pub open spec fn layers(view: StageModelView, count: usize) -> Seq<StageStep> {
        let paired = if view.operator_layers@.len() <= view.execution_programs@.len() {
            view.operator_layers@.len()
        } else {
            view.execution_programs@.len()
        };
        Self::each(
            |place: usize| StageStep::RunLayer(place),
            if paired <= count {
                paired
            } else {
                count as nat
            },
        )
    }

    /// What is done with the positional and the shared tensors.
    pub open spec fn common(view: StageModelView) -> Seq<StageStep> {
        Self::each(|place: usize| StageStep::MixPositional(place), view.positional@.len())
            + Self::each(|place: usize| StageStep::MixShared(place), view.shared_auxiliary@.len())
    }

    /// What is done with a prompt: the ingress tensors, the common ones, then the layers.
    pub open spec fn of_prompt(view: StageModelView, count: usize) -> Seq<StageStep> {
        Self::each(|place: usize| StageStep::MixIngress(place), view.prompt_ingress@.len())
            + Self::common(view) + Self::layers(view, count)
    }

    /// What is done with a tensor of the stage before: the common tensors, then the layers.
    pub open spec fn of_tensor(view: StageModelView, count: usize) -> Seq<StageStep> {
        Self::common(view) + Self::layers(view, count)
    }

    /// What is done before the last tensor is sampled.
    pub open spec fn of_tail(view: StageModelView) -> Seq<StageStep> {
        Self::each(|place: usize| StageStep::MixTail(place), view.tail_only@.len())
    }
}

fn push_common_steps(steps: &mut Vec<StageStep>, view: &StageModelView)
    ensures
        final(steps)@ == old(steps)@ + StageStep::common(*view),
{
    let ghost positional = StageStep::each(
        |place: usize| StageStep::MixPositional(place),
        view.positional@.len(),
    );
    let ghost shared = StageStep::each(
        |place: usize| StageStep::MixShared(place),
        view.shared_auxiliary@.len(),
    );
    let mut place: usize = 0;
    while place < view.positional.len()
        invariant
            place <= view.positional@.len(),
            positional == StageStep::each(
                |place: usize| StageStep::MixPositional(place),
                view.positional@.len(),
            ),
            steps@ == old(steps)@ + positional.take(place as int),
        decreases view.positional@.len() - place,
    {
        assert(positional.take(place + 1) =~= positional.take(place as int).push(
            StageStep::MixPositional(place),
        ));
        steps.push(StageStep::MixPositional(place));
        place += 1;
    }
    assert(positional.take(place as int) =~= positional);
    let mut place: usize = 0;
    while place < view.shared_auxiliary.len()
        invariant
            place <= view.shared_auxiliary@.len(),
            shared == StageStep::each(
                |place: usize| StageStep::MixShared(place),
                view.shared_auxiliary@.len(),
            ),
            steps@ == old(steps)@ + positional + shared.take(place as int),
        decreases view.shared_auxiliary@.len() - place,
    {
        assert(shared.take(place + 1) =~= shared.take(place as int).push(
            StageStep::MixShared(place),
        ));
        steps.push(StageStep::MixShared(place));
        place += 1;
    }
    assert(shared.take(place as int) =~= shared);
    assert(steps@ =~= old(steps)@ + StageStep::common(*view));
}

fn push_layer_steps(steps: &mut Vec<StageStep>, view: &StageModelView, count: usize)
    ensures
        final(steps)@ == old(steps)@ + StageStep::layers(*view, count),
{
    let ghost layers = StageStep::layers(*view, count);
    let mut place: usize = 0;
    while place < count && place < view.operator_layers.len() && place
        < view.execution_programs.len()
        invariant
            layers == StageStep::layers(*view, count),
            place <= layers.len(),
            steps@ == old(steps)@ + layers.take(place as int),
        decreases layers.len() - place,
    {
        assert(layers.take(place + 1) =~= layers.take(place as int).push(
            StageStep::RunLayer(place),
        ));
        steps.push(StageStep::RunLayer(place));
        place += 1;
    }
    assert(layers.take(place as int) =~= layers);
}

impl PackedResidencySketchBackend {
    /// What the stage does with a prompt, in order.
    pub fn prompt_steps(&self, view: &StageModelView) -> (r: Vec<StageStep>)
        ensures
            r@ == StageStep::of_prompt(*view, self.layer_count(*view)),
    {
        let ghost ingress = StageStep::each(
            |place: usize| StageStep::MixIngress(place),
            view.prompt_ingress@.len(),
        );
        let mut steps: Vec<StageStep> = Vec::new();
        let mut place: usize = 0;
        while place < view.prompt_ingress.len()
            invariant
                place <= view.prompt_ingress@.len(),
                ingress == StageStep::each(
                    |place: usize| StageStep::MixIngress(place),
                    view.prompt_ingress@.len(),
                ),
                steps@ == ingress.take(place as int),
            decreases view.prompt_ingress@.len() - place,
        {
            assert(ingress.take(place + 1) =~= ingress.take(place as int).push(
                StageStep::MixIngress(place),
            ));
            steps.push(StageStep::MixIngress(place));
            place += 1;
        }
        assert(ingress.take(place as int) =~= ingress);
        push_common_steps(&mut steps, view);
        push_layer_steps(&mut steps, view, self.execution_layer_count(view));
        steps
    }

    /// What the stage does with a tensor of the stage before, in order.
    pub fn tensor_steps(&self, view: &StageModelView) -> (r: Vec<StageStep>)
        ensures
            r@ == StageStep::of_tensor(*view, self.layer_count(*view)),
    {
        let mut steps: Vec<StageStep> = Vec::new();
        push_common_steps(&mut steps, view);
        push_layer_steps(&mut steps, view, self.execution_layer_count(view));
        assert(steps@ =~= StageStep::of_tensor(*view, self.layer_count(*view)));
        steps
    }

    /// What the stage does before it samples, in order.
    pub fn tail_steps(view: &StageModelView) -> (r: Vec<StageStep>)
        ensures
            r@ == StageStep::of_tail(*view),
    {
        let ghost tail = StageStep::of_tail(*view);
        let mut steps: Vec<StageStep> = Vec::new();
        let mut place: usize = 0;
        while place < view.tail_only.len()
            invariant
                place <= view.tail_only@.len(),
                tail == StageStep::of_tail(*view),
                steps@ == tail.take(place as int),
            decreases view.tail_only@.len() - place,
        {
            assert(tail.take(place + 1) =~= tail.take(place as int).push(
                StageStep::MixTail(place),
            ));
            steps.push(StageStep::MixTail(place));
            place += 1;
        }
        assert(tail.take(place as int) =~= tail);
        steps
    }

    /// The salt of a layer: the stage's name and the layer's number.
    pub fn layer_salt(stage_id: &str, layer_index: u32) -> (r: String)
        ensures
            r@ == stage_id@ + ":layer:"@ + crate::text::dec(layer_index as nat),
    {
        stage_id.to_owned().concat(":layer:").concat(decimal(layer_index as u64).as_str())
    }

    /// The salt of the tail tensors.
    pub fn tail_salt(stage_id: &str) -> (r: String)
        ensures
            r@ == stage_id@ + ":tail"@,
    {
        stage_id.to_owned().concat(":tail")
    }
}

impl StageTensor {
    /// The tensor with the state that the layers of a stage left behind.
    pub fn with_left_state(self, continuation: StageContinuation, left: LayerLoop) -> (r: Self)
        ensures
            r@ == self@.with_state(
                StageStateEnvelopeModel {
                    continuation: Some(continuation@),
                    transient: crate::model::opt(left.transient),
                    carry: crate::model::opt(left.carry),
                },
            ),
    {
        StageTensor {
            request_id: self.request_id,
            kind: self.kind,
            stage_trace: self.stage_trace,
            hidden_dim: self.hidden_dim,
            bytes: self.bytes,
            prompt_text: self.prompt_text,
            max_tokens: self.max_tokens,
            continuation: Some(continuation),
            transient: left.transient,
            carry: left.carry,
        }
    }
}

/// The width of a stage's hidden state is a multiple of sixteen from 64 to 512.
pub proof fn lemma_state_width(layers: nat, shared: nat)
    ensures
        64 <= state_width(layers, shared) <= 512,
        state_width(layers, shared) % 16 == 0,
{
}

/// A stage whose layers all have an operator view and a program runs as many layers as it is told
/// to, from the first on.
pub proof fn lemma_layers_run_in_order(view: StageModelView, count: usize)
    requires
        count <= view.execution_programs@.len(),
        view.operator_layers@.len() == view.execution_programs@.len(),
    ensures
        StageStep::layers(view, count).len() == count,
        forall|place: int|
            0 <= place < count ==> #[trigger] StageStep::layers(view, count)[place]
                == StageStep::RunLayer(place as usize),
{
}

} // verus!
