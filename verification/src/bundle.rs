//! Runtime bundles: which tensors each stage of a model needs, checked against the manifests they
//! come from, and the packing of a stage's tensors.
use vstd::prelude::*;
use vstd::string::*;
use crate::model::{clone_texts, fail_with, StageError};
use crate::names::{equal_names, holds_name, sorted_names};
use crate::packed::{
    clone_slices, pack_entries, read_section, PackedStageIndex, PackedStageIndexModel, TensorSlice,
    TensorSliceModel,
};
use crate::text::{chars_of, decimal, same_text, text_of, trimmed_chars};

verus! {

/// The tensors that a runtime plan lists, and the bytes they take up.
#[derive(Debug, PartialEq, Eq)]
pub struct RuntimeTensorList {
    pub tensor_names: Vec<String>,
    pub total_bytes: u64,
}

/// What a [`RuntimeTensorList`] holds, as mathematical values.
#[verifier::ext_equal]
pub struct RuntimeTensorListModel {
    pub tensor_names: Seq<Seq<char>>,
    pub total_bytes: u64,
}

impl View for RuntimeTensorList {
    type V = RuntimeTensorListModel;

    open spec fn view(&self) -> RuntimeTensorListModel {
        RuntimeTensorListModel {
            tensor_names: crate::model::texts(self.tensor_names@),
            total_bytes: self.total_bytes,
        }
    }
}

/// What one stage needs at run time, as planned.
#[derive(Debug, PartialEq, Eq)]
pub struct StageRuntimePlan {
    pub stage_index: u32,
    pub role: String,
    pub required: RuntimeTensorList,
    pub optional: RuntimeTensorList,
}

/// What a [`StageRuntimePlan`] holds, as mathematical values.
#[verifier::ext_equal]
pub struct StageRuntimePlanModel {
    pub stage_index: u32,
    pub role: Seq<char>,
    pub required: RuntimeTensorListModel,
    pub optional: RuntimeTensorListModel,
}

impl View for StageRuntimePlan {
    type V = StageRuntimePlanModel;

    open spec fn view(&self) -> StageRuntimePlanModel {
        StageRuntimePlanModel {
            stage_index: self.stage_index,
            role: self.role@,
            required: self.required@,
            optional: self.optional@,
        }
    }
}

/// The layers of one stage.
#[derive(Debug, Clone, Copy, PartialEq, Eq, Structural)]
pub struct StageManifest {
    pub stage_index: u32,
    pub start_layer: u32,
    pub end_layer: u32,
}

/// Where the tensors of one stage stand in the model file.
#[derive(Debug, PartialEq, Eq)]
pub struct StageRuntimeSliceManifest {
    pub required: Vec<TensorSlice>,
    pub optional: Vec<TensorSlice>,
}

/// The files of one stage, by name or by path.
#[derive(Debug, PartialEq, Eq)]
pub struct StageFiles {
    pub manifest: String,
    pub runtime: String,
    pub required: String,
    pub optional: String,
    pub slices: String,
}

/// A stage as loaded: its layers, and the tensors that it requires or may use.
#[derive(Debug, PartialEq, Eq)]
pub struct LoadedRuntimeStage {
    pub stage_index: u32,
    pub start_layer: u32,
    pub end_layer: u32,
    pub role: String,
    pub required: Vec<String>,
    pub optional: Vec<String>,
    pub required_bytes: u64,
    pub optional_bytes: u64,
    pub required_slices: Vec<TensorSlice>,
    pub optional_slices: Vec<TensorSlice>,
}

/// What a [`LoadedRuntimeStage`] holds, as mathematical values.
#[verifier::ext_equal]
pub struct LoadedRuntimeStageModel {
    pub stage_index: u32,
    pub start_layer: u32,
    pub end_layer: u32,
    pub role: Seq<char>,
    pub required: Seq<Seq<char>>,
    pub optional: Seq<Seq<char>>,
    pub required_bytes: u64,
    pub optional_bytes: u64,
    pub required_slices: Seq<TensorSliceModel>,
    pub optional_slices: Seq<TensorSliceModel>,
}

impl View for LoadedRuntimeStage {
    type V = LoadedRuntimeStageModel;

    open spec fn view(&self) -> LoadedRuntimeStageModel {
        LoadedRuntimeStageModel {
            stage_index: self.stage_index,
            start_layer: self.start_layer,
            end_layer: self.end_layer,
            role: self.role@,
            required: crate::model::texts(self.required@),
            optional: crate::model::texts(self.optional@),
            required_bytes: self.required_bytes,
            optional_bytes: self.optional_bytes,
            required_slices: crate::model::views(self.required_slices@),
            optional_slices: crate::model::views(self.optional_slices@),
        }
    }
}

impl Clone for LoadedRuntimeStage {
    fn clone(&self) -> (r: Self)
        ensures
            r@ == self@,
    {
        LoadedRuntimeStage {
            stage_index: self.stage_index,
            start_layer: self.start_layer,
            end_layer: self.end_layer,
            role: self.role.clone(),
            required: clone_texts(&self.required),
            optional: clone_texts(&self.optional),
            required_bytes: self.required_bytes,
            optional_bytes: self.optional_bytes,
            required_slices: clone_slices(&self.required_slices),
            optional_slices: clone_slices(&self.optional_slices),
        }
    }
}

/// The stages of a model.
#[derive(Debug, PartialEq, Eq)]
pub struct LoadedRuntimeBundle {
    pub model_name: String,
    pub architecture: String,
    pub stages: Vec<LoadedRuntimeStage>,
}

/// What a [`LoadedRuntimeBundle`] holds, as mathematical values.
#[verifier::ext_equal]
pub struct LoadedRuntimeBundleModel {
    pub model_name: Seq<char>,
    pub architecture: Seq<char>,
    pub stages: Seq<LoadedRuntimeStageModel>,
}

impl View for LoadedRuntimeBundle {
    type V = LoadedRuntimeBundleModel;

    open spec fn view(&self) -> LoadedRuntimeBundleModel {
        LoadedRuntimeBundleModel {
            model_name: self.model_name@,
            architecture: self.architecture@,
            stages: crate::model::views(self.stages@),
        }
    }
}

/// One stage of a bundle together with the model file that its tensors are read from.
#[derive(Debug, PartialEq, Eq)]
pub struct StageResidencyAdapter {
    pub bundle: LoadedRuntimeBundle,
    pub gguf_path: String,
    pub gguf_tensors: Vec<String>,
    pub stage: LoadedRuntimeStage,
}

/// A stage's number as people count: from one.
pub open spec fn stage_number(stage_index: u32) -> Seq<char> {
    crate::text::dec((stage_index + 1) as nat)
}

fn numbered(stage_index: u32) -> (r: String)
    ensures
        r@ == stage_number(stage_index),
{
    decimal(stage_index as u64 + 1)
}

impl StageFiles {
    /// The names of a stage's files.
    pub fn for_stage(stage_index: u32) -> (r: Self)
        ensures
            r.manifest@ == "stage-"@ + stage_number(stage_index) + ".json"@,
            r.runtime@ == "runtime-stage-"@ + stage_number(stage_index) + ".json"@,
            r.required@ == "runtime-stage-"@ + stage_number(stage_index) + "-required.txt"@,
            r.optional@ == "runtime-stage-"@ + stage_number(stage_index) + "-optional.txt"@,
            r.slices@ == "runtime-stage-"@ + stage_number(stage_index) + "-slices.json"@,
    {
        let number = numbered(stage_index);
        StageFiles {
            manifest: "stage-".to_owned().concat(number.as_str()).concat(".json"),
            runtime: "runtime-stage-".to_owned().concat(number.as_str()).concat(".json"),
            required: "runtime-stage-".to_owned().concat(number.as_str()).concat("-required.txt"),
            optional: "runtime-stage-".to_owned().concat(number.as_str()).concat("-optional.txt"),
            slices: "runtime-stage-".to_owned().concat(number.as_str()).concat("-slices.json"),
        }
    }
}

/// The characters behind the last line break.
pub open spec fn open_line(text: Seq<char>) -> Seq<char>
    decreases text.len(),
{
    if text.len() == 0 || text.last() == '\n' {
        Seq::empty()
    } else {
        open_line(text.drop_last()).push(text.last())
    }
}

/// The name that a line holds: the line without the space around it, unless nothing is left.
pub open spec fn line_name(line: Seq<char>) -> Seq<Seq<char>> {
    if crate::text::trim(line).len() == 0 {
        Seq::empty()
    } else {
        seq![crate::text::trim(line)]
    }
}

/// The names on the lines that a line break ends.
pub open spec fn closed_names(text: Seq<char>) -> Seq<Seq<char>>
    decreases text.len(),
{
    if text.len() == 0 {
        Seq::empty()
    } else if text.last() == '\n' {
        closed_names(text.drop_last()) + line_name(open_line(text.drop_last()))
    } else {
        closed_names(text.drop_last())
    }
}

/// The names that a text lists, one on a line.
pub open spec fn listed_names(text: Seq<char>) -> Seq<Seq<char>> {
    closed_names(text) + line_name(open_line(text))
}

fn push_line_name(names: &mut Vec<String>, line: &[char])
    ensures
        crate::model::texts(final(names)@) == crate::model::texts(old(names)@) + line_name(line@),
{
    let name = trimmed_chars(line);
    if name.len() > 0 {
        names.push(text_of(&name));
    }
    assert(crate::model::texts(names@) =~= crate::model::texts(old(names)@) + line_name(line@));
}

/// The names that a text lists, one on a line: ascending, each once.
pub fn read_tensor_set(text: &str) -> (r: Vec<String>)
    ensures
        crate::names::ascending(crate::model::texts(r@)),
        crate::names::same_names(crate::model::texts(r@), listed_names(text@)),
{
    let chars = chars_of(text);
    let mut names: Vec<String> = Vec::new();
    let mut line: Vec<char> = Vec::new();
    let mut index: usize = 0;
    proof {
        assert(chars@.take(0) =~= Seq::empty());
        assert(crate::model::texts(names@) =~= Seq::empty());
    }
    while index < chars.len()
        invariant
            index <= chars@.len(),
            crate::model::texts(names@) == closed_names(chars@.take(index as int)),
            line@ == open_line(chars@.take(index as int)),
        decreases chars.len() - index,
    {
        proof {
            assert(chars@.take(index + 1).drop_last() =~= chars@.take(index as int));
            assert(chars@.take(index + 1).last() == chars@[index as int]);
        }
        if chars[index] == '\n' {
            push_line_name(&mut names, &line);
            line = Vec::new();
        } else {
            line.push(chars[index]);
        }
        index += 1;
    }
    assert(chars@.take(index as int) =~= chars@);
    push_line_name(&mut names, &line);
    sorted_names(&names)
}

/// The names of slices, in order.
pub open spec fn slice_names(slices: Seq<TensorSliceModel>) -> Seq<Seq<char>> {
    slices.map_values(|slice: TensorSliceModel| slice.name)
}

fn name_set(slices: &[TensorSlice]) -> (r: Vec<String>)
    ensures
        crate::names::ascending(crate::model::texts(r@)),
        crate::names::same_names(
            crate::model::texts(r@),
            slice_names(crate::model::views(slices@)),
        ),
{
    let ghost models = crate::model::views(slices@);
    let mut names: Vec<String> = Vec::new();
    let mut index: usize = 0;
    while index < slices.len()
        invariant
            index <= slices@.len(),
            models == crate::model::views(slices@),
            names@.len() == index,
            crate::model::texts(names@) == slice_names(models.take(index as int)),
        decreases slices.len() - index,
    {
        let ghost before = names@;
        names.push(slices[index].name.clone());
        index += 1;
        assert(crate::model::texts(names@) =~= crate::model::texts(before).push(
            models[index - 1].name,
        ));
        assert(crate::model::texts(names@) =~= slice_names(models.take(index as int)));
    }
    assert(models.take(index as int) =~= models);
    sorted_names(&names)
}

fn same_list(a: &[String], b: &[String]) -> (r: bool)
    ensures
        r == (crate::model::texts(a@) == crate::model::texts(b@)),
{
    let ghost left = crate::model::texts(a@);
    let ghost right = crate::model::texts(b@);
    if a.len() != b.len() {
        assert(left.len() != right.len());
        return false;
    }
    let mut index: usize = 0;
    while index < a.len()
        invariant
            index <= a@.len(),
            a@.len() == b@.len(),
            left == crate::model::texts(a@),
            right == crate::model::texts(b@),
            forall|i: int| 0 <= i < index ==> #[trigger] left[i] == right[i],
        decreases a.len() - index,
    {
        if a[index] != b[index] {
            assert(left[index as int] != right[index as int]);
            return false;
        }
        index += 1;
    }
    assert(left =~= right);
    true
}

impl RuntimeTensorList {
    fn same(&self, other: &RuntimeTensorList) -> (r: bool)
        ensures
            r == (self@ == other@),
    {
        same_list(&self.tensor_names, &other.tensor_names) && self.total_bytes == other.total_bytes
    }
}

impl StageRuntimePlan {
    /// Whether two plans say the same.
    pub fn same(&self, other: &StageRuntimePlan) -> (r: bool)
        ensures
            r == (self@ == other@),
    {
        self.stage_index == other.stage_index && self.role == other.role && self.required.same(
            &other.required,
        ) && self.optional.same(&other.optional)
    }
}

impl LoadedRuntimeStageModel {
    /// What is wrong with a stage's manifest and the plan in its own file, given the plan in the
    /// model's manifest.
    pub open spec fn manifest_fault(
        runtime: StageRuntimePlanModel,
        manifest: StageManifest,
        file_runtime: StageRuntimePlanModel,
        manifest_path: Seq<char>,
        runtime_path: Seq<char>,
    ) -> Option<Seq<char>> {
        if manifest.stage_index != runtime.stage_index {
            Some(
                "Stage manifest "@ + manifest_path + " does not match runtime stage index "@
                    + stage_number(runtime.stage_index),
            )
        } else if file_runtime != runtime {
            Some(
                "Runtime plan file "@ + runtime_path
                    + " does not match top-level manifest for stage "@ + stage_number(
                    runtime.stage_index,
                ),
            )
        } else {
            None
        }
    }

    /// What is wrong with a stage's tensor lists and slices, given its plan.
    pub open spec fn list_fault(
        runtime: StageRuntimePlanModel,
        required: Seq<Seq<char>>,
        optional: Seq<Seq<char>>,
        required_slices: Seq<TensorSliceModel>,
        optional_slices: Seq<TensorSliceModel>,
        required_path: Seq<char>,
        optional_path: Seq<char>,
        slices_path: Seq<char>,
    ) -> Option<Seq<char>> {
        if !crate::names::same_names(required, runtime.required.tensor_names) {
            Some(
                "Required runtime tensor list "@ + required_path
                    + " does not match manifest for stage "@ + stage_number(runtime.stage_index),
            )
        } else if !crate::names::same_names(optional, runtime.optional.tensor_names) {
            Some(
                "Optional runtime tensor list "@ + optional_path
                    + " does not match manifest for stage "@ + stage_number(runtime.stage_index),
            )
        } else if !crate::names::same_names(
            slice_names(required_slices),
            runtime.required.tensor_names,
        ) || !crate::names::same_names(
            slice_names(optional_slices),
            runtime.optional.tensor_names,
        ) {
            Some(
                "Slice manifest "@ + slices_path + " does not match runtime tensor lists for stage "@
                    + stage_number(runtime.stage_index),
            )
        } else {
            None
        }
    }
}

impl LoadedRuntimeStage {
    /// Checks a stage's manifest and the plan in its own file against the plan in the model's
    /// manifest.
    pub fn check_manifests(
        runtime: &StageRuntimePlan,
        manifest: &StageManifest,
        file_runtime: &StageRuntimePlan,
        paths: &StageFiles,
    ) -> (r: Result<(), StageError>)
        ensures
            crate::model::failure(r) == LoadedRuntimeStageModel::manifest_fault(
                runtime@,
                *manifest,
                file_runtime@,
                paths.manifest@,
                paths.runtime@,
            ),
    {
        if manifest.stage_index != runtime.stage_index {
            return fail_with(
                "Stage manifest ".to_owned().concat(paths.manifest.as_str()).concat(
                    " does not match runtime stage index ",
                ).concat(numbered(runtime.stage_index).as_str()),
            );
        }
        if !file_runtime.same(runtime) {
            return fail_with(
                "Runtime plan file ".to_owned().concat(paths.runtime.as_str()).concat(
                    " does not match top-level manifest for stage ",
                ).concat(numbered(runtime.stage_index).as_str()),
            );
        }
        Ok(())
    }

    /// A stage from its plan, manifest, tensor lists and slices. Both lists and the slices must
    /// name the tensors that the plan names.
    pub fn from_files(
        runtime: &StageRuntimePlan,
        manifest: &StageManifest,
        required_text: &str,
        optional_text: &str,
        slices: StageRuntimeSliceManifest,
        paths: &StageFiles,
    ) -> (r: Result<Self, StageError>)
        ensures
            crate::model::failure(r) == LoadedRuntimeStageModel::list_fault(
                runtime@,
                listed_names(required_text@),
                listed_names(optional_text@),
                crate::model::views(slices.required@),
                crate::model::views(slices.optional@),
                paths.required@,
                paths.optional@,
                paths.slices@,
            ),
            r matches Ok(stage) ==> {
                &&& stage.stage_index == runtime.stage_index
                &&& stage.start_layer == manifest.start_layer
                &&& stage.end_layer == manifest.end_layer
                &&& stage@.role == runtime@.role
                &&& crate::names::ascending(stage@.required)
                &&& crate::names::same_names(stage@.required, listed_names(required_text@))
                &&& crate::names::ascending(stage@.optional)
                &&& crate::names::same_names(stage@.optional, listed_names(optional_text@))
                &&& stage.required_bytes == runtime.required.total_bytes
                &&& stage.optional_bytes == runtime.optional.total_bytes
                &&& stage@.required_slices == crate::model::views(slices.required@)
                &&& stage@.optional_slices == crate::model::views(slices.optional@)
            },
    {
        let required = read_tensor_set(required_text);
        let optional = read_tensor_set(optional_text);
        let expected_required = sorted_names(&runtime.required.tensor_names);
        let expected_optional = sorted_names(&runtime.optional.tensor_names);
        let slice_required = name_set(&slices.required);
        let slice_optional = name_set(&slices.optional);
        proof {
            lemma_same_through(
                crate::model::texts(required@),
                listed_names(required_text@),
                crate::model::texts(expected_required@),
                runtime@.required.tensor_names,
            );
            lemma_same_through(
                crate::model::texts(optional@),
                listed_names(optional_text@),
                crate::model::texts(expected_optional@),
                runtime@.optional.tensor_names,
            );
            lemma_same_through(
                crate::model::texts(slice_required@),
                slice_names(crate::model::views(slices.required@)),
                crate::model::texts(expected_required@),
                runtime@.required.tensor_names,
            );
            lemma_same_through(
                crate::model::texts(slice_optional@),
                slice_names(crate::model::views(slices.optional@)),
                crate::model::texts(expected_optional@),
                runtime@.optional.tensor_names,
            );
        }
        if !equal_names(&required, &expected_required) {
            return fail_with(
                "Required runtime tensor list ".to_owned().concat(paths.required.as_str()).concat(
                    " does not match manifest for stage ",
                ).concat(numbered(runtime.stage_index).as_str()),
            );
        }
        if !equal_names(&optional, &expected_optional) {
            return fail_with(
                "Optional runtime tensor list ".to_owned().concat(paths.optional.as_str()).concat(
                    " does not match manifest for stage ",
                ).concat(numbered(runtime.stage_index).as_str()),
            );
        }
        if !equal_names(&slice_required, &expected_required) || !equal_names(
            &slice_optional,
            &expected_optional,
        ) {
            return fail_with(
                "Slice manifest ".to_owned().concat(paths.slices.as_str()).concat(
                    " does not match runtime tensor lists for stage ",
                ).concat(numbered(runtime.stage_index).as_str()),
            );
        }
        Ok(
            LoadedRuntimeStage {
                stage_index: runtime.stage_index,
                start_layer: manifest.start_layer,
                end_layer: manifest.end_layer,
                role: runtime.role.clone(),
                required,
                optional,
                required_bytes: runtime.required.total_bytes,
                optional_bytes: runtime.optional.total_bytes,
                required_slices: slices.required,
                optional_slices: slices.optional,
            },
        )
    }
}

proof fn lemma_same_through(
    a: Seq<Seq<char>>,
    x: Seq<Seq<char>>,
    b: Seq<Seq<char>>,
    y: Seq<Seq<char>>,
)
    requires
        crate::names::same_names(a, x),
        crate::names::same_names(b, y),
    ensures
        crate::names::same_names(a, b) == crate::names::same_names(x, y),
{
    if crate::names::same_names(a, b) {
        assert forall|name: Seq<char>| #[trigger] x.contains(name) <==> y.contains(name) by {
            assert(a.contains(name) <==> x.contains(name));
            assert(b.contains(name) <==> y.contains(name));
            assert(a.contains(name) <==> b.contains(name));
        }
    }
    if crate::names::same_names(x, y) {
        assert forall|name: Seq<char>| #[trigger] a.contains(name) <==> b.contains(name) by {
            assert(a.contains(name) <==> x.contains(name));
            assert(b.contains(name) <==> y.contains(name));
            assert(x.contains(name) <==> y.contains(name));
        }
    }
}

impl LoadedRuntimeBundleModel {
    /// The first name that the model file does not hold.
    pub open spec fn first_missing(
        names: Seq<Seq<char>>,
        known: Seq<Seq<char>>,
    ) -> Option<Seq<char>>
        decreases names.len(),
    {
        if names.len() == 0 {
            None
        } else if !known.contains(names[0]) {
            Some(names[0])
        } else {
            Self::first_missing(names.drop_first(), known)
        }
    }

    /// What is wrong with the stages, given the tensors of the model file: the first tensor, the
    /// required ones of a stage before its optional ones, that the file does not hold.
    pub open spec fn missing_fault(
        stages: Seq<LoadedRuntimeStageModel>,
        known: Seq<Seq<char>>,
    ) -> Option<Seq<char>>
        decreases stages.len(),
    {
        if stages.len() == 0 {
            None
        } else {
            match Self::first_missing(stages[0].required + stages[0].optional, known) {
                Some(name) => Some(
                    "Stage "@ + stage_number(stages[0].stage_index) + " references tensor "@ + name
                        + " which is not present in GGUF"@,
                ),
                None => Self::missing_fault(stages.drop_first(), known),
            }
        }
    }

    /// The first stage with the given index.
    pub open spec fn first_stage(
        stages: Seq<LoadedRuntimeStageModel>,
        stage_index: u32,
    ) -> Option<LoadedRuntimeStageModel>
        decreases stages.len(),
    {
        if stages.len() == 0 {
            None
        } else if stages[0].stage_index == stage_index {
            Some(stages[0])
        } else {
            Self::first_stage(stages.drop_first(), stage_index)
        }
    }
}

fn find_missing(names: &[String], known: &[String]) -> (r: Option<usize>)
    ensures
        match r {
            Some(index) => index < names@.len() && LoadedRuntimeBundleModel::first_missing(
                crate::model::texts(names@),
                crate::model::texts(known@),
            ) == Some(names@[index as int]@),
            None => LoadedRuntimeBundleModel::first_missing(
                crate::model::texts(names@),
                crate::model::texts(known@),
            ) is None,
        },
{
    let ghost texts = crate::model::texts(names@);
    let ghost held = crate::model::texts(known@);
    let mut index: usize = 0;
    assert(texts.skip(0) =~= texts);
    while index < names.len()
        invariant
            index <= names@.len(),
            texts == crate::model::texts(names@),
            held == crate::model::texts(known@),
            LoadedRuntimeBundleModel::first_missing(texts, held)
                == LoadedRuntimeBundleModel::first_missing(texts.skip(index as int), held),
        decreases names.len() - index,
    {
        assert(texts.skip(index as int)[0] == names@[index as int]@);
        if !holds_name(known, names[index].as_str()) {
            return Some(index);
        }
        assert(texts.skip(index as int).drop_first() =~= texts.skip(index + 1));
        index += 1;
    }
    None
}

proof fn lemma_first_missing_joined(
    a: Seq<Seq<char>>,
    b: Seq<Seq<char>>,
    known: Seq<Seq<char>>,
)
    ensures
        LoadedRuntimeBundleModel::first_missing(a + b, known) == (
        match LoadedRuntimeBundleModel::first_missing(a, known) {
            Some(name) => Some(name),
            None => LoadedRuntimeBundleModel::first_missing(b, known),
        }),
    decreases a.len(),
{
    if a.len() == 0 {
        assert(a + b =~= b);
    } else {
        assert((a + b).drop_first() =~= a.drop_first() + b);
        lemma_first_missing_joined(a.drop_first(), b, known);
    }
}

impl LoadedRuntimeBundle {
    /// Checks that the model file, which holds tensors with the given names, has every tensor
    /// that the stages speak of.
    pub fn validate_against_gguf(&self, tensor_names: &[String]) -> (r: Result<(), StageError>)
        ensures
            crate::model::failure(r) == LoadedRuntimeBundleModel::missing_fault(
                self@.stages,
                crate::model::texts(tensor_names@),
            ),
    {
        let ghost models = self@.stages;
        let ghost known = crate::model::texts(tensor_names@);
        let mut index: usize = 0;
        assert(models.skip(0) =~= models);
        while index < self.stages.len()
            invariant
                index <= models.len(),
                models == crate::model::views(self.stages@),
                known == crate::model::texts(tensor_names@),
                LoadedRuntimeBundleModel::missing_fault(models, known)
                    == LoadedRuntimeBundleModel::missing_fault(models.skip(index as int), known),
            decreases self.stages.len() - index,
        {
            let stage = &self.stages[index];
            proof {
                assert(models.skip(index as int)[0] == stage@);
                lemma_first_missing_joined(stage@.required, stage@.optional, known);
                assert(models.skip(index as int).drop_first() =~= models.skip(index + 1));
            }
            let name = match find_missing(&stage.required, tensor_names) {
                Some(at) => Some(&stage.required[at]),
                None => match find_missing(&stage.optional, tensor_names) {
                    Some(at) => Some(&stage.optional[at]),
                    None => None,
                },
            };
            if let Some(name) = name {
                return fail_with(
                    "Stage ".to_owned().concat(numbered(stage.stage_index).as_str()).concat(
                        " references tensor ",
                    ).concat(name.as_str()).concat(" which is not present in GGUF"),
                );
            }
            index += 1;
        }
        Ok(())
    }

    /// The first stage with the given index.
    pub fn stage(&self, stage_index: u32) -> (r: Option<&LoadedRuntimeStage>)
        ensures
            match r {
                Some(stage) => LoadedRuntimeBundleModel::first_stage(self@.stages, stage_index)
                    == Some(stage@),
                None => LoadedRuntimeBundleModel::first_stage(self@.stages, stage_index) is None,
            },
    {
        let ghost models = self@.stages;
        let mut index: usize = 0;
        assert(models.skip(0) =~= models);
        while index < self.stages.len()
            invariant
                index <= models.len(),
                models == crate::model::views(self.stages@),
                models == self@.stages,
                LoadedRuntimeBundleModel::first_stage(models, stage_index)
                    == LoadedRuntimeBundleModel::first_stage(
                    models.skip(index as int),
                    stage_index,
                ),
            decreases self.stages.len() - index,
        {
            assert(models.skip(index as int)[0] == self.stages@[index as int]@);
            if self.stages[index].stage_index == stage_index {
                return Some(&self.stages[index]);
            }
            assert(models.skip(index as int).drop_first() =~= models.skip(index + 1));
            index += 1;
        }
        None
    }
}

impl LoadedRuntimeStageModel {
    /// The first slice with the given name.
    pub open spec fn first_slice(slices: Seq<TensorSliceModel>, name: Seq<char>) -> Option<
        TensorSliceModel,
    >
        decreases slices.len(),
    {
        if slices.len() == 0 {
            None
        } else if slices[0].name == name {
            Some(slices[0])
        } else {
            Self::first_slice(slices.drop_first(), name)
        }
    }

    /// The contents of slices of a model file, one behind the other; none where one of them
    /// reaches past the end of the file.
    pub open spec fn contents(slices: Seq<TensorSliceModel>, file: Seq<u8>) -> Option<Seq<u8>>
        decreases slices.len(),
    {
        if slices.len() == 0 {
            Some(Seq::empty())
        } else {
            let last = slices.last();
            match (
                Self::contents(slices.drop_last(), file),
                crate::packed::section(file, last.file_offset, last.byte_len),
            ) {
                (Some(front), Some(part)) => Some(front + part),
                _ => None,
            }
        }
    }
}

fn find_slice<'a>(slices: &'a [TensorSlice], name: &str) -> (r: Option<&'a TensorSlice>)
    ensures
        match r {
            Some(slice) => LoadedRuntimeStageModel::first_slice(
                crate::model::views(slices@),
                name@,
            ) == Some(slice@),
            None => LoadedRuntimeStageModel::first_slice(
                crate::model::views(slices@),
                name@,
            ) is None,
        },
{
    let ghost models = crate::model::views(slices@);
    let mut index: usize = 0;
    assert(models.skip(0) =~= models);
    while index < slices.len()
        invariant
            index <= slices@.len(),
            models == crate::model::views(slices@),
            LoadedRuntimeStageModel::first_slice(models, name@)
                == LoadedRuntimeStageModel::first_slice(models.skip(index as int), name@),
        decreases slices.len() - index,
    {
        assert(models.skip(index as int)[0] == slices@[index as int]@);
        if same_text(slices[index].name.as_str(), name) {
            return Some(&slices[index]);
        }
        assert(models.skip(index as int).drop_first() =~= models.skip(index + 1));
        index += 1;
    }
    None
}

fn read_slices(slices: &[TensorSlice], file: &[u8]) -> (r: Result<Vec<u8>, StageError>)
    ensures
        match LoadedRuntimeStageModel::contents(crate::model::views(slices@), file@) {
            Some(contents) => r matches Ok(out) && out@ == contents,
            None => crate::model::failure(r) == Some("failed to fill whole buffer"@),
        },
{
    let ghost models = crate::model::views(slices@);
    let mut out: Vec<u8> = Vec::new();
    let mut index: usize = 0;
    assert(models.take(0) =~= Seq::empty());
    while index < slices.len()
        invariant
            index <= slices@.len(),
            models == crate::model::views(slices@),
            LoadedRuntimeStageModel::contents(models.take(index as int), file@) == Some(out@),
        decreases slices.len() - index,
    {
        proof {
            assert(models.take(index + 1).drop_last() =~= models.take(index as int));
            assert(models.take(index + 1).last() == slices@[index as int]@);
        }
        match read_section(file, slices[index].file_offset, slices[index].byte_len) {
            Ok(part) => {
                let ghost before = out@;
                out.extend_from_slice(&part);
                assert(out@ =~= before + part@);
            },
            Err(error) => {
                proof {
                    lemma_contents_need_each(models, file@, index + 1);
                }
                return Err(error);
            },
        }
        index += 1;
    }
    assert(models.take(index as int) =~= models);
    Ok(out)
}

proof fn lemma_contents_need_each(slices: Seq<TensorSliceModel>, file: Seq<u8>, count: int)
    requires
        0 <= count <= slices.len(),
        LoadedRuntimeStageModel::contents(slices.take(count), file) is None,
    ensures
        LoadedRuntimeStageModel::contents(slices, file) is None,
    decreases slices.len() - count,
{
    if count == slices.len() {
        assert(slices.take(count) =~= slices);
    } else {
        assert(slices.take(count + 1).drop_last() =~= slices.take(count));
        lemma_contents_need_each(slices, file, count + 1);
    }
}

/// The name of the file that a tensor is written to: each character but letters, digits, `-` and
/// `_` of ASCII becomes `_`.
pub open spec fn file_char(ch: char) -> char {
    if ('a' <= ch && ch <= 'z') || ('A' <= ch && ch <= 'Z') || ('0' <= ch && ch <= '9') || ch == '-'
        || ch == '_' {
        ch
    } else {
        '_'
    }
}

/// The name of the file that a tensor is written to.
pub fn sanitize_tensor_filename(name: &str) -> (r: String)
    ensures
        r@ == name@.map_values(|ch: char| file_char(ch)),
{
    let chars = chars_of(name);
    let mut out: Vec<char> = Vec::new();
    let mut index: usize = 0;
    while index < chars.len()
        invariant
            index <= chars@.len(),
            out@ == chars@.take(index as int).map_values(|ch: char| file_char(ch)),
        decreases chars.len() - index,
    {
        let ch: char = chars[index];
        let safe: char = if ('a' <= ch && ch <= 'z') || ('A' <= ch && ch <= 'Z') || ('0' <= ch && ch
            <= '9') || ch == '-' || ch == '_' {
            ch
        } else {
            '_'
        };
        out.push(safe);
        index += 1;
        assert(out@ =~= chars@.take(index as int).map_values(|ch: char| file_char(ch)));
    }
    assert(chars@.take(index as int) =~= chars@);
    text_of(&out)
}

impl StageResidencyAdapter {
    /// The adapter of one stage of a bundle. Every tensor of the bundle must be in the model
    /// file, and the stage in the bundle.
    pub fn from_parts(
        bundle: LoadedRuntimeBundle,
        gguf_path: String,
        gguf_tensors: Vec<String>,
        stage_index: u32,
    ) -> (r: Result<Self, StageError>)
        ensures
            match LoadedRuntimeBundleModel::missing_fault(
                bundle@.stages,
                crate::model::texts(gguf_tensors@),
            ) {
                Some(fault) => crate::model::failure(r) == Some(fault),
                None => match LoadedRuntimeBundleModel::first_stage(bundle@.stages, stage_index) {
                    Some(stage) => r matches Ok(adapter) && adapter.bundle == bundle
                        && adapter.gguf_path == gguf_path && adapter.gguf_tensors == gguf_tensors
                        && adapter.stage@ == stage,
                    None => crate::model::failure(r) == Some(
                        "Stage "@ + stage_number(stage_index) + " not found in runtime bundle"@,
                    ),
                },
            },
    {
        if let Err(error) = bundle.validate_against_gguf(&gguf_tensors) {
            return Err(error);
        }
        let stage = match bundle.stage(stage_index) {
            Some(stage) => stage.clone(),
            None => return fail_with(
                "Stage ".to_owned().concat(numbered(stage_index).as_str()).concat(
                    " not found in runtime bundle",
                ),
            ),
        };
        Ok(StageResidencyAdapter { bundle, gguf_path, gguf_tensors, stage })
    }

    /// The index of the stage.
    pub fn stage_index(&self) -> (r: u32)
        ensures
            r == self.stage.stage_index,
    {
        self.stage.stage_index
    }

    /// The first layer of the stage.
    pub fn start_layer(&self) -> (r: u32)
        ensures
            r == self.stage.start_layer,
    {
        self.stage.start_layer
    }

    /// The last layer of the stage.
    pub fn end_layer(&self) -> (r: u32)
        ensures
            r == self.stage.end_layer,
    {
        self.stage.end_layer
    }

    /// The role of the stage.
    pub fn stage_role(&self) -> (r: &str)
        ensures
            r@ == self.stage@.role,
    {
        self.stage.role.as_str()
    }

    /// The name of the directory that a stage is packed into.
    pub fn default_required_pack_dir_name(&self) -> (r: String)
        ensures
            r@ == "packed-stage-"@ + crate::text::dec(self.stage.start_layer as nat) + "-"@
                + crate::text::dec(self.stage.end_layer as nat),
    {
        "packed-stage-".to_owned().concat(decimal(self.start_layer() as u64).as_str()).concat(
            "-",
        ).concat(decimal(self.end_layer() as u64).as_str())
    }

    /// The name of the directory that a stage's tensors are written to one by one.
    pub fn default_materialized_dir_name(&self) -> (r: String)
        ensures
            r@ == "materialized-stage-"@ + crate::text::dec(self.stage.start_layer as nat) + "-"@
                + crate::text::dec(self.stage.end_layer as nat),
    {
        "materialized-stage-".to_owned().concat(decimal(self.start_layer() as u64).as_str()).concat(
            "-",
        ).concat(decimal(self.end_layer() as u64).as_str())
    }

    /// Where a tensor that the stage requires stands in the model file.
    pub fn required_slice(&self, tensor_name: &str) -> (r: Result<&TensorSlice, StageError>)
        ensures
            match LoadedRuntimeStageModel::first_slice(
                self.stage@.required_slices,
                tensor_name@,
            ) {
                Some(slice) => r matches Ok(found) && found@ == slice,
                None => crate::model::failure(r) == Some(
                    "Tensor "@ + tensor_name@ + " is not required for this stage"@,
                ),
            },
    {
        match find_slice(&self.stage.required_slices, tensor_name) {
            Some(slice) => Ok(slice),
            None => fail_with(
                "Tensor ".to_owned().concat(tensor_name).concat(" is not required for this stage"),
            ),
        }
    }

    /// Where a tensor that the stage may use stands in the model file.
    pub fn optional_slice(&self, tensor_name: &str) -> (r: Result<&TensorSlice, StageError>)
        ensures
            match LoadedRuntimeStageModel::first_slice(
                self.stage@.optional_slices,
                tensor_name@,
            ) {
                Some(slice) => r matches Ok(found) && found@ == slice,
                None => crate::model::failure(r) == Some(
                    "Tensor "@ + tensor_name@ + " is not optional for this stage"@,
                ),
            },
    {
        match find_slice(&self.stage.optional_slices, tensor_name) {
            Some(slice) => Ok(slice),
            None => fail_with(
                "Tensor ".to_owned().concat(tensor_name).concat(" is not optional for this stage"),
            ),
        }
    }

    /// The bytes of a tensor that the stage requires, out of the model file.
    pub fn read_required_tensor(&self, tensor_name: &str, file: &[u8]) -> (r: Result<
        Vec<u8>,
        StageError,
    >)
        ensures
            match LoadedRuntimeStageModel::first_slice(
                self.stage@.required_slices,
                tensor_name@,
            ) {
                Some(slice) => match crate::packed::section(
                    file@,
                    slice.file_offset,
                    slice.byte_len,
                ) {
                    Some(part) => r matches Ok(out) && out@ == part,
                    None => crate::model::failure(r) == Some("failed to fill whole buffer"@),
                },
                None => crate::model::failure(r) == Some(
                    "Tensor "@ + tensor_name@ + " is not required for this stage"@,
                ),
            },
    {
        match self.required_slice(tensor_name) {
            Ok(slice) => read_section(file, slice.file_offset, slice.byte_len),
            Err(error) => Err(error),
        }
    }

    /// The bytes of a tensor that the stage may use, out of the model file.
    pub fn read_optional_tensor(&self, tensor_name: &str, file: &[u8]) -> (r: Result<
        Vec<u8>,
        StageError,
    >)
        ensures
            match LoadedRuntimeStageModel::first_slice(
                self.stage@.optional_slices,
                tensor_name@,
            ) {
                Some(slice) => match crate::packed::section(
                    file@,
                    slice.file_offset,
                    slice.byte_len,
                ) {
                    Some(part) => r matches Ok(out) && out@ == part,
                    None => crate::model::failure(r) == Some("failed to fill whole buffer"@),
                },
                None => crate::model::failure(r) == Some(
                    "Tensor "@ + tensor_name@ + " is not optional for this stage"@,
                ),
            },
    {
        match self.optional_slice(tensor_name) {
            Ok(slice) => read_section(file, slice.file_offset, slice.byte_len),
            Err(error) => Err(error),
        }
    }

    /// The file names that the tensors a stage requires are written under, with their contents.
    pub fn materialize_required_tensors(&self, file: &[u8]) -> (r: Result<
        Vec<(String, Vec<u8>)>,
        StageError,
    >)
        ensures
            match r {
                Ok(out) => {
                    &&& out@.len() == self.stage@.required_slices.len()
                    &&& forall|i: int|
                        0 <= i < out@.len() ==> {
                            &&& (#[trigger] out@[i]).0@
                                == self.stage@.required_slices[i].name.map_values(
                                |ch: char| file_char(ch),
                            )
                            &&& crate::packed::section(
                                file@,
                                self.stage@.required_slices[i].file_offset,
                                self.stage@.required_slices[i].byte_len,
                            ) == Some(out@[i].1@)
                        }
                },
                Err(error) => {
                    &&& error@ == "failed to fill whole buffer"@
                    &&& exists|i: int|
                        0 <= i < self.stage@.required_slices.len() && crate::packed::section(
                            file@,
                            (#[trigger] self.stage@.required_slices[i]).file_offset,
                            self.stage@.required_slices[i].byte_len,
                        ) is None
                },
            },
    {
        let mut out: Vec<(String, Vec<u8>)> = Vec::new();
        let mut index: usize = 0;
        while index < self.stage.required_slices.len()
            invariant
                index <= self.stage.required_slices@.len(),
                out@.len() == index,
                forall|i: int|
                    0 <= i < index ==> {
                        &&& (#[trigger] out@[i]).0@
                            == self.stage@.required_slices[i].name.map_values(
                            |ch: char| file_char(ch),
                        )
                        &&& crate::packed::section(
                            file@,
                            self.stage@.required_slices[i].file_offset,
                            self.stage@.required_slices[i].byte_len,
                        ) == Some(out@[i].1@)
                    },
            decreases self.stage.required_slices.len() - index,
        {
            let slice = &self.stage.required_slices[index];
            assert(self.stage@.required_slices[index as int] == slice@);
            match read_section(file, slice.file_offset, slice.byte_len) {
                Ok(bytes) => {
                    out.push((sanitize_tensor_filename(slice.name.as_str()), bytes));
                },
                Err(error) => {
                    return Err(error);
                },
            }
            index += 1;
        }
        Ok(out)
    }

    /// The names of a stage's pack and index file.
    pub fn pack_file_names(&self) -> (r: (String, String))
        ensures
            r.0@ == "stage-"@ + stage_number(self.stage.stage_index) + "-required.pack"@,
            r.1@ == "stage-"@ + stage_number(self.stage.stage_index) + "-required.index.json"@,
    {
        let number = numbered(self.stage.stage_index);
        (
            "stage-".to_owned().concat(number.as_str()).concat("-required.pack"),
            "stage-".to_owned().concat(number.as_str()).concat("-required.index.json"),
        )
    }

    /// The index of a pack of the given slices.
    pub open spec fn index_of(self, slices: Seq<TensorSliceModel>) -> PackedStageIndexModel {
        PackedStageIndexModel {
            model_name: self.bundle@.model_name,
            architecture: self.bundle@.architecture,
            stage_index: self.stage.stage_index,
            role: self.stage@.role,
            total_bytes: crate::packed::total_length(slices) as u64,
            tensor_count: slices.len() as usize,
            tensors: crate::packed::packed_entries(slices),
        }
    }

    fn index_for(&self, slices: &[TensorSlice]) -> (r: PackedStageIndex)
        requires
            crate::packed::total_length(crate::model::views(slices@)) <= u64::MAX,
        ensures
            r@ == self.index_of(crate::model::views(slices@)),
    {
        let (tensors, total_bytes) = pack_entries(slices);
        let tensor_count: usize = tensors.len();
        assert(tensors@.len() == crate::model::views(tensors@).len());
        PackedStageIndex {
            model_name: self.bundle.model_name.clone(),
            architecture: self.bundle.architecture.clone(),
            stage_index: self.stage.stage_index,
            role: self.stage.role.clone(),
            total_bytes,
            tensor_count,
            tensors,
        }
    }

    /// All slices of the stage: the required ones, then the optional ones.
    pub fn all_slices(&self) -> (r: Vec<TensorSlice>)
        ensures
            crate::model::views(r@) == self.stage@.required_slices + self.stage@.optional_slices,
    {
        let mut slices = clone_slices(&self.stage.required_slices);
        let mut more = clone_slices(&self.stage.optional_slices);
        let ghost front = slices@;
        let ghost back = more@;
        slices.append(&mut more);
        proof {
            assert(crate::model::views(slices@) =~= crate::model::views(front)
                + crate::model::views(back));
        }
        slices
    }

    /// The index of the pack of the required tensors.
    pub fn required_pack_index(&self) -> (r: PackedStageIndex)
        requires
            crate::packed::total_length(self.stage@.required_slices) <= u64::MAX,
        ensures
            r@ == self.index_of(self.stage@.required_slices),
    {
        self.index_for(&self.stage.required_slices)
    }

    /// The index of the pack of all tensors.
    pub fn full_pack_index(&self) -> (r: PackedStageIndex)
        requires
            crate::packed::total_length(self.stage@.required_slices + self.stage@.optional_slices)
                <= u64::MAX,
        ensures
            r@ == self.index_of(self.stage@.required_slices + self.stage@.optional_slices),
    {
        let slices = self.all_slices();
        self.index_for(&slices)
    }

    /// The pack of the required tensors, out of the model file, and its index.
    pub fn pack_required_tensors(&self, file: &[u8]) -> (r: Result<
        (Vec<u8>, PackedStageIndex),
        StageError,
    >)
        ensures
            match LoadedRuntimeStageModel::contents(self.stage@.required_slices, file@) {
                Some(contents) => r matches Ok(packed) && packed.0@ == contents && packed.1@
                    == self.index_of(self.stage@.required_slices),
                None => crate::model::failure(r) == Some("failed to fill whole buffer"@),
            },
    {
        match read_slices(&self.stage.required_slices, file) {
            Ok(pack) => {
                proof {
                    lemma_contents_length(self.stage@.required_slices, file@);
                }
                let length: usize = pack.len();
                assert(length <= u64::MAX);
                Ok((pack, self.required_pack_index()))
            },
            Err(error) => Err(error),
        }
    }

    /// The pack of all tensors, out of the model file, and its index.
    pub fn pack_all_tensors(&self, file: &[u8]) -> (r: Result<
        (Vec<u8>, PackedStageIndex),
        StageError,
    >)
        ensures
            match LoadedRuntimeStageModel::contents(
                self.stage@.required_slices + self.stage@.optional_slices,
                file@,
            ) {
                Some(contents) => r matches Ok(packed) && packed.0@ == contents && packed.1@
                    == self.index_of(self.stage@.required_slices + self.stage@.optional_slices),
                None => crate::model::failure(r) == Some("failed to fill whole buffer"@),
            },
    {
        let slices = self.all_slices();
        match read_slices(&slices, file) {
            Ok(pack) => {
                proof {
                    lemma_contents_length(crate::model::views(slices@), file@);
                }
                let length: usize = pack.len();
                assert(length <= u64::MAX);
                Ok((pack, self.index_for(&slices)))
            },
            Err(error) => Err(error),
        }
    }
}

/// A pack is as long as its slices together.
pub proof fn lemma_contents_length(slices: Seq<TensorSliceModel>, file: Seq<u8>)
    requires
        LoadedRuntimeStageModel::contents(slices, file) is Some,
    ensures
        LoadedRuntimeStageModel::contents(slices, file)->0.len() == crate::packed::total_length(
            slices,
        ),
    decreases slices.len(),
{
    if slices.len() > 0 {
        lemma_contents_length(slices.drop_last(), file);
    }
}

/// Reading the tensor at `at` out of a pack gives the bytes that it has in the model file.
pub proof fn lemma_pack_keeps_each_tensor(slices: Seq<TensorSliceModel>, file: Seq<u8>, at: int)
    requires
        LoadedRuntimeStageModel::contents(slices, file) is Some,
        crate::packed::total_length(slices) <= u64::MAX,
        0 <= at < slices.len(),
    ensures
        crate::packed::section(
            LoadedRuntimeStageModel::contents(slices, file)->0,
            crate::packed::packed_entries(slices)[at].pack_offset,
            crate::packed::packed_entries(slices)[at].byte_len,
        ) == crate::packed::section(file, slices[at].file_offset, slices[at].byte_len),
    decreases slices.len(),
{
    let rest = slices.drop_last();
    let front = LoadedRuntimeStageModel::contents(rest, file)->0;
    let part = crate::packed::section(
        file,
        slices.last().file_offset,
        slices.last().byte_len,
    )->0;
    let pack = LoadedRuntimeStageModel::contents(slices, file)->0;
    assert(pack == front + part);
    lemma_contents_length(rest, file);
    if at == rest.len() {
        assert(slices.take(at) =~= rest);
        assert(slices[at].byte_len > 0 ==> pack.subrange(
            front.len() as int,
            (front.len() + part.len()) as int,
        ) =~= part);
        if slices[at].byte_len == 0 {
            assert(part =~= Seq::empty());
        }
    } else {
        lemma_pack_keeps_each_tensor(rest, file, at);
        assert(rest.take(at) =~= slices.take(at));
        let entry = crate::packed::packed_entries(slices)[at];
        crate::packed::lemma_prefix_is_shorter(rest, at + 1);
        assert(rest.take(at + 1).drop_last() =~= rest.take(at));
        assert(rest.take(at + 1).last() == slices[at]);
        if entry.byte_len > 0 {
            assert(pack.subrange(entry.pack_offset as int, entry.pack_offset + entry.byte_len)
                =~= front.subrange(entry.pack_offset as int, entry.pack_offset + entry.byte_len));
        }
    }
}

/// What a stage requires, reads the same from the pack as from the model file, whatever the
/// tensor's name.
pub proof fn lemma_pack_reads_as_the_model_does(
    slices: Seq<TensorSliceModel>,
    file: Seq<u8>,
    name: Seq<char>,
)
    requires
        LoadedRuntimeStageModel::contents(slices, file) is Some,
        crate::packed::total_length(slices) <= u64::MAX,
    ensures
        match PackedStageIndexModel::first_named(crate::packed::packed_entries(slices), name) {
            Some(at) => {
                &&& 0 <= at < slices.len()
                &&& LoadedRuntimeStageModel::first_slice(slices, name) == Some(slices[at])
                &&& crate::packed::section(
                    LoadedRuntimeStageModel::contents(slices, file)->0,
                    crate::packed::packed_entries(slices)[at].pack_offset,
                    crate::packed::packed_entries(slices)[at].byte_len,
                ) == crate::packed::section(file, slices[at].file_offset, slices[at].byte_len)
            },
            None => LoadedRuntimeStageModel::first_slice(slices, name) is None,
        },
{
    lemma_first_named_is_first_slice(crate::packed::packed_entries(slices), slices, name);
    if let Some(at) = PackedStageIndexModel::first_named(
        crate::packed::packed_entries(slices),
        name,
    ) {
        lemma_pack_keeps_each_tensor(slices, file, at);
    }
}

proof fn lemma_first_named_is_first_slice(
    entries: Seq<crate::packed::PackedTensorEntryModel>,
    slices: Seq<TensorSliceModel>,
    name: Seq<char>,
)
    requires
        entries.len() == slices.len(),
        forall|i: int| 0 <= i < slices.len() ==> (#[trigger] entries[i]).name == slices[i].name,
    ensures
        match PackedStageIndexModel::first_named(entries, name) {
            Some(at) => 0 <= at < slices.len() && LoadedRuntimeStageModel::first_slice(
                slices,
                name,
            ) == Some(slices[at]),
            None => LoadedRuntimeStageModel::first_slice(slices, name) is None,
        },
    decreases slices.len(),
{
    if slices.len() > 0 && entries[0].name != name {
        lemma_first_named_is_first_slice(entries.drop_first(), slices.drop_first(), name);
        if let Some(at) = PackedStageIndexModel::first_named(entries.drop_first(), name) {
            assert(slices.drop_first()[at] == slices[at + 1]);
        }
    }
}

} // verus!
