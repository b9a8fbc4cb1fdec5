//! What holds of packs and bundles: where each tensor lies, which one a name finds, and what a
//! bundle must agree on.
use vstd::prelude::*;
use vstd::string::*;
use crate::bundle::{
    LoadedRuntimeBundleModel, LoadedRuntimeStageModel, StageManifest, StageResidencyAdapter,
    StageRuntimePlanModel,
};
use crate::packed::{PackedStageIndexModel, PackedTensorEntryModel, TensorSliceModel};

verus! {

/// A pack has an entry for each slice, in order, with all that the slice tells of its tensor; the
/// first starts at the beginning, each other where the one before it ends, and the last ends where
/// the pack does.
pub proof fn lemma_entries_lie_end_to_end(slices: Seq<TensorSliceModel>, at: int)
    requires
        0 <= at < slices.len(),
        crate::packed::total_length(slices) <= u64::MAX,
    ensures
        ({
            let entries = crate::packed::packed_entries(slices);
            let entry = entries[at];
            &&& entries.len() == slices.len()
            &&& entry.name == slices[at].name
            &&& entry.byte_len == slices[at].byte_len
            &&& entry.source_file_offset == slices[at].file_offset
            &&& entry.dimensions == slices[at].dimensions
            &&& entry.ggml_type == slices[at].ggml_type
            &&& at == 0 ==> entry.pack_offset == 0
            &&& at + 1 < slices.len() ==> entries[at + 1].pack_offset == entry.pack_offset
                + entry.byte_len
            &&& at + 1 == slices.len() ==> entry.pack_offset + entry.byte_len
                == crate::packed::total_length(slices)
        }),
{
    crate::packed::lemma_prefix_is_shorter(slices, at);
    crate::packed::lemma_prefix_is_shorter(slices, at + 1);
    assert(slices.take(at + 1).drop_last() =~= slices.take(at));
    assert(slices.take(at + 1).last() == slices[at]);
    if at == 0 {
        assert(slices.take(0) =~= Seq::empty());
    }
    if at + 1 == slices.len() {
        assert(slices.take(at + 1) =~= slices);
    }
}

/// The sum of two numbers, which stops at the largest.
pub open spec fn sum_up_to_the_largest(a: u64, b: u64) -> u64 {
    if a + b > u64::MAX {
        u64::MAX
    } else {
        (a + b) as u64
    }
}

/// Whether entries lie end to end from the beginning, and end where the total says.
pub open spec fn lie_end_to_end(tensors: Seq<PackedTensorEntryModel>, total: u64) -> bool {
    &&& tensors.len() == 0 ==> total == 0
    &&& tensors.len() > 0 ==> tensors[0].pack_offset == 0
    &&& forall|i: int|
        0 < i < tensors.len() ==> (#[trigger] tensors[i]).pack_offset == sum_up_to_the_largest(
            tensors[i - 1].pack_offset,
            tensors[i - 1].byte_len,
        )
    &&& tensors.len() > 0 ==> total == sum_up_to_the_largest(
        tensors.last().pack_offset,
        tensors.last().byte_len,
    )
}

proof fn lemma_offsets_from(index: PackedStageIndexModel, from: int)
    requires
        0 <= from <= index.tensors.len(),
        from > 0 ==> index.tensors[from - 1].pack_offset == PackedStageIndexModel::expected_offset(
            index.tensors,
            from - 1,
        ),
    ensures
        index.offsets_fault(from) is None <==> {
            let tensors = index.tensors;
            &&& from == 0 && tensors.len() > 0 ==> tensors[0].pack_offset == 0
            &&& forall|i: int|
                from <= i < tensors.len() && i > 0 ==> (#[trigger] tensors[i]).pack_offset
                    == sum_up_to_the_largest(tensors[i - 1].pack_offset, tensors[i - 1].byte_len)
            &&& tensors.len() == 0 ==> index.total_bytes == 0
            &&& tensors.len() > 0 ==> index.total_bytes == sum_up_to_the_largest(
                tensors.last().pack_offset,
                tensors.last().byte_len,
            )
        },
    decreases index.tensors.len() - from,
{
    let tensors = index.tensors;
    if from < tensors.len() {
        if tensors[from].pack_offset == PackedStageIndexModel::expected_offset(tensors, from) {
            lemma_offsets_from(index, from + 1);
        } else {
            if from == 0 {
                assert(tensors[0].pack_offset != 0);
            } else {
                assert(tensors[from].pack_offset != sum_up_to_the_largest(
                    tensors[from - 1].pack_offset,
                    tensors[from - 1].byte_len,
                ));
            }
        }
    }
}

/// An index passes its check exactly where its entries lie end to end and end with the pack.
pub proof fn lemma_checked_offsets_lie_end_to_end(index: PackedStageIndexModel)
    ensures
        index.offsets_fault(0) is None <==> lie_end_to_end(index.tensors, index.total_bytes),
{
    lemma_offsets_from(index, 0);
}

/// A name finds the first entry that has it, where it is looked for from the front, and the last,
/// where it is looked for from the back; and none where no entry has it.
pub proof fn lemma_names_find_their_entries(
    tensors: Seq<PackedTensorEntryModel>,
    name: Seq<char>,
)
    ensures
        match PackedStageIndexModel::first_named(tensors, name) {
            Some(at) => 0 <= at < tensors.len() && tensors[at].name == name && forall|i: int|
                0 <= i < at ==> (#[trigger] tensors[i]).name != name,
            None => forall|i: int| 0 <= i < tensors.len() ==> (#[trigger] tensors[i]).name != name,
        },
        match PackedStageIndexModel::last_named(tensors, name) {
            Some(entry) => entry.name == name && exists|at: int|
                0 <= at < tensors.len() && #[trigger] tensors[at] == entry && forall|i: int|
                    at < i < tensors.len() ==> (#[trigger] tensors[i]).name != name,
            None => forall|i: int| 0 <= i < tensors.len() ==> (#[trigger] tensors[i]).name != name,
        },
    decreases tensors.len(),
{
    if tensors.len() > 0 {
        lemma_names_find_their_entries(tensors.drop_first(), name);
        lemma_last_of_name_is_found(tensors, name);
        if tensors[0].name != name {
            match PackedStageIndexModel::first_named(tensors.drop_first(), name) {
                Some(at) => {
                    assert(tensors[at + 1] == tensors.drop_first()[at]);
                    assert forall|i: int| 0 <= i < at + 1 implies (
                    #[trigger] tensors[i]).name != name by {
                        if i > 0 {
                            assert(tensors.drop_first()[i - 1] == tensors[i]);
                        }
                    }
                },
                None => {
                    assert forall|i: int| 0 <= i < tensors.len() implies (
                    #[trigger] tensors[i]).name != name by {
                        if i > 0 {
                            assert(tensors.drop_first()[i - 1] == tensors[i]);
                        }
                    }
                },
            }
        }
    }
}

proof fn lemma_last_of_name_is_found(tensors: Seq<PackedTensorEntryModel>, name: Seq<char>)
    ensures
        match PackedStageIndexModel::last_named(tensors, name) {
            Some(entry) => entry.name == name && exists|at: int|
                0 <= at < tensors.len() && #[trigger] tensors[at] == entry && forall|i: int|
                    at < i < tensors.len() ==> (#[trigger] tensors[i]).name != name,
            None => forall|i: int| 0 <= i < tensors.len() ==> (#[trigger] tensors[i]).name != name,
        },
    decreases tensors.len(),
{
    if tensors.len() > 0 {
        let front = tensors.drop_last();
        let last = tensors.len() - 1;
        assert(tensors[last] == tensors.last());
        if tensors.last().name != name {
            lemma_last_of_name_is_found(front, name);
            match PackedStageIndexModel::last_named(front, name) {
                Some(entry) => {
                    let at = choose|at: int|
                        0 <= at < front.len() && #[trigger] front[at] == entry && forall|i: int|
                            at < i < front.len() ==> (#[trigger] front[i]).name != name;
                    assert(tensors[at] == entry);
                    assert forall|i: int| at < i < tensors.len() implies (
                    #[trigger] tensors[i]).name != name by {
                        if i < last {
                            assert(front[i] == tensors[i]);
                        }
                    }
                },
                None => {
                    assert forall|i: int| 0 <= i < tensors.len() implies (
                    #[trigger] tensors[i]).name != name by {
                        if i < last {
                            assert(front[i] == tensors[i]);
                        }
                    }
                },
            }
        }
    }
}

/// A section of bytes is as long as was asked for and holds the bytes from its offset on; there is
/// one exactly where the bytes reach that far, and where none are asked for.
pub proof fn lemma_sections_hold_their_bytes(bytes: Seq<u8>, offset: u64, length: u64)
    ensures
        crate::packed::section(bytes, offset, length) is Some <==> length == 0 || offset + length
            <= bytes.len(),
        crate::packed::section(bytes, offset, length) is Some ==> ({
            let part = crate::packed::section(bytes, offset, length)->0;
            &&& part.len() == length
            &&& forall|i: int| 0 <= i < length ==> #[trigger] part[i] == bytes[offset + i]
        }),
{
}

/// The pack of an index lies beside it under the same name, with `.pack` in place of
/// `.index.json`; a name without that ending is no index's.
pub proof fn lemma_pack_lies_beside_its_index(stem: Seq<char>, name: Seq<char>)
    ensures
        crate::packed::pack_name(stem + ".index.json"@) == Some(stem + ".pack"@),
        crate::packed::pack_name(name) is Some ==> exists|start: Seq<char>|
            name == start + ".index.json"@ && crate::packed::pack_name(name) == Some(
                #[trigger] (start + ".pack"@),
            ),
{
    reveal_strlit(".index.json");
    let whole = stem + ".index.json"@;
    assert(whole.skip(stem.len() as int) =~= ".index.json"@);
    assert(whole.take(stem.len() as int) =~= stem);
    if crate::packed::pack_name(name) is Some {
        let cut = name.len() - 11;
        let start = name.take(cut);
        assert(name =~= start + name.skip(cut));
        assert(crate::packed::pack_name(name) == Some(start + ".pack"@));
    }
}

/// Listing names goes line by line: two texts with a line break between them list the names of the
/// first and then those of the second, and a line lists what is left of it without the space
/// around it, where something is.
pub proof fn lemma_names_are_listed_by_line(front: Seq<char>, back: Seq<char>)
    ensures
        crate::bundle::listed_names(front + seq!['\n'] + back) == crate::bundle::listed_names(front)
            + crate::bundle::listed_names(back),
        !back.contains('\n') ==> crate::bundle::listed_names(back) == (if crate::text::trim(
            back,
        ).len() > 0 {
            seq![crate::text::trim(back)]
        } else {
            Seq::empty()
        }),
{
    lemma_lines_join(front, back);
    if !back.contains('\n') {
        lemma_open_line_is_whole(back);
    }
    assert(crate::bundle::listed_names(front + seq!['\n'] + back) =~= crate::bundle::listed_names(
        front,
    ) + crate::bundle::listed_names(back));
}

proof fn lemma_lines_join(front: Seq<char>, back: Seq<char>)
    ensures
        crate::bundle::closed_names(front + seq!['\n'] + back) == crate::bundle::listed_names(front)
            + crate::bundle::closed_names(back),
        crate::bundle::open_line(front + seq!['\n'] + back) == crate::bundle::open_line(back),
    decreases back.len(),
{
    let whole = front + seq!['\n'] + back;
    if back.len() == 0 {
        assert(whole.drop_last() =~= front);
        assert(whole.last() == '\n');
        assert(crate::bundle::listed_names(front) + crate::bundle::closed_names(back)
            =~= crate::bundle::listed_names(front));
    } else {
        lemma_lines_join(front, back.drop_last());
        assert(whole.drop_last() =~= front + seq!['\n'] + back.drop_last());
        assert(whole.last() == back.last());
        assert(crate::bundle::closed_names(whole) =~= crate::bundle::listed_names(front)
            + crate::bundle::closed_names(back));
    }
}

proof fn lemma_open_line_is_whole(line: Seq<char>)
    requires
        !line.contains('\n'),
    ensures
        crate::bundle::open_line(line) == line,
        crate::bundle::closed_names(line).len() == 0,
    decreases line.len(),
{
    if line.len() > 0 {
        let front = line.drop_last();
        assert(line[line.len() - 1] != '\n') by {
            if line[line.len() - 1] == '\n' {
                assert(line.contains('\n'));
            }
        }
        assert(!front.contains('\n')) by {
            if front.contains('\n') {
                let i = choose|i: int| 0 <= i < front.len() && front[i] == '\n';
                assert(line[i] == '\n');
            }
        }
        lemma_open_line_is_whole(front);
        assert(front.push(line.last()) =~= line);
    }
}

/// A bundle refers to no missing tensor exactly where every name that one of its stages requires
/// or could use is among the known ones.
pub proof fn lemma_no_stage_misses_a_tensor(
    stages: Seq<LoadedRuntimeStageModel>,
    known: Seq<Seq<char>>,
)
    ensures
        LoadedRuntimeBundleModel::missing_fault(stages, known) is None <==> forall|i: int|
            0 <= i < stages.len() ==> all_known((#[trigger] stages[i]).required, known)
                && all_known(stages[i].optional, known),
    decreases stages.len(),
{
    if stages.len() > 0 {
        let rest = stages.drop_first();
        lemma_no_stage_misses_a_tensor(rest, known);
        let names = stages[0].required + stages[0].optional;
        lemma_first_missing(names, known);
        let fine = LoadedRuntimeBundleModel::first_missing(names, known) is None;
        if fine {
            assert(all_known(stages[0].required, known)) by {
                assert forall|i: int|
                    0 <= i < stages[0].required.len() implies known.contains(
                    #[trigger] stages[0].required[i],
                ) by {
                    assert(names[i] == stages[0].required[i]);
                }
            }
            assert(all_known(stages[0].optional, known)) by {
                assert forall|i: int|
                    0 <= i < stages[0].optional.len() implies known.contains(
                    #[trigger] stages[0].optional[i],
                ) by {
                    assert(names[stages[0].required.len() + i] == stages[0].optional[i]);
                }
            }
        }
        if all_known(stages[0].required, known) && all_known(stages[0].optional, known) {
            assert forall|i: int| 0 <= i < names.len() implies known.contains(
                #[trigger] names[i],
            ) by {
                if i < stages[0].required.len() {
                    assert(names[i] == stages[0].required[i]);
                } else {
                    assert(names[i] == stages[0].optional[i - stages[0].required.len()]);
                }
            }
        }
        if LoadedRuntimeBundleModel::missing_fault(stages, known) is None {
            assert forall|i: int| 0 <= i < stages.len() implies all_known(
                (#[trigger] stages[i]).required,
                known,
            ) && all_known(stages[i].optional, known) by {
                if i > 0 {
                    assert(rest[i - 1] == stages[i]);
                }
            }
        }
        if forall|i: int|
            0 <= i < stages.len() ==> all_known((#[trigger] stages[i]).required, known)
                && all_known(stages[i].optional, known) {
            assert(all_known(stages[0].required, known));
            assert forall|i: int| 0 <= i < rest.len() implies all_known(
                (#[trigger] rest[i]).required,
                known,
            ) && all_known(rest[i].optional, known) by {
                assert(rest[i] == stages[i + 1]);
            }
        }
    }
}

/// Whether each name is among the known ones.
pub open spec fn all_known(names: Seq<Seq<char>>, known: Seq<Seq<char>>) -> bool {
    forall|i: int| 0 <= i < names.len() ==> known.contains(#[trigger] names[i])
}

proof fn lemma_first_missing(names: Seq<Seq<char>>, known: Seq<Seq<char>>)
    ensures
        LoadedRuntimeBundleModel::first_missing(names, known) is None <==> all_known(names, known),
    decreases names.len(),
{
    if names.len() > 0 {
        let rest = names.drop_first();
        lemma_first_missing(rest, known);
        if all_known(rest, known) && known.contains(names[0]) {
            assert forall|i: int| 0 <= i < names.len() implies known.contains(
                #[trigger] names[i],
            ) by {
                if i > 0 {
                    assert(rest[i - 1] == names[i]);
                }
            }
        }
        if all_known(names, known) {
            assert(known.contains(names[0]));
            assert forall|i: int| 0 <= i < rest.len() implies known.contains(
                #[trigger] rest[i],
            ) by {
                assert(rest[i] == names[i + 1]);
            }
        }
    }
}

/// A stage is found by its number, and a slice by its name: the first that has it, and none where
/// none has it.
pub proof fn lemma_stages_and_slices_are_found(
    stages: Seq<LoadedRuntimeStageModel>,
    number: u32,
    slices: Seq<TensorSliceModel>,
    name: Seq<char>,
)
    ensures
        match LoadedRuntimeBundleModel::first_stage(stages, number) {
            Some(stage) => exists|at: int|
                0 <= at < stages.len() && #[trigger] stages[at] == stage && stage.stage_index
                    == number && forall|i: int|
                    0 <= i < at ==> (#[trigger] stages[i]).stage_index != number,
            None => forall|i: int|
                0 <= i < stages.len() ==> (#[trigger] stages[i]).stage_index != number,
        },
        match LoadedRuntimeStageModel::first_slice(slices, name) {
            Some(slice) => exists|at: int|
                0 <= at < slices.len() && #[trigger] slices[at] == slice && slice.name == name
                    && forall|i: int| 0 <= i < at ==> (#[trigger] slices[i]).name != name,
            None => forall|i: int| 0 <= i < slices.len() ==> (#[trigger] slices[i]).name != name,
        },
    decreases stages.len() + slices.len(),
{
    if stages.len() > 0 {
        let rest = stages.drop_first();
        lemma_stages_and_slices_are_found(rest, number, slices, name);
        if stages[0].stage_index == number {
            assert(stages[0] == LoadedRuntimeBundleModel::first_stage(stages, number)->0);
        } else {
            match LoadedRuntimeBundleModel::first_stage(rest, number) {
                Some(stage) => {
                    let at = choose|at: int|
                        0 <= at < rest.len() && #[trigger] rest[at] == stage && stage.stage_index
                            == number && forall|i: int|
                            0 <= i < at ==> (#[trigger] rest[i]).stage_index != number;
                    assert(stages[at + 1] == stage);
                    assert forall|i: int| 0 <= i < at + 1 implies (
                    #[trigger] stages[i]).stage_index != number by {
                        if i > 0 {
                            assert(rest[i - 1] == stages[i]);
                        }
                    }
                },
                None => {
                    assert forall|i: int| 0 <= i < stages.len() implies (
                    #[trigger] stages[i]).stage_index != number by {
                        if i > 0 {
                            assert(rest[i - 1] == stages[i]);
                        }
                    }
                },
            }
        }
    } else if slices.len() > 0 {
        let rest = slices.drop_first();
        lemma_stages_and_slices_are_found(stages, number, rest, name);
        if slices[0].name == name {
            assert(slices[0] == LoadedRuntimeStageModel::first_slice(slices, name)->0);
        } else {
            match LoadedRuntimeStageModel::first_slice(rest, name) {
                Some(slice) => {
                    let at = choose|at: int|
                        0 <= at < rest.len() && #[trigger] rest[at] == slice && slice.name == name
                            && forall|i: int| 0 <= i < at ==> (#[trigger] rest[i]).name != name;
                    assert(slices[at + 1] == slice);
                    assert forall|i: int| 0 <= i < at + 1 implies (
                    #[trigger] slices[i]).name != name by {
                        if i > 0 {
                            assert(rest[i - 1] == slices[i]);
                        }
                    }
                },
                None => {
                    assert forall|i: int| 0 <= i < slices.len() implies (
                    #[trigger] slices[i]).name != name by {
                        if i > 0 {
                            assert(rest[i - 1] == slices[i]);
                        }
                    }
                },
            }
        }
    }
}

/// Whether two lists hold the same names, in whatever order and however often.
pub open spec fn hold_the_same(a: Seq<Seq<char>>, b: Seq<Seq<char>>) -> bool {
    (forall|i: int| 0 <= i < a.len() ==> b.contains(#[trigger] a[i])) && (forall|i: int|
        0 <= i < b.len() ==> a.contains(#[trigger] b[i]))
}

proof fn lemma_same_names(a: Seq<Seq<char>>, b: Seq<Seq<char>>)
    ensures
        crate::names::same_names(a, b) <==> hold_the_same(a, b),
{
    if crate::names::same_names(a, b) {
        assert forall|i: int| 0 <= i < a.len() implies b.contains(#[trigger] a[i]) by {
            assert(a.contains(a[i]));
        }
        assert forall|i: int| 0 <= i < b.len() implies a.contains(#[trigger] b[i]) by {
            assert(b.contains(b[i]));
        }
    }
    if hold_the_same(a, b) {
        assert forall|name: Seq<char>| #[trigger] a.contains(name) <==> b.contains(name) by {
            if a.contains(name) {
                let i = choose|i: int| 0 <= i < a.len() && a[i] == name;
                assert(b.contains(a[i]));
            }
            if b.contains(name) {
                let i = choose|i: int| 0 <= i < b.len() && b[i] == name;
                assert(a.contains(b[i]));
            }
        }
    }
}

/// The files of a stage agree exactly where its manifest is of its number, its plan is the
/// bundle's, and the lists of required and of optional tensors, and their slices, name what the
/// plan names, each under its own heading.
pub proof fn lemma_files_of_a_stage_agree(
    runtime: StageRuntimePlanModel,
    manifest: StageManifest,
    file_runtime: StageRuntimePlanModel,
    paths: Seq<Seq<char>>,
    required: Seq<Seq<char>>,
    optional: Seq<Seq<char>>,
    required_slices: Seq<TensorSliceModel>,
    optional_slices: Seq<TensorSliceModel>,
)
    requires
        paths.len() == 5,
    ensures
        LoadedRuntimeStageModel::manifest_fault(
            runtime,
            manifest,
            file_runtime,
            paths[0],
            paths[1],
        ) is None <==> manifest.stage_index == runtime.stage_index && file_runtime == runtime,
        LoadedRuntimeStageModel::list_fault(
            runtime,
            required,
            optional,
            required_slices,
            optional_slices,
            paths[2],
            paths[3],
            paths[4],
        ) is None <==> {
            &&& hold_the_same(required, runtime.required.tensor_names)
            &&& hold_the_same(optional, runtime.optional.tensor_names)
            &&& hold_the_same(
                required_slices.map_values(|slice: TensorSliceModel| slice.name),
                runtime.required.tensor_names,
            )
            &&& hold_the_same(
                optional_slices.map_values(|slice: TensorSliceModel| slice.name),
                runtime.optional.tensor_names,
            )
        },
{
    lemma_same_names(required, runtime.required.tensor_names);
    lemma_same_names(optional, runtime.optional.tensor_names);
    lemma_same_names(
        required_slices.map_values(|slice: TensorSliceModel| slice.name),
        runtime.required.tensor_names,
    );
    lemma_same_names(
        optional_slices.map_values(|slice: TensorSliceModel| slice.name),
        runtime.optional.tensor_names,
    );
    assert(crate::bundle::slice_names(required_slices) =~= required_slices.map_values(
        |slice: TensorSliceModel| slice.name,
    ));
    assert(crate::bundle::slice_names(optional_slices) =~= optional_slices.map_values(
        |slice: TensorSliceModel| slice.name,
    ));
}

/// A character of a file's name is a letter, a digit, a hyphen or an underscore, which stand for
/// themselves; any other becomes an underscore.
pub proof fn lemma_file_characters(ch: char)
    ensures
        ({
            let plain = ('a' <= ch && ch <= 'z') || ('A' <= ch && ch <= 'Z') || ('0' <= ch && ch
                <= '9') || ch == '-' || ch == '_';
            crate::bundle::file_char(ch) == if plain {
                ch
            } else {
                '_'
            }
        }),
        crate::bundle::file_char(crate::bundle::file_char(ch)) == crate::bundle::file_char(ch),
{
}

/// The index of a stage's pack names its model, the stage and its role, and has as many entries as
/// there are slices.
pub proof fn lemma_index_tells_of_its_stage(
    adapter: StageResidencyAdapter,
    slices: Seq<TensorSliceModel>,
)
    requires
        crate::packed::total_length(slices) <= u64::MAX,
        slices.len() <= usize::MAX,
    ensures
        ({
            let index = adapter.index_of(slices);
            &&& index.model_name == adapter.bundle@.model_name
            &&& index.architecture == adapter.bundle@.architecture
            &&& index.stage_index == adapter.stage.stage_index
            &&& index.role == adapter.stage@.role
            &&& index.tensor_count == slices.len() && index.tensors.len() == slices.len()
            &&& index.total_bytes == crate::packed::total_length(slices)
            &&& index.offsets_fault(0) is None
        }),
{
    let index = adapter.index_of(slices);
    let tensors = index.tensors;
    lemma_checked_offsets_lie_end_to_end(index);
    if slices.len() > 0 {
        lemma_entries_lie_end_to_end(slices, 0);
        lemma_entries_lie_end_to_end(slices, slices.len() - 1);
        assert forall|i: int| 0 < i < tensors.len() implies (#[trigger] tensors[i]).pack_offset
            == sum_up_to_the_largest(tensors[i - 1].pack_offset, tensors[i - 1].byte_len) by {
            lemma_entries_lie_end_to_end(slices, i - 1);
        }
    }
}

/// A stage is numbered as people count: its number, read back, is one more than its place, so that
/// no two stages have the same.
pub proof fn lemma_stages_are_counted_from_one(stage: u32, other: u32)
    ensures
        crate::model_view::number_value(crate::bundle::stage_number(stage)) == stage + 1,
        crate::bundle::stage_number(stage) == crate::bundle::stage_number(other) <==> stage == other,
{
    crate::view_laws::lemma_decimal_round_trip((stage + 1) as nat);
    crate::view_laws::lemma_decimal_round_trip((other + 1) as nat);
}

} // verus!
