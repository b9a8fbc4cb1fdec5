//! Runtime bundles, packs and the tensors in them.
use stage_forward_lab::bundle::{
    RuntimeTensorList, StageFiles, StageManifest, StageRuntimePlan, StageRuntimeSliceManifest,
    read_tensor_set, sanitize_tensor_filename,
};
use stage_forward_lab::names::sorted_names;
use stage_forward_lab::packed::{pack_entries, read_section};
use stage_forward_lab::{
    LoadedRuntimeBundle, LoadedRuntimeStage, PackedStageArtifact, PackedStageIndex,
    PackedTensorEntry, StageResidencyAdapter, StageTensorStore, TensorSlice,
};

fn slice(name: &str, file_offset: u64, byte_len: u64) -> TensorSlice {
    TensorSlice { name: name.into(), file_offset, byte_len, dimensions: vec![1], ggml_type: 0 }
}

fn tensor_names() -> Vec<String> {
    vec!["token_embd.weight".into(), "blk.0.attn_q.weight".into(), "output_norm.weight".into()]
}

fn list(names: &[&str], total_bytes: u64) -> RuntimeTensorList {
    RuntimeTensorList {
        tensor_names: names.iter().map(|name| name.to_string()).collect(),
        total_bytes,
    }
}

/// The files of the second of two stages, where the model's last tensor ends at 300.
fn tail_files() -> (StageRuntimePlan, StageManifest, StageRuntimeSliceManifest) {
    tail_files_of(300)
}

fn tail_files_of(file_size: u64) -> (StageRuntimePlan, StageManifest, StageRuntimeSliceManifest) {
    (
        StageRuntimePlan {
            stage_index: 1,
            role: "tail".into(),
            required: list(&["output_norm.weight"], file_size - 200),
            optional: list(&["token_embd.weight"], 100),
        },
        StageManifest { stage_index: 1, start_layer: 1, end_layer: 1 },
        StageRuntimeSliceManifest {
            required: vec![slice("output_norm.weight", 200, file_size - 200)],
            optional: vec![slice("token_embd.weight", 0, 100)],
        },
    )
}

/// Two stages of a model file of three tensors, loaded from the texts of their files.
fn toy_bundle(file_size: u64) -> LoadedRuntimeBundle {
    let runtime = StageRuntimePlan {
        stage_index: 0,
        role: "head".into(),
        required: list(&["token_embd.weight", "blk.0.attn_q.weight"], 200),
        optional: list(&[], 0),
    };
    let manifest = StageManifest { stage_index: 0, start_layer: 0, end_layer: 0 };
    let slices = StageRuntimeSliceManifest {
        required: vec![
            slice("token_embd.weight", 0, 100),
            slice("blk.0.attn_q.weight", 100, 100),
        ],
        optional: Vec::new(),
    };
    let head = LoadedRuntimeStage::from_files(
        &runtime,
        &manifest,
        "token_embd.weight\nblk.0.attn_q.weight\n",
        "",
        slices,
        &StageFiles::for_stage(0),
    )
    .unwrap();
    let (runtime, manifest, slices) = tail_files_of(file_size);
    let tail = LoadedRuntimeStage::from_files(
        &runtime,
        &manifest,
        "output_norm.weight\n",
        "token_embd.weight\n",
        slices,
        &StageFiles::for_stage(1),
    )
    .unwrap();
    LoadedRuntimeBundle {
        model_name: "Toy".into(),
        architecture: "toy".into(),
        stages: vec![head, tail],
    }
}

/// A stage's pack, opened again from its bytes and its index.
fn reopen(
    adapter: &StageResidencyAdapter,
    pack: &[u8],
    index: PackedStageIndex,
) -> PackedStageArtifact {
    let (pack_name, index_name) = adapter.pack_file_names();
    assert_eq!(PackedStageArtifact::pack_file_name(Some(&index_name)).unwrap(), pack_name);
    PackedStageArtifact::from_parts(pack_name, index_name, index, Some(pack.len() as u64)).unwrap()
}

/// An index of three tensors, of which two have one name.
fn toy_index() -> PackedStageIndex {
    let entry = |name: &str, pack_offset: u64, byte_len: u64| PackedTensorEntry {
        name: name.into(),
        pack_offset,
        byte_len,
        source_file_offset: 0,
        dimensions: vec![byte_len],
        ggml_type: 0,
    };
    PackedStageIndex {
        model_name: "Toy".into(),
        architecture: "toy".into(),
        stage_index: 0,
        role: "head".into(),
        total_bytes: 5,
        tensor_count: 3,
        tensors: vec![entry("a", 0, 1), entry("b", 1, 2), entry("a", 3, 2)],
    }
}

#[test]
fn runtime_bundle_loader_roundtrips_manifest_outputs() {
    let bundle = toy_bundle(300);
    assert_eq!(bundle.model_name, "Toy");
    assert_eq!(bundle.architecture, "toy");
    assert_eq!(bundle.stages.len(), 2);
    assert_eq!(bundle.stage(0).unwrap().role, "head");
    assert_eq!(bundle.stage(1).unwrap().role, "tail");
    assert!(bundle.stage(0).unwrap().required.contains(&"token_embd.weight".to_string()));
    assert!(bundle.stage(1).unwrap().required.contains(&"output_norm.weight".to_string()));
    assert!(bundle.stage(1).unwrap().optional.contains(&"token_embd.weight".to_string()));
    assert_eq!(bundle.stage(0).unwrap().required_slices.len(), 2);
    assert_eq!(bundle.stage(1).unwrap().required_slices.len(), 1);
    assert_eq!(bundle.stage(1).unwrap().optional_slices.len(), 1);
    bundle.validate_against_gguf(&tensor_names()).unwrap();
}

#[test]
fn stage_residency_adapter_reads_required_tensor_bytes() {
    let bytes: Vec<u8> = (0..=255).cycle().take(500).collect();
    let adapter =
        StageResidencyAdapter::from_parts(toy_bundle(500), "toy.gguf".into(), tensor_names(), 0)
            .unwrap();
    let token_embd = adapter.read_required_tensor("token_embd.weight", &bytes).unwrap();
    let blk0 = adapter.read_required_tensor("blk.0.attn_q.weight", &bytes).unwrap();

    assert_eq!(token_embd.len(), 100);
    assert_eq!(blk0.len(), 100);
    assert_eq!(token_embd[0], bytes[0]);
    assert_eq!(token_embd[99], bytes[99]);
    assert_eq!(blk0[0], bytes[100]);
    assert_eq!(blk0[99], bytes[199]);
}

#[test]
fn packed_stage_artifact_roundtrips_required_tensors() {
    let bytes: Vec<u8> = (0..=255).cycle().take(300).collect();
    let adapter =
        StageResidencyAdapter::from_parts(toy_bundle(300), "toy.gguf".into(), tensor_names(), 0)
            .unwrap();
    let (pack, index) = adapter.pack_required_tensors(&bytes).unwrap();
    let reopened = reopen(&adapter, &pack, index);

    assert_eq!(reopened.index.tensor_count, 2);
    let token_embd = reopened.read_tensor("token_embd.weight", &pack).unwrap();
    let blk0 = reopened.read_tensor("blk.0.attn_q.weight", &pack).unwrap();
    assert_eq!(token_embd.len(), 100);
    assert_eq!(blk0.len(), 100);
    assert_eq!(token_embd[0], bytes[0]);
    assert_eq!(blk0[0], bytes[100]);
}

#[test]
fn stage_tensor_store_validates_and_reads_entries() {
    let bytes: Vec<u8> = (0..=255).cycle().take(300).collect();
    let adapter =
        StageResidencyAdapter::from_parts(toy_bundle(300), "toy.gguf".into(), tensor_names(), 0)
            .unwrap();
    let (pack, index) = adapter.pack_required_tensors(&bytes).unwrap();

    let store = StageTensorStore::load(reopen(&adapter, &pack, index));
    store.validate_offsets().unwrap();
    assert!(store.contains("token_embd.weight"));
    assert!(store.contains("blk.0.attn_q.weight"));
    assert!(!store.contains("output_norm.weight"));
    assert_eq!(store.tensor_count(), 2);
    let token_embd = store.read("token_embd.weight", &pack).unwrap();
    let blk0 = store.read("blk.0.attn_q.weight", &pack).unwrap();
    assert_eq!(token_embd[0], bytes[0]);
    assert_eq!(blk0[0], bytes[100]);
    let view = store.model_view();
    assert_eq!(view.prompt_ingress.len(), 1);
    assert_eq!(view.layers.len(), 1);
    assert_eq!(view.operator_layers.len(), 1);
    assert_eq!(view.execution_layers.len(), 1);
    assert_eq!(view.execution_programs.len(), 1);
    assert_eq!(view.layers[0].layer_index, 0);
    assert_eq!(view.layers[0].tensors.len(), 1);
    assert!(view.operator_layers[0].attn_q.is_some());
    assert!(view.execution_layers[0].q_out_dim.is_some());
    assert!(!view.execution_layers[0].runnable_sketch);
    assert!(view.execution_programs[0].ops.is_empty());
}

#[test]
fn a_packed_tensor_is_the_tensor_of_the_model_file() {
    let bytes: Vec<u8> = (0..=255).cycle().take(300).collect();
    for stage_index in 0..2 {
        let adapter = StageResidencyAdapter::from_parts(
            toy_bundle(300),
            "toy.gguf".into(),
            tensor_names(),
            stage_index,
        )
        .unwrap();
        let (pack, index) = adapter.pack_required_tensors(&bytes).unwrap();
        assert_eq!(index, adapter.required_pack_index());
        let store = StageTensorStore::load(reopen(&adapter, &pack, index));
        store.validate_offsets().unwrap();
        for slice in &adapter.stage.required_slices {
            assert_eq!(
                store.read(&slice.name, &pack).unwrap(),
                adapter.read_required_tensor(&slice.name, &bytes).unwrap()
            );
        }
    }
}

#[test]
fn a_full_pack_holds_the_optional_tensors_after_the_required_ones() {
    let bytes: Vec<u8> = (0..=255).cycle().take(300).collect();
    let adapter =
        StageResidencyAdapter::from_parts(toy_bundle(300), "toy.gguf".into(), tensor_names(), 1)
            .unwrap();
    let (pack, index) = adapter.pack_all_tensors(&bytes).unwrap();
    assert_eq!(index, adapter.full_pack_index());
    let names: Vec<&str> = index.tensors.iter().map(|entry| entry.name.as_str()).collect();
    assert_eq!(names, ["output_norm.weight", "token_embd.weight"]);
    assert_eq!(pack.len(), 200);
    assert_eq!(pack[..100], bytes[200..300]);
    assert_eq!(pack[100..], bytes[..100]);
    assert_eq!(
        adapter.read_optional_tensor("token_embd.weight", &bytes).unwrap(),
        bytes[..100].to_vec()
    );
}

#[test]
fn tensors_are_materialized_under_their_file_names() {
    let bytes: Vec<u8> = (0..=255).cycle().take(300).collect();
    let adapter =
        StageResidencyAdapter::from_parts(toy_bundle(300), "toy.gguf".into(), tensor_names(), 0)
            .unwrap();
    let files = adapter.materialize_required_tensors(&bytes).unwrap();
    assert_eq!(files.len(), 2);
    for (file, slice) in files.iter().zip(&adapter.stage.required_slices) {
        assert_eq!(file.0, sanitize_tensor_filename(&slice.name));
        let from = slice.file_offset as usize;
        assert_eq!(file.1, bytes[from..from + slice.byte_len as usize]);
    }
    assert_eq!(sanitize_tensor_filename("blk.0-a/é B"), "blk_0-a___B");
}

#[test]
fn an_adapter_names_its_stage() {
    let adapter =
        StageResidencyAdapter::from_parts(toy_bundle(300), "toy.gguf".into(), tensor_names(), 1)
            .unwrap();
    assert_eq!(adapter.stage_index(), 1);
    assert_eq!(adapter.start_layer(), 1);
    assert_eq!(adapter.end_layer(), 1);
    assert_eq!(adapter.stage_role(), "tail");
    assert_eq!(adapter.default_required_pack_dir_name(), "packed-stage-1-1");
    assert_eq!(adapter.default_materialized_dir_name(), "materialized-stage-1-1");
    assert_eq!(
        adapter.pack_file_names(),
        ("stage-2-required.pack".to_string(), "stage-2-required.index.json".to_string())
    );
    assert_eq!(adapter.required_slice("output_norm.weight").unwrap().file_offset, 200);
    assert_eq!(adapter.optional_slice("token_embd.weight").unwrap().byte_len, 100);
}

#[test]
fn an_adapter_refuses_what_is_not_its_stage() {
    let error = StageResidencyAdapter::from_parts(
        toy_bundle(300),
        "toy.gguf".into(),
        tensor_names(),
        7,
    )
    .unwrap_err();
    assert_eq!(error.to_string(), "Stage 8 not found in runtime bundle");

    let error = StageResidencyAdapter::from_parts(
        toy_bundle(300),
        "toy.gguf".into(),
        vec!["token_embd.weight".into()],
        0,
    )
    .unwrap_err();
    assert_eq!(
        error.to_string(),
        "Stage 1 references tensor blk.0.attn_q.weight which is not present in GGUF"
    );

    let adapter =
        StageResidencyAdapter::from_parts(toy_bundle(300), "toy.gguf".into(), tensor_names(), 0)
            .unwrap();
    assert_eq!(
        adapter.required_slice("output_norm.weight").unwrap_err().to_string(),
        "Tensor output_norm.weight is not required for this stage"
    );
    assert_eq!(
        adapter.optional_slice("token_embd.weight").unwrap_err().to_string(),
        "Tensor token_embd.weight is not optional for this stage"
    );
    assert_eq!(
        adapter.read_required_tensor("blk.0.attn_q.weight", &[0; 150]).unwrap_err().to_string(),
        "failed to fill whole buffer"
    );
    assert!(adapter.pack_required_tensors(&[0; 150]).is_err());
    assert!(adapter.materialize_required_tensors(&[0; 150]).is_err());
}

#[test]
fn a_stage_is_refused_where_its_files_disagree() {
    let (runtime, manifest, _) = tail_files();
    let paths = StageFiles::for_stage(1);
    assert_eq!(paths.manifest, "stage-2.json");
    assert_eq!(paths.runtime, "runtime-stage-2.json");
    assert_eq!(paths.required, "runtime-stage-2-required.txt");
    assert_eq!(paths.optional, "runtime-stage-2-optional.txt");
    assert_eq!(paths.slices, "runtime-stage-2-slices.json");

    LoadedRuntimeStage::check_manifests(&runtime, &manifest, &runtime, &paths).unwrap();
    let other = StageManifest { stage_index: 0, ..manifest };
    assert_eq!(
        LoadedRuntimeStage::check_manifests(&runtime, &other, &runtime, &paths)
            .unwrap_err()
            .to_string(),
        "Stage manifest stage-2.json does not match runtime stage index 2"
    );
    let mut changed = tail_files().0;
    changed.required.total_bytes += 1;
    assert_eq!(
        LoadedRuntimeStage::check_manifests(&runtime, &manifest, &changed, &paths)
            .unwrap_err()
            .to_string(),
        "Runtime plan file runtime-stage-2.json does not match top-level manifest for stage 2"
    );

    let load = |required: &str, optional: &str, slices: StageRuntimeSliceManifest| {
        LoadedRuntimeStage::from_files(&runtime, &manifest, required, optional, slices, &paths)
    };
    assert!(load("\n output_norm.weight \r\n\n", "token_embd.weight", tail_files().2).is_ok());
    assert_eq!(
        load("", "token_embd.weight", tail_files().2).unwrap_err().to_string(),
        "Required runtime tensor list runtime-stage-2-required.txt does not match manifest for stage 2"
    );
    assert_eq!(
        load("output_norm.weight", "other", tail_files().2).unwrap_err().to_string(),
        "Optional runtime tensor list runtime-stage-2-optional.txt does not match manifest for stage 2"
    );
    let mut fewer = tail_files().2;
    fewer.optional.clear();
    assert_eq!(
        load("output_norm.weight", "token_embd.weight", fewer).unwrap_err().to_string(),
        "Slice manifest runtime-stage-2-slices.json does not match runtime tensor lists for stage 2"
    );
}

#[test]
fn tensor_lists_are_read_as_sets() {
    assert_eq!(read_tensor_set("b\n a\t\r\n\nb\nc"), ["a", "b", "c"]);
    assert!(read_tensor_set(" \n\t\n").is_empty());
    assert_eq!(
        sorted_names(&["b".into(), "a".into(), "b".into(), "".into()]),
        ["", "a", "b"]
    );
}

#[test]
fn a_pack_is_found_beside_its_index() {
    assert_eq!(
        PackedStageArtifact::pack_file_name(Some("stage-1-required.index.json")).unwrap(),
        "stage-1-required.pack"
    );
    assert_eq!(
        PackedStageArtifact::pack_file_name(Some("stage-1.json")).unwrap_err().to_string(),
        "Packed stage index must end with .index.json"
    );
    assert_eq!(
        PackedStageArtifact::pack_file_name(None).unwrap_err().to_string(),
        "Invalid packed stage index filename"
    );
}

#[test]
fn an_artifact_is_refused_where_its_pack_does_not_fit() {
    let index = toy_index();
    let open = |size| {
        PackedStageArtifact::from_parts("s.pack".into(), "s.index.json".into(), toy_index(), size)
    };
    assert_eq!(open(Some(5)).unwrap().index, index);
    assert_eq!(open(None).unwrap_err().to_string(), "Packed stage file s.pack does not exist");
    assert_eq!(
        open(Some(6)).unwrap_err().to_string(),
        "Packed stage size 6 does not match index total_bytes 5"
    );
}

#[test]
fn a_store_reads_the_first_tensor_of_a_name() {
    let artifact = PackedStageArtifact::from_parts(
        "s.pack".into(),
        "s.index.json".into(),
        toy_index(),
        Some(5),
    )
    .unwrap();
    assert_eq!(artifact.locate_tensor("a").unwrap().pack_offset, 0);
    assert_eq!(
        artifact.locate_tensor("c").unwrap_err().to_string(),
        "Tensor c not found in packed stage"
    );
    let store = StageTensorStore::load(artifact);
    assert_eq!(store.total_bytes(), 5);
    assert_eq!(store.tensor_names(), ["a", "b"]);
    assert_eq!(store.entry("a").unwrap().pack_offset, 3);
    assert_eq!(store.read("a", &[1, 2, 3, 4, 5]).unwrap(), [1]);
    assert_eq!(store.read("b", &[1, 2, 3, 4, 5]).unwrap(), [2, 3]);
    assert_eq!(
        store.read("b", &[1, 2]).unwrap_err().to_string(),
        "failed to fill whole buffer"
    );
    assert_eq!(
        store.locate("c").unwrap_err().to_string(),
        "Tensor c not found in packed stage"
    );
    store.validate_offsets().unwrap();
}

#[test]
fn gaps_and_wrong_totals_in_a_pack_are_found() {
    let mut index = toy_index();
    index.tensors[1].pack_offset = 2;
    let store = StageTensorStore::load(PackedStageArtifact {
        pack_path: "s.pack".into(),
        index_path: "s.index.json".into(),
        index,
    });
    assert_eq!(
        store.validate_offsets().unwrap_err().to_string(),
        "Packed tensor b has pack_offset 2 but expected 1"
    );
    let mut index = toy_index();
    index.total_bytes = 9;
    let store = StageTensorStore::load(PackedStageArtifact {
        pack_path: "s.pack".into(),
        index_path: "s.index.json".into(),
        index,
    });
    assert_eq!(
        store.validate_offsets().unwrap_err().to_string(),
        "Packed tensor coverage 5 does not match total_bytes 9"
    );
}

#[test]
fn tensors_are_packed_one_after_another() {
    let (entries, total) = pack_entries(&[slice("x", 7, 3), slice("y", 90, 4)]);
    assert_eq!(total, 7);
    assert_eq!((entries[0].pack_offset, entries[0].source_file_offset), (0, 7));
    assert_eq!((entries[1].pack_offset, entries[1].source_file_offset), (3, 90));
    assert_eq!(read_section(&[9, 8, 7, 6], 1, 2).unwrap(), [8, 7]);
    assert!(read_section(&[9, 8, 7, 6], 3, 2).is_err());
    assert!(read_section(&[9, 8, 7, 6], u64::MAX, 2).is_err());
}
