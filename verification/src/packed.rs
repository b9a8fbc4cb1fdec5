//! Packed stages: the tensors of one stage, laid out one after the other in a file.
use vstd::prelude::*;
use vstd::string::*;
use crate::model::{fail_with, StageError};
use crate::names::sorted_names;
use crate::text::decimal;

verus! {

/// Where a tensor stands in a model file.
#[derive(Debug, PartialEq, Eq)]
pub struct TensorSlice {
    pub name: String,
    pub file_offset: u64,
    pub byte_len: u64,
    pub dimensions: Vec<u64>,
    pub ggml_type: u32,
}

/// What a [`TensorSlice`] holds, as mathematical values.
#[verifier::ext_equal]
pub struct TensorSliceModel {
    pub name: Seq<char>,
    pub file_offset: u64,
    pub byte_len: u64,
    pub dimensions: Seq<u64>,
    pub ggml_type: u32,
}

impl View for TensorSlice {
    type V = TensorSliceModel;

    open spec fn view(&self) -> TensorSliceModel {
        TensorSliceModel {
            name: self.name@,
            file_offset: self.file_offset,
            byte_len: self.byte_len,
            dimensions: self.dimensions@,
            ggml_type: self.ggml_type,
        }
    }
}

impl Clone for TensorSlice {
    fn clone(&self) -> (r: Self)
        ensures
            r@ == self@,
    {
        TensorSlice {
            name: self.name.clone(),
            file_offset: self.file_offset,
            byte_len: self.byte_len,
            dimensions: self.dimensions.clone(),
            ggml_type: self.ggml_type,
        }
    }
}

/// Where a tensor stands in a packed stage.
#[derive(Debug, PartialEq, Eq)]
pub struct PackedTensorEntry {
    pub name: String,
    pub pack_offset: u64,
    pub byte_len: u64,
    pub source_file_offset: u64,
    pub dimensions: Vec<u64>,
    pub ggml_type: u32,
}

/// What a [`PackedTensorEntry`] holds, as mathematical values.
#[verifier::ext_equal]
pub struct PackedTensorEntryModel {
    pub name: Seq<char>,
    pub pack_offset: u64,
    pub byte_len: u64,
    pub source_file_offset: u64,
    pub dimensions: Seq<u64>,
    pub ggml_type: u32,
}

impl View for PackedTensorEntry {
    type V = PackedTensorEntryModel;

    open spec fn view(&self) -> PackedTensorEntryModel {
        PackedTensorEntryModel {
            name: self.name@,
            pack_offset: self.pack_offset,
            byte_len: self.byte_len,
            source_file_offset: self.source_file_offset,
            dimensions: self.dimensions@,
            ggml_type: self.ggml_type,
        }
    }
}

impl Clone for PackedTensorEntry {
    fn clone(&self) -> (r: Self)
        ensures
            r@ == self@,
    {
        PackedTensorEntry {
            name: self.name.clone(),
            pack_offset: self.pack_offset,
            byte_len: self.byte_len,
            source_file_offset: self.source_file_offset,
            dimensions: self.dimensions.clone(),
            ggml_type: self.ggml_type,
        }
    }
}

/// The index of a packed stage.
#[derive(Debug, PartialEq, Eq)]
pub struct PackedStageIndex {
    pub model_name: String,
    pub architecture: String,
    pub stage_index: u32,
    pub role: String,
    pub total_bytes: u64,
    pub tensor_count: usize,
    pub tensors: Vec<PackedTensorEntry>,
}

/// What a [`PackedStageIndex`] holds, as mathematical values.
#[verifier::ext_equal]
pub struct PackedStageIndexModel {
    pub model_name: Seq<char>,
    pub architecture: Seq<char>,
    pub stage_index: u32,
    pub role: Seq<char>,
    pub total_bytes: u64,
    pub tensor_count: usize,
    pub tensors: Seq<PackedTensorEntryModel>,
}

impl View for PackedStageIndex {
    type V = PackedStageIndexModel;

    open spec fn view(&self) -> PackedStageIndexModel {
        PackedStageIndexModel {
            model_name: self.model_name@,
            architecture: self.architecture@,
            stage_index: self.stage_index,
            role: self.role@,
            total_bytes: self.total_bytes,
            tensor_count: self.tensor_count,
            tensors: crate::model::views(self.tensors@),
        }
    }
}

impl Clone for PackedStageIndex {
    fn clone(&self) -> (r: Self)
        ensures
            r@ == self@,
    {
        PackedStageIndex {
            model_name: self.model_name.clone(),
            architecture: self.architecture.clone(),
            stage_index: self.stage_index,
            role: self.role.clone(),
            total_bytes: self.total_bytes,
            tensor_count: self.tensor_count,
            tensors: clone_entries(&self.tensors),
        }
    }
}

/// A packed stage: its index, and the paths of its two files.
#[derive(Debug, PartialEq, Eq)]
pub struct PackedStageArtifact {
    pub pack_path: String,
    pub index_path: String,
    pub index: PackedStageIndex,
}

/// What a [`PackedStageArtifact`] holds, as mathematical values.
#[verifier::ext_equal]
pub struct PackedStageArtifactModel {
    pub pack_path: Seq<char>,
    pub index_path: Seq<char>,
    pub index: PackedStageIndexModel,
}

impl View for PackedStageArtifact {
    type V = PackedStageArtifactModel;

    open spec fn view(&self) -> PackedStageArtifactModel {
        PackedStageArtifactModel {
            pack_path: self.pack_path@,
            index_path: self.index_path@,
            index: self.index@,
        }
    }
}

impl Clone for PackedStageArtifact {
    fn clone(&self) -> (r: Self)
        ensures
            r@ == self@,
    {
        PackedStageArtifact {
            pack_path: self.pack_path.clone(),
            index_path: self.index_path.clone(),
            index: self.index.clone(),
        }
    }
}

/// Copies a list of entries.
pub(crate) fn clone_entries(values: &Vec<PackedTensorEntry>) -> (r: Vec<PackedTensorEntry>)
    ensures
        crate::model::views(r@) == crate::model::views(values@),
{
    let r = values.clone();
    proof {
        assert forall|i: int| 0 <= i < values@.len() implies r@[i]@ == values@[i]@ by {
            assert(cloned::<PackedTensorEntry>(values@[i], r@[i]));
        }
        assert(crate::model::views(r@) =~= crate::model::views(values@));
    }
    r
}

/// Copies a list of slices.
pub(crate) fn clone_slices(values: &Vec<TensorSlice>) -> (r: Vec<TensorSlice>)
    ensures
        crate::model::views(r@) == crate::model::views(values@),
{
    let r = values.clone();
    proof {
        assert forall|i: int| 0 <= i < values@.len() implies r@[i]@ == values@[i]@ by {
            assert(cloned::<TensorSlice>(values@[i], r@[i]));
        }
        assert(crate::model::views(r@) =~= crate::model::views(values@));
    }
    r
}

/// The bytes that slices take up together.
pub open spec fn total_length(slices: Seq<TensorSliceModel>) -> nat
    decreases slices.len(),
{
    if slices.len() == 0 {
        0
    } else {
        total_length(slices.drop_last()) + slices.last().byte_len as nat
    }
}

/// The entries of slices that are packed in order, without gaps.
pub open spec fn packed_entries(slices: Seq<TensorSliceModel>) -> Seq<PackedTensorEntryModel> {
    Seq::new(
        slices.len(),
        |i: int|
            PackedTensorEntryModel {
                name: slices[i].name,
                pack_offset: total_length(slices.take(i)) as u64,
                byte_len: slices[i].byte_len,
                source_file_offset: slices[i].file_offset,
                dimensions: slices[i].dimensions,
                ggml_type: slices[i].ggml_type,
            },
    )
}

/// The first slices take up no more than all of them.
pub proof fn lemma_prefix_is_shorter(slices: Seq<TensorSliceModel>, count: int)
    requires
        0 <= count <= slices.len(),
    ensures
        total_length(slices.take(count)) <= total_length(slices),
    decreases slices.len() - count,
{
    if count < slices.len() {
        assert(slices.take(count + 1).drop_last() =~= slices.take(count));
        lemma_prefix_is_shorter(slices, count + 1);
    } else {
        assert(slices.take(count) =~= slices);
    }
}

/// The entries of slices that are packed in order, and the bytes that they take up.
pub fn pack_entries(slices: &[TensorSlice]) -> (r: (Vec<PackedTensorEntry>, u64))
    requires
        total_length(crate::model::views(slices@)) <= u64::MAX,
    ensures
        crate::model::views(r.0@) == packed_entries(crate::model::views(slices@)),
        r.1 == total_length(crate::model::views(slices@)),
{
    let ghost models = crate::model::views(slices@);
    let mut entries: Vec<PackedTensorEntry> = Vec::new();
    let mut offset: u64 = 0;
    let mut index: usize = 0;
    assert(models.take(0) =~= Seq::empty());
    while index < slices.len()
        invariant
            index <= slices@.len(),
            models == crate::model::views(slices@),
            total_length(models) <= u64::MAX,
            offset == total_length(models.take(index as int)),
            entries@.len() == index,
            crate::model::views(entries@) == packed_entries(models).take(index as int),
        decreases slices.len() - index,
    {
        let slice = &slices[index];
        proof {
            assert(models.take(index + 1).drop_last() =~= models.take(index as int));
            assert(models.take(index + 1).last() == slice@);
            lemma_prefix_is_shorter(models, index + 1);
        }
        let ghost before = entries@;
        entries.push(
            PackedTensorEntry {
                name: slice.name.clone(),
                pack_offset: offset,
                byte_len: slice.byte_len,
                source_file_offset: slice.file_offset,
                dimensions: slice.dimensions.clone(),
                ggml_type: slice.ggml_type,
            },
        );
        proof {
            let entry = entries@[index as int]@;
            assert(entry.dimensions =~= slice@.dimensions);
            assert(entry =~= packed_entries(models)[index as int]);
            assert(crate::model::views(entries@) =~= crate::model::views(before).push(entry));
            assert(packed_entries(models).take(index + 1) =~= packed_entries(models).take(
                index as int,
            ).push(entry));
        }
        offset = offset + slice.byte_len;
        index += 1;
    }
    proof {
        assert(models.take(index as int) =~= models);
        assert(packed_entries(models).take(index as int) =~= packed_entries(models));
    }
    (entries, offset)
}

impl PackedStageIndexModel {
    /// Where the tensor at `index` must start: behind those before it, at most the largest
    /// offset.
    pub open spec fn expected_offset(tensors: Seq<PackedTensorEntryModel>, index: int) -> u64
        decreases index,
    {
        if index <= 0 {
            0
        } else {
            let before = Self::expected_offset(tensors, index - 1) + tensors[index - 1].byte_len;
            if before > u64::MAX {
                u64::MAX
            } else {
                before as u64
            }
        }
    }

    /// What is wrong with the offsets of the tensors from `index` on: the first that does not
    /// start where it must, else a total that they do not add up to.
    pub open spec fn offsets_fault(self, index: int) -> Option<Seq<char>>
        decreases self.tensors.len() - index,
    {
        let expected = Self::expected_offset(self.tensors, index);
        if index < 0 || index >= self.tensors.len() {
            if expected != self.total_bytes {
                Some(
                    "Packed tensor coverage "@ + crate::text::dec(expected as nat)
                        + " does not match total_bytes "@ + crate::text::dec(
                        self.total_bytes as nat,
                    ),
                )
            } else {
                None
            }
        } else if self.tensors[index].pack_offset != expected {
            Some(
                "Packed tensor "@ + self.tensors[index].name + " has pack_offset "@
                    + crate::text::dec(self.tensors[index].pack_offset as nat) + " but expected "@
                    + crate::text::dec(expected as nat),
            )
        } else {
            self.offsets_fault(index + 1)
        }
    }

    /// The first tensor with the given name.
    pub open spec fn first_named(
        tensors: Seq<PackedTensorEntryModel>,
        name: Seq<char>,
    ) -> Option<int>
        decreases tensors.len(),
    {
        if tensors.len() == 0 {
            None
        } else if tensors[0].name == name {
            Some(0)
        } else {
            match Self::first_named(tensors.drop_first(), name) {
                Some(index) => Some(index + 1),
                None => None,
            }
        }
    }

    /// The last tensor with the given name.
    pub open spec fn last_named(
        tensors: Seq<PackedTensorEntryModel>,
        name: Seq<char>,
    ) -> Option<PackedTensorEntryModel>
        decreases tensors.len(),
    {
        if tensors.len() == 0 {
            None
        } else if tensors.last().name == name {
            Some(tensors.last())
        } else {
            Self::last_named(tensors.drop_last(), name)
        }
    }

    /// The names of the tensors, in order.
    pub open spec fn names(self) -> Seq<Seq<char>> {
        self.tensors.map_values(|entry: PackedTensorEntryModel| entry.name)
    }
}

/// The end of an index file's name.
pub open spec fn index_suffix() -> Seq<char> {
    ".index.json"@
}

/// The name of the pack file that goes with an index file.
pub open spec fn pack_name(file_name: Seq<char>) -> Option<Seq<char>> {
    if file_name.len() >= index_suffix().len() && file_name.skip(
        file_name.len() - index_suffix().len(),
    ) == index_suffix() {
        Some(file_name.take(file_name.len() - index_suffix().len()) + ".pack"@)
    } else {
        None
    }
}

impl PackedStageArtifact {
    /// The name of the pack file that goes with an index file; an error where the index file has
    /// no name or its name does not end as it must.
    pub fn pack_file_name(file_name: Option<&str>) -> (r: Result<String, StageError>)
        ensures
            match file_name {
                Some(name) => match r {
                    Ok(pack) => pack_name(name@) == Some(pack@),
                    Err(error) => pack_name(name@) is None && error@
                        == "Packed stage index must end with .index.json"@,
                },
                None => crate::model::failure(r) == Some("Invalid packed stage index filename"@),
            },
    {
        let name = match file_name {
            Some(name) => name,
            None => return crate::model::fail("Invalid packed stage index filename"),
        };
        let chars = crate::text::chars_of(name);
        let suffix = crate::text::chars_of(".index.json");
        if chars.len() >= suffix.len() {
            let stem: usize = chars.len() - suffix.len();
            let tail = vstd::slice::slice_subrange(&chars, stem, chars.len());
            assert(tail@ =~= name@.skip(name@.len() - index_suffix().len()));
            if crate::text::text_of(tail) == ".index.json".to_owned() {
                let front = vstd::slice::slice_subrange(&chars, 0, stem);
                assert(front@ =~= name@.take(name@.len() - index_suffix().len()));
                return Ok(crate::text::text_of(front).concat(".pack"));
            }
        }
        crate::model::fail("Packed stage index must end with .index.json")
    }

    /// A packed stage whose pack file has `size` bytes, or is missing; the size must be the one
    /// that the index tells.
    pub fn from_parts(
        pack_path: String,
        index_path: String,
        index: PackedStageIndex,
        size: Option<u64>,
    ) -> (r: Result<Self, StageError>)
        ensures
            match size {
                None => crate::model::failure(r) == Some(
                    "Packed stage file "@ + pack_path@ + " does not exist"@,
                ),
                Some(size) => if size != index.total_bytes {
                    crate::model::failure(r) == Some(
                        "Packed stage size "@ + crate::text::dec(size as nat)
                            + " does not match index total_bytes "@ + crate::text::dec(
                            index.total_bytes as nat,
                        ),
                    )
                } else {
                    r matches Ok(artifact) && artifact@ == (PackedStageArtifactModel {
                        pack_path: pack_path@,
                        index_path: index_path@,
                        index: index@,
                    })
                },
            },
    {
        match size {
            None => fail_with(
                "Packed stage file ".to_owned().concat(pack_path.as_str()).concat(
                    " does not exist",
                ),
            ),
            Some(size) => {
                if size != index.total_bytes {
                    return fail_with(
                        "Packed stage size ".to_owned().concat(decimal(size).as_str()).concat(
                            " does not match index total_bytes ",
                        ).concat(decimal(index.total_bytes).as_str()),
                    );
                }
                Ok(PackedStageArtifact { pack_path, index_path, index })
            },
        }
    }

    /// The first tensor with the given name.
    pub fn locate_tensor(&self, tensor_name: &str) -> (r: Result<&PackedTensorEntry, StageError>)
        ensures
            match PackedStageIndexModel::first_named(self@.index.tensors, tensor_name@) {
                Some(index) => r matches Ok(entry) && 0 <= index < self@.index.tensors.len()
                    && entry@ == self@.index.tensors[index],
                None => crate::model::failure(r) == Some(
                    "Tensor "@ + tensor_name@ + " not found in packed stage"@,
                ),
            },
    {
        let wanted = tensor_name.to_owned();
        let ghost models = self@.index.tensors;
        let mut index: usize = 0;
        assert(models.skip(0) =~= models);
        while index < self.index.tensors.len()
            invariant
                index <= models.len(),
                models == crate::model::views(self.index.tensors@),
                models == self@.index.tensors,
                wanted@ == tensor_name@,
                PackedStageIndexModel::first_named(models, tensor_name@) == (
                match PackedStageIndexModel::first_named(models.skip(index as int), tensor_name@) {
                    Some(found) => Some(found + index),
                    None => None,
                }),
            decreases self.index.tensors.len() - index,
        {
            if self.index.tensors[index].name == wanted {
                return Ok(&self.index.tensors[index]);
            }
            proof {
                assert(models.skip(index as int).drop_first() =~= models.skip(index + 1));
            }
            index += 1;
        }
        fail_with(
            "Tensor ".to_owned().concat(tensor_name).concat(" not found in packed stage"),
        )
    }

    /// The bytes of the first tensor with the given name, out of the stage's pack.
    pub fn read_tensor(&self, tensor_name: &str, pack: &[u8]) -> (r: Result<Vec<u8>, StageError>)
        ensures
            match PackedStageIndexModel::first_named(self@.index.tensors, tensor_name@) {
                Some(index) => match section(
                    pack@,
                    self@.index.tensors[index].pack_offset,
                    self@.index.tensors[index].byte_len,
                ) {
                    Some(part) => r matches Ok(out) && out@ == part,
                    None => crate::model::failure(r) == Some("failed to fill whole buffer"@),
                },
                None => crate::model::failure(r) == Some(
                    "Tensor "@ + tensor_name@ + " not found in packed stage"@,
                ),
            },
    {
        match self.locate_tensor(tensor_name) {
            Ok(entry) => read_section(pack, entry.pack_offset, entry.byte_len),
            Err(error) => Err(error),
        }
    }
}

/// The `length` bytes from `offset` on, where there are as many.
pub open spec fn section(bytes: Seq<u8>, offset: u64, length: u64) -> Option<Seq<u8>> {
    if length == 0 {
        Some(Seq::empty())
    } else if offset + length <= bytes.len() {
        Some(bytes.subrange(offset as int, offset + length))
    } else {
        None
    }
}

/// Copies the `length` bytes from `offset` on; an error where there are fewer.
pub fn read_section(bytes: &[u8], offset: u64, length: u64) -> (r: Result<Vec<u8>, StageError>)
    ensures
        match section(bytes@, offset, length) {
            Some(part) => r matches Ok(out) && out@ == part,
            None => crate::model::failure(r) == Some("failed to fill whole buffer"@),
        },
{
    if length == 0 {
        return Ok(Vec::new());
    }
    if offset > bytes.len() as u64 || length > bytes.len() as u64 - offset {
        return crate::model::fail("failed to fill whole buffer");
    }
    let start: usize = offset as usize;
    let end: usize = (offset + length) as usize;
    let part = vstd::slice::slice_subrange(bytes, start, end);
    let mut out: Vec<u8> = Vec::new();
    out.extend_from_slice(part);
    assert(out@ =~= bytes@.subrange(start as int, end as int));
    Ok(out)
}

/// The tensors of a packed stage, found by name.
#[derive(Debug, PartialEq, Eq)]
pub struct StageTensorStore {
    pub artifact: PackedStageArtifact,
}

impl View for StageTensorStore {
    type V = PackedStageArtifactModel;

    open spec fn view(&self) -> PackedStageArtifactModel {
        self.artifact@
    }
}

impl StageTensorStore {
    /// The store of a packed stage.
    pub fn load(artifact: PackedStageArtifact) -> (r: Self)
        ensures
            r@ == artifact@,
    {
        StageTensorStore { artifact }
    }

    /// Whether there is a tensor with the given name.
    pub fn contains(&self, tensor_name: &str) -> (r: bool)
        ensures
            r == self@.index.names().contains(tensor_name@),
    {
        proof {
            lemma_last_named(self@.index.tensors, tensor_name@);
            assert(self@.index.names() =~= names_of(self@.index.tensors));
        }
        self.entry(tensor_name).is_some()
    }

    /// The names of the tensors, ascending, each once.
    pub fn tensor_names(&self) -> (r: Vec<String>)
        ensures
            crate::names::ascending(crate::model::texts(r@)),
            crate::names::same_names(crate::model::texts(r@), self@.index.names()),
    {
        let ghost models = self@.index.tensors;
        let mut names: Vec<String> = Vec::new();
        let mut index: usize = 0;
        while index < self.artifact.index.tensors.len()
            invariant
                index <= models.len(),
                models == crate::model::views(self.artifact.index.tensors@),
                names@.len() == index,
                crate::model::texts(names@) == names_of(models.take(index as int)),
            decreases self.artifact.index.tensors.len() - index,
        {
            let ghost before = names@;
            names.push(self.artifact.index.tensors[index].name.clone());
            index += 1;
            assert(crate::model::texts(names@) =~= crate::model::texts(before).push(
                models[index - 1].name,
            ));
            assert(crate::model::texts(names@) =~= names_of(models.take(index as int)));
        }
        assert(models.take(index as int) =~= models);
        assert(self@.index.names() =~= names_of(models));
        sorted_names(&names)
    }

    /// The tensor with the given name; where several have it, the last.
    pub fn entry(&self, tensor_name: &str) -> (r: Option<&PackedTensorEntry>)
        ensures
            match r {
                Some(entry) => PackedStageIndexModel::last_named(
                    self@.index.tensors,
                    tensor_name@,
                ) == Some(entry@),
                None => PackedStageIndexModel::last_named(
                    self@.index.tensors,
                    tensor_name@,
                ) is None,
            },
    {
        let wanted = tensor_name.to_owned();
        let ghost models = self@.index.tensors;
        let mut index: usize = self.artifact.index.tensors.len();
        assert(models.take(index as int) =~= models);
        while index > 0
            invariant
                index <= models.len(),
                models == crate::model::views(self.artifact.index.tensors@),
                models == self@.index.tensors,
                wanted@ == tensor_name@,
                PackedStageIndexModel::last_named(models, tensor_name@)
                    == PackedStageIndexModel::last_named(models.take(index as int), tensor_name@),
            decreases index,
        {
            index -= 1;
            proof {
                assert(models.take(index + 1).last() == models[index as int]);
                assert(models.take(index + 1).drop_last() =~= models.take(index as int));
            }
            if self.artifact.index.tensors[index].name == wanted {
                return Some(&self.artifact.index.tensors[index]);
            }
        }
        None
    }

    /// The first tensor with the given name, which is the one that is read.
    pub fn locate(&self, tensor_name: &str) -> (r: Result<&PackedTensorEntry, StageError>)
        ensures
            match PackedStageIndexModel::first_named(self@.index.tensors, tensor_name@) {
                Some(index) => r matches Ok(entry) && 0 <= index < self@.index.tensors.len()
                    && entry@ == self@.index.tensors[index],
                None => crate::model::failure(r) == Some(
                    "Tensor "@ + tensor_name@ + " not found in packed stage"@,
                ),
            },
    {
        self.artifact.locate_tensor(tensor_name)
    }

    /// The bytes of the first tensor with the given name, out of the stage's pack.
    pub fn read(&self, tensor_name: &str, pack: &[u8]) -> (r: Result<Vec<u8>, StageError>)
        ensures
            match PackedStageIndexModel::first_named(self@.index.tensors, tensor_name@) {
                Some(index) => match section(
                    pack@,
                    self@.index.tensors[index].pack_offset,
                    self@.index.tensors[index].byte_len,
                ) {
                    Some(part) => r matches Ok(out) && out@ == part,
                    None => crate::model::failure(r) == Some("failed to fill whole buffer"@),
                },
                None => crate::model::failure(r) == Some(
                    "Tensor "@ + tensor_name@ + " not found in packed stage"@,
                ),
            },
    {
        self.artifact.read_tensor(tensor_name, pack)
    }

    /// The bytes that the index tells of.
    pub fn total_bytes(&self) -> (r: u64)
        ensures
            r == self@.index.total_bytes,
    {
        self.artifact.index.total_bytes
    }

    /// The number of tensors that the index tells of.
    pub fn tensor_count(&self) -> (r: usize)
        ensures
            r == self@.index.tensor_count,
    {
        self.artifact.index.tensor_count
    }

    /// Checks that the tensors stand one behind the other and fill the pack.
    pub fn validate_offsets(&self) -> (r: Result<(), StageError>)
        ensures
            crate::model::failure(r) == self@.index.offsets_fault(0),
    {
        let ghost model = self@.index;
        let mut expected_offset: u64 = 0;
        let mut index: usize = 0;
        while index < self.artifact.index.tensors.len()
            invariant
                index <= model.tensors.len(),
                model == self@.index,
                model.tensors == crate::model::views(self.artifact.index.tensors@),
                expected_offset == PackedStageIndexModel::expected_offset(
                    model.tensors,
                    index as int,
                ),
                model.offsets_fault(0) == model.offsets_fault(index as int),
            decreases self.artifact.index.tensors.len() - index,
        {
            let entry = &self.artifact.index.tensors[index];
            assert(entry@ == model.tensors[index as int]);
            if entry.pack_offset != expected_offset {
                return fail_with(
                    "Packed tensor ".to_owned().concat(entry.name.as_str()).concat(
                        " has pack_offset ",
                    ).concat(decimal(entry.pack_offset).as_str()).concat(" but expected ").concat(
                        decimal(expected_offset).as_str(),
                    ),
                );
            }
            expected_offset = expected_offset.saturating_add(entry.byte_len);
            index += 1;
        }
        if expected_offset != self.artifact.index.total_bytes {
            return fail_with(
                "Packed tensor coverage ".to_owned().concat(
                    decimal(expected_offset).as_str(),
                ).concat(" does not match total_bytes ").concat(
                    decimal(self.artifact.index.total_bytes).as_str(),
                ),
            );
        }
        Ok(())
    }
}

/// The names of entries, in order.
pub open spec fn names_of(tensors: Seq<PackedTensorEntryModel>) -> Seq<Seq<char>> {
    tensors.map_values(|entry: PackedTensorEntryModel| entry.name)
}

/// A last tensor with a name is one of the tensors and has the name; there is none exactly where
/// no tensor has it.
pub proof fn lemma_last_named(tensors: Seq<PackedTensorEntryModel>, name: Seq<char>)
    ensures
        match PackedStageIndexModel::last_named(tensors, name) {
            Some(entry) => entry.name == name && tensors.contains(entry) && names_of(
                tensors,
            ).contains(name),
            None => !names_of(tensors).contains(name),
        },
    decreases tensors.len(),
{
    let names = names_of(tensors);
    if tensors.len() > 0 {
        let rest = tensors.drop_last();
        if tensors.last().name == name {
            assert(names[tensors.len() - 1] == name);
            assert(tensors[tensors.len() - 1] == tensors.last());
        } else {
            lemma_last_named(rest, name);
            match PackedStageIndexModel::last_named(rest, name) {
                Some(entry) => {
                    let i = choose|i: int| 0 <= i < rest.len() && rest[i] == entry;
                    assert(tensors[i] == entry);
                    assert(names[i] == name);
                },
                None => {
                    if names.contains(name) {
                        let i = choose|i: int| 0 <= i < names.len() && names[i] == name;
                        assert(names_of(rest)[i] == name);
                    }
                },
            }
        }
    }
}

/// The index of slices that are packed in order passes the check of its offsets.
pub proof fn lemma_packed_offsets_are_valid(
    index: PackedStageIndexModel,
    slices: Seq<TensorSliceModel>,
)
    requires
        total_length(slices) <= u64::MAX,
        index.tensors == packed_entries(slices),
        index.total_bytes == total_length(slices),
    ensures
        index.offsets_fault(0) is None,
{
    lemma_packed_offsets_from(index, slices, 0);
}

proof fn lemma_expected_offset(slices: Seq<TensorSliceModel>, at: int)
    requires
        total_length(slices) <= u64::MAX,
        0 <= at <= slices.len(),
    ensures
        PackedStageIndexModel::expected_offset(packed_entries(slices), at) == total_length(
            slices.take(at),
        ),
    decreases at,
{
    if at > 0 {
        lemma_expected_offset(slices, at - 1);
        assert(slices.take(at).drop_last() =~= slices.take(at - 1));
        lemma_prefix_is_shorter(slices, at);
    } else {
        assert(slices.take(0) =~= Seq::empty());
    }
}

proof fn lemma_packed_offsets_from(
    index: PackedStageIndexModel,
    slices: Seq<TensorSliceModel>,
    at: int,
)
    requires
        total_length(slices) <= u64::MAX,
        index.tensors == packed_entries(slices),
        index.total_bytes == total_length(slices),
        0 <= at <= slices.len(),
    ensures
        index.offsets_fault(at) is None,
    decreases slices.len() - at,
{
    lemma_expected_offset(slices, at);
    lemma_prefix_is_shorter(slices, at);
    if at < slices.len() {
        lemma_packed_offsets_from(index, slices, at + 1);
    } else {
        assert(slices.take(at) =~= slices);
    }
}

} // verus!
