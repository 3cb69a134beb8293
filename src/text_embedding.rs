//! Options, model sources and descriptors for user-defined ("bring your own") models,
//! and the runtime handle that both initialization paths end in.
use vstd::prelude::*;
use vstd::std_specs::convert::FromSpecImpl;
use ort::ep::ExecutionProviderDispatch;
use ort::session::Session;
use std::path::{Path, PathBuf};
use tokenizers::Tokenizer;
use crate::common::{TokenizerFiles, DEFAULT_MAX_LENGTH};
use crate::init::TextInitOptions;
use crate::pooling::{OutputKey, Pooling, QuantizationMode};

verus! {

/// Options for initializing a [`UserDefinedEmbeddingModel`].
///
/// The model files are held by the descriptor itself. Like the catalog options, the
/// builder methods consume the value, and `max_length` is not validated here.
#[derive(Clone)]
#[non_exhaustive]
pub struct InitOptionsUserDefined {
    pub execution_providers: Vec<ExecutionProviderDispatch>,
    pub max_length: usize,
}

impl InitOptionsUserDefined {
    /// The options with `execution_providers` replaced.
    pub open spec fn spec_with_execution_providers(self, execution_providers: Vec<ExecutionProviderDispatch>) -> Self {
        InitOptionsUserDefined { execution_providers, max_length: self.max_length }
    }

    /// The options with `max_length` replaced.
    pub open spec fn spec_with_max_length(self, max_length: usize) -> Self {
        InitOptionsUserDefined { execution_providers: self.execution_providers, max_length }
    }

    /// No execution providers and the global default length.
    pub fn new() -> (r: Self)
        ensures
            r.execution_providers@ == Seq::<ExecutionProviderDispatch>::empty(),
            r.max_length == DEFAULT_MAX_LENGTH,
    {
        InitOptionsUserDefined { execution_providers: Vec::new(), max_length: DEFAULT_MAX_LENGTH }
    }

    /// Replaces the execution providers, most preferred first; `max_length` is kept.
    pub fn with_execution_providers(self, execution_providers: Vec<ExecutionProviderDispatch>) -> (r: Self)
        ensures
            r == self.spec_with_execution_providers(execution_providers),
    {
        let mut s = self;
        s.execution_providers = execution_providers;
        s
    }

    /// Replaces the maximum sequence length; the execution providers are kept.
    pub fn with_max_length(self, max_length: usize) -> (r: Self)
        ensures
            r == self.spec_with_max_length(max_length),
    {
        let mut s = self;
        s.max_length = max_length;
        s
    }
}

/// Setting the length and setting the execution providers touch different fields, so
/// they may be applied in either order with the same result.
pub proof fn lemma_user_defined_builders_commute(
    options: InitOptionsUserDefined,
    max_length: usize,
    execution_providers: Vec<ExecutionProviderDispatch>,
)
    ensures
        options.spec_with_max_length(max_length).spec_with_execution_providers(execution_providers)
            == options.spec_with_execution_providers(execution_providers).spec_with_max_length(max_length),
{
}

/// Converting catalog options keeps the execution providers and the length exactly,
/// whatever they are.
pub proof fn lemma_conversion_keeps_fields(options: TextInitOptions, r: InitOptionsUserDefined)
    requires
        call_ensures(<InitOptionsUserDefined as From<TextInitOptions>>::from, (options,), r),
    ensures
        r.execution_providers == options.execution_providers,
        r.max_length == options.max_length,
{
}

impl Default for InitOptionsUserDefined {
    fn default() -> (r: Self)
        ensures
            r.execution_providers@ == Seq::<ExecutionProviderDispatch>::empty(),
            r.max_length == DEFAULT_MAX_LENGTH,
    {
        InitOptionsUserDefined::new()
    }
}

/// Reuses the execution providers and length of catalog options for a user-defined model.
///
/// There is no conversion back: a user-defined model has no family to take a default from.
impl From<TextInitOptions> for InitOptionsUserDefined {
    fn from(options: TextInitOptions) -> (r: Self) {
        InitOptionsUserDefined {
            execution_providers: options.execution_providers,
            max_length: options.max_length,
        }
    }
}

impl FromSpecImpl<TextInitOptions> for InitOptionsUserDefined {
    open spec fn obeys_from_spec() -> bool {
        true
    }

    open spec fn from_spec(options: TextInitOptions) -> Self {
        InitOptionsUserDefined {
            execution_providers: options.execution_providers,
            max_length: options.max_length,
        }
    }
}

/// Where the ONNX graph of a user-defined model comes from.
///
/// Nothing is read when a source is made: the bytes or the path are resolved when the
/// session is built. Use `File` for models with external data files.
#[derive(Debug, Clone, PartialEq, Eq)]
pub enum OnnxSource {
    /// The graph, loaded into memory as bytes.
    Memory(Vec<u8>),
    /// The path of the graph file on disk.
    File(PathBuf),
}

/// The owned copy of a borrowed path.
pub uninterp spec fn path_buf_of(p: &Path) -> PathBuf;

/// Relies on `Path::to_path_buf`: an owned copy of the path, determined by the path alone.
#[verifier::external_body]
fn to_path_buf(p: &Path) -> (r: PathBuf)
    ensures
        r == path_buf_of(p),
{
    p.to_path_buf()
}

impl From<Vec<u8>> for OnnxSource {
    fn from(bytes: Vec<u8>) -> (r: Self) {
        OnnxSource::Memory(bytes)
    }
}

impl FromSpecImpl<Vec<u8>> for OnnxSource {
    open spec fn obeys_from_spec() -> bool {
        true
    }

    open spec fn from_spec(bytes: Vec<u8>) -> Self {
        OnnxSource::Memory(bytes)
    }
}

impl From<PathBuf> for OnnxSource {
    fn from(path: PathBuf) -> (r: Self) {
        OnnxSource::File(path)
    }
}

impl FromSpecImpl<PathBuf> for OnnxSource {
    open spec fn obeys_from_spec() -> bool {
        true
    }

    open spec fn from_spec(path: PathBuf) -> Self {
        OnnxSource::File(path)
    }
}

impl<'a> From<&'a Path> for OnnxSource {
    fn from(path: &'a Path) -> (r: Self) {
        OnnxSource::File(to_path_buf(path))
    }
}

impl<'a> FromSpecImpl<&'a Path> for OnnxSource {
    open spec fn obeys_from_spec() -> bool {
        true
    }

    open spec fn from_spec(path: &'a Path) -> Self {
        OnnxSource::File(path_buf_of(path))
    }
}

/// Converting a byte buffer always gives the in-memory source holding exactly those bytes.
pub proof fn lemma_bytes_give_memory_source(bytes: Vec<u8>, r: OnnxSource)
    requires
        call_ensures(<OnnxSource as From<Vec<u8>>>::from, (bytes,), r),
    ensures
        r == OnnxSource::Memory(bytes),
{
}

/// Converting a path, owned or borrowed, always gives the on-disk source holding that
/// path; a borrowed path and an owned one that is its copy give equal sources.
pub proof fn lemma_paths_give_file_source<'a>(
    owned: PathBuf,
    borrowed: &'a Path,
    from_owned: OnnxSource,
    from_borrowed: OnnxSource,
)
    requires
        call_ensures(<OnnxSource as From<PathBuf>>::from, (owned,), from_owned),
        call_ensures(<OnnxSource as From<&'a Path>>::from, (borrowed,), from_borrowed),
    ensures
        from_owned == OnnxSource::File(owned),
        from_borrowed == OnnxSource::File(path_buf_of(borrowed)),
        path_buf_of(borrowed) == owned ==> from_owned == from_borrowed,
{
}

/// A "bring your own" embedding model: where the graph comes from, the tokenizer files,
/// and the post-processing choices.
///
/// It is a plain value aggregate: it performs no I/O and does not check the tokenizer files.
#[derive(Debug, Clone, PartialEq, Eq)]
pub struct UserDefinedEmbeddingModel {
    pub onnx_source: OnnxSource,
    pub tokenizer_files: TokenizerFiles,
    pub pooling: Option<Pooling>,
    pub quantization: QuantizationMode,
    pub output_key: Option<OutputKey>,
}

impl UserDefinedEmbeddingModel {
    /// The descriptor with `quantization` replaced.
    pub open spec fn spec_with_quantization(self, quantization: QuantizationMode) -> Self {
        UserDefinedEmbeddingModel {
            onnx_source: self.onnx_source,
            tokenizer_files: self.tokenizer_files,
            pooling: self.pooling,
            quantization,
            output_key: self.output_key,
        }
    }

    /// The descriptor with `pooling` set.
    pub open spec fn spec_with_pooling(self, pooling: Pooling) -> Self {
        UserDefinedEmbeddingModel {
            onnx_source: self.onnx_source,
            tokenizer_files: self.tokenizer_files,
            pooling: Some(pooling),
            quantization: self.quantization,
            output_key: self.output_key,
        }
    }

    /// A descriptor from ONNX bytes or a path: no quantization, and pooling and the
    /// output key left unset, for the assembler to choose.
    pub fn new(onnx_source: impl Into<OnnxSource>, tokenizer_files: TokenizerFiles) -> (r: Self)
        ensures
            call_ensures(Into::<OnnxSource>::into, (onnx_source,), r.onnx_source),
            r.tokenizer_files == tokenizer_files,
            r.quantization == QuantizationMode::Unquantized,
            r.pooling == None::<Pooling>,
            r.output_key == None::<OutputKey>,
    {
        UserDefinedEmbeddingModel {
            onnx_source: onnx_source.into(),
            tokenizer_files,
            quantization: QuantizationMode::Unquantized,
            pooling: None,
            output_key: None,
        }
    }

    /// Replaces the quantization mode; the other fields are kept.
    pub fn with_quantization(self, quantization: QuantizationMode) -> (r: Self)
        ensures
            r == self.spec_with_quantization(quantization),
    {
        let mut s = self;
        s.quantization = quantization;
        s
    }

    /// Sets the pooling strategy; the other fields are kept.
    pub fn with_pooling(self, pooling: Pooling) -> (r: Self)
        ensures
            r == self.spec_with_pooling(pooling),
    {
        let mut s = self;
        s.pooling = Some(pooling);
        s
    }
}

/// Setting the quantization and setting the pooling touch different fields, so they may
/// be applied in either order, and both choices stand in the result.
pub proof fn lemma_descriptor_builders_commute(
    model: UserDefinedEmbeddingModel,
    quantization: QuantizationMode,
    pooling: Pooling,
)
    ensures
        model.spec_with_quantization(quantization).spec_with_pooling(pooling)
            == model.spec_with_pooling(pooling).spec_with_quantization(quantization),
        model.spec_with_quantization(quantization).spec_with_pooling(pooling).quantization == quantization,
        model.spec_with_quantization(quantization).spec_with_pooling(pooling).pooling == Some(pooling),
{
}

/// Whether one of a graph's input names is `token_type_ids`.
pub open spec fn has_token_type_ids(input_names: Seq<String>) -> bool {
    exists|i: int| 0 <= i < input_names.len() && input_names[i]@ == "token_type_ids"@
}

/// Whether a graph with these input names needs token type ids fed to it.
pub fn needs_token_type_ids(input_names: &Vec<String>) -> (r: bool)
    ensures
        r == has_token_type_ids(input_names@),
{
    let target = "token_type_ids".to_owned();
    proof {
        reveal_strlit("token_type_ids");
    }
    let mut i: usize = 0;
    while i < input_names.len()
        invariant
            0 <= i <= input_names.len(),
            target@ == "token_type_ids"@,
            forall|j: int| 0 <= j < i ==> input_names@[j]@ != "token_type_ids"@,
        decreases input_names.len() - i,
    {
        if input_names[i] == target {
            return true;
        }
        i = i + 1;
    }
    false
}

/// Relies on `Session::inputs` and `Outlet::name`: the names of the graph's inputs.
/// They depend on the loaded graph, so nothing is claimed of them.
#[verifier::external_body]
fn session_input_names(session: &Session) -> Vec<String> {
    session.inputs().iter().map(|input| input.name().to_string()).collect()
}

/// A ready text embedding model: a live tokenizer and compute session, with the
/// post-processing choices that were resolved for them.
pub struct TextEmbedding {
    pub tokenizer: Tokenizer,
    pub(crate) pooling: Option<Pooling>,
    pub(crate) session: Session,
    pub(crate) need_token_type_ids: bool,
    pub(crate) quantization: QuantizationMode,
    pub(crate) output_key: Option<OutputKey>,
}

impl TextEmbedding {
    /// The tokenizer the handle uses.
    pub closed spec fn spec_tokenizer(&self) -> Tokenizer {
        self.tokenizer
    }

    /// The session the handle runs.
    pub closed spec fn spec_session(&self) -> Session {
        self.session
    }

    /// The pooling strategy, as used in contracts.
    pub closed spec fn spec_pooling(&self) -> Option<Pooling> {
        self.pooling
    }

    /// Whether token type ids are fed to the graph, as used in contracts.
    pub closed spec fn spec_need_token_type_ids(&self) -> bool {
        self.need_token_type_ids
    }

    /// The quantization mode, as used in contracts.
    pub closed spec fn spec_quantization(&self) -> QuantizationMode {
        self.quantization
    }

    /// The output key, as used in contracts.
    pub closed spec fn spec_output_key(&self) -> Option<OutputKey> {
        self.output_key
    }

    /// Assembles the handle from a built tokenizer and session.
    ///
    /// Pooling, quantization and output key are carried over unchanged; whether the graph
    /// needs token type ids is read from the session's input names.
    pub fn new(
        tokenizer: Tokenizer,
        session: Session,
        pooling: Option<Pooling>,
        quantization: QuantizationMode,
        output_key: Option<OutputKey>,
    ) -> (r: Self)
        ensures
            r.spec_tokenizer() == tokenizer,
            r.spec_session() == session,
            r.spec_pooling() == pooling,
            r.spec_quantization() == quantization,
            r.spec_output_key() == output_key,
    {
        let names = session_input_names(&session);
        let need_token_type_ids = needs_token_type_ids(&names);
        TextEmbedding { tokenizer, pooling, session, need_token_type_ids, quantization, output_key }
    }

    /// The pooling strategy; `None` leaves it to the model family's default.
    pub fn pooling(&self) -> (r: Option<Pooling>)
        ensures
            r == self.spec_pooling(),
    {
        self.pooling
    }

    /// Whether the graph takes token type ids as an input.
    pub fn need_token_type_ids(&self) -> (r: bool)
        ensures
            r == self.spec_need_token_type_ids(),
    {
        self.need_token_type_ids
    }

    /// The quantization mode of the model.
    pub fn quantization(&self) -> (r: QuantizationMode)
        ensures
            r == self.spec_quantization(),
    {
        self.quantization
    }

    /// The output tensor selector, if one was given.
    pub fn output_key(&self) -> (r: Option<OutputKey>)
        ensures
            r == self.spec_output_key(),
    {
        self.output_key
    }
}

} // verus!
