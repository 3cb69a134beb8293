//! Options for catalog models: each model family declares its own default sequence length.
use vstd::prelude::*;
use ort::ep::ExecutionProviderDispatch;
use crate::common::DEFAULT_MAX_LENGTH;

verus! {

/// A model family that declares the default upper bound on its sequence length.
pub trait HasMaxLength {
    /// The family's default, as used in contracts.
    spec fn spec_max_length() -> usize;

    /// The family's default maximum sequence length.
    fn max_length() -> (r: usize)
        ensures
            r == Self::spec_max_length(),
    ;
}

/// The catalog of named text embedding models.
#[derive(Debug, Clone, Copy, PartialEq, Eq, Structural)]
pub enum EmbeddingModel {
    AllMiniLML6V2,
    AllMiniLML12V2,
    BGEBaseENV15,
    BGESmallENV15,
    BGELargeENV15,
    NomicEmbedTextV15,
    MultilingualE5Small,
    MultilingualE5Base,
}

impl HasMaxLength for EmbeddingModel {
    open spec fn spec_max_length() -> usize {
        DEFAULT_MAX_LENGTH
    }

    fn max_length() -> (r: usize) {
        DEFAULT_MAX_LENGTH
    }
}

/// Options for a named catalog model of family `M`.
///
/// The builder methods consume the value and return the updated one. `max_length` is not
/// validated here: an unusable value is refused where it is used, not when it is set.
#[derive(Clone)]
pub struct InitOptionsWithLength<M> {
    pub model_name: M,
    pub execution_providers: Vec<ExecutionProviderDispatch>,
    pub max_length: usize,
}

/// Options for initializing a catalog text embedding model.
pub type TextInitOptions = InitOptionsWithLength<EmbeddingModel>;

impl<M> InitOptionsWithLength<M> {
    /// The options with `execution_providers` replaced.
    pub open spec fn spec_with_execution_providers(self, execution_providers: Vec<ExecutionProviderDispatch>) -> Self {
        InitOptionsWithLength { model_name: self.model_name, execution_providers, max_length: self.max_length }
    }

    /// The options with `max_length` replaced.
    pub open spec fn spec_with_max_length(self, max_length: usize) -> Self {
        InitOptionsWithLength { model_name: self.model_name, execution_providers: self.execution_providers, max_length }
    }
}

/// Setting the length and setting the execution providers touch different fields, so
/// they may be applied in either order with the same result.
pub proof fn lemma_catalog_builders_commute<M>(
    options: InitOptionsWithLength<M>,
    max_length: usize,
    execution_providers: Vec<ExecutionProviderDispatch>,
)
    ensures
        options.spec_with_max_length(max_length).spec_with_execution_providers(execution_providers)
            == options.spec_with_execution_providers(execution_providers).spec_with_max_length(max_length),
{
}

impl<M: HasMaxLength> InitOptionsWithLength<M> {
    /// Options for `model_name` with no execution providers and the family's default length.
    pub fn new(model_name: M) -> (r: Self)
        ensures
            r.model_name == model_name,
            r.execution_providers@ == Seq::<ExecutionProviderDispatch>::empty(),
            r.max_length == M::spec_max_length(),
    {
        InitOptionsWithLength {
            model_name,
            execution_providers: Vec::new(),
            max_length: M::max_length(),
        }
    }

    /// Replaces the execution providers, most preferred first; the other fields are kept.
    pub fn with_execution_providers(self, execution_providers: Vec<ExecutionProviderDispatch>) -> (r: Self)
        ensures
            r == self.spec_with_execution_providers(execution_providers),
    {
        let mut s = self;
        s.execution_providers = execution_providers;
        s
    }

    /// Replaces the maximum sequence length; the other fields are kept.
    pub fn with_max_length(self, max_length: usize) -> (r: Self)
        ensures
            r == self.spec_with_max_length(max_length),
    {
        let mut s = self;
        s.max_length = max_length;
        s
    }
}

} // verus!
