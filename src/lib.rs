//! Model-source and initialization-option resolution for text embedding models.
//!
//! A caller either names a catalog model and builds [`TextInitOptions`], or brings
//! its own weights through [`UserDefinedEmbeddingModel`] and [`InitOptionsUserDefined`].
//! Both paths end in a [`TextEmbedding`] handle.
pub mod common;
pub mod external;
pub mod init;
pub mod pooling;
pub mod text_embedding;

pub use common::{TokenizerFiles, DEFAULT_MAX_LENGTH};
pub use init::{EmbeddingModel, HasMaxLength, InitOptionsWithLength, TextInitOptions};
pub use pooling::{OutputKey, Pooling, QuantizationMode};
pub use text_embedding::{
    needs_token_type_ids, InitOptionsUserDefined, OnnxSource, TextEmbedding, UserDefinedEmbeddingModel,
};

