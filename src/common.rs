//! Values shared by both initialization paths.
use vstd::prelude::*;

verus! {

/// Default upper bound on the tokenized sequence length.
pub const DEFAULT_MAX_LENGTH: usize = 512;

/// The raw file contents needed to rebuild a tokenizer.
///
/// This layer never reads them; it forwards them unchanged to the tokenizer builder.
#[derive(Debug, Clone, PartialEq, Eq)]
pub struct TokenizerFiles {
    pub tokenizer_file: Vec<u8>,
    pub config_file: Vec<u8>,
    pub special_tokens_map_file: Vec<u8>,
    pub tokenizer_config_file: Vec<u8>,
}

} // verus!
