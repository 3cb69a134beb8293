//! Types of std, ort and tokenizers that the library carries through without reading.
use vstd::prelude::*;

verus! {

#[verifier::external_type_specification]
#[verifier::external_body]
pub struct ExPathBuf(std::path::PathBuf);

#[verifier::external_type_specification]
#[verifier::external_body]
pub struct ExPath(std::path::Path);

/// Relies on `PathBuf`'s `Clone`, so that values holding a path can be cloned; nothing is
/// claimed of the copy.
pub assume_specification[ <std::path::PathBuf as Clone>::clone ](p: &std::path::PathBuf) -> std::path::PathBuf;

#[verifier::external_type_specification]
#[verifier::external_body]
pub struct ExExecutionProviderDispatch(ort::ep::ExecutionProviderDispatch);

#[verifier::external_type_specification]
#[verifier::external_body]
pub struct ExSession(ort::session::Session);

#[verifier::external_type_specification]
#[verifier::external_body]
pub struct ExTokenizer(tokenizers::Tokenizer);

} // verus!
