use std::path::{Path, PathBuf};

use fastembed::{
    needs_token_type_ids, EmbeddingModel, HasMaxLength, InitOptionsUserDefined, OnnxSource,
    OutputKey, Pooling, QuantizationMode, TextInitOptions, TokenizerFiles,
    UserDefinedEmbeddingModel, DEFAULT_MAX_LENGTH,
};

fn empty_tokenizer_files() -> TokenizerFiles {
    TokenizerFiles {
        tokenizer_file: Vec::new(),
        config_file: Vec::new(),
        special_tokens_map_file: Vec::new(),
        tokenizer_config_file: Vec::new(),
    }
}

fn provider_names(providers: &[ort::ep::ExecutionProviderDispatch]) -> Vec<&'static str> {
    providers.iter().map(|p| p.name()).collect()
}

#[test]
fn bytes_become_memory_source() {
    let bytes: Vec<u8> = vec![9, 8, 7];
    assert_eq!(OnnxSource::from(bytes.clone()), OnnxSource::Memory(bytes));
    assert_eq!(OnnxSource::from(Vec::new()), OnnxSource::Memory(Vec::new()));
}

#[test]
fn paths_become_file_source() {
    let owned = PathBuf::from("models/model.onnx");
    let borrowed: &Path = Path::new("models/model.onnx");
    let from_owned = OnnxSource::from(owned.clone());
    let from_borrowed = OnnxSource::from(borrowed);
    assert_eq!(from_owned, OnnxSource::File(owned));
    assert_eq!(from_borrowed, OnnxSource::File(PathBuf::from("models/model.onnx")));
    assert_eq!(from_owned, from_borrowed);
}

#[test]
fn borrowed_path_is_copied_not_replaced() {
    let source = OnnxSource::from(Path::new("/data/a.onnx"));
    assert_ne!(source, OnnxSource::File(PathBuf::from("/data/b.onnx")));
    assert_ne!(source, OnnxSource::File(PathBuf::new()));
}

#[test]
fn catalog_options_start_from_family_default() {
    let options = TextInitOptions::new(EmbeddingModel::BGESmallENV15);
    assert_eq!(options.model_name, EmbeddingModel::BGESmallENV15);
    assert_eq!(options.max_length, EmbeddingModel::max_length());
    assert_eq!(options.max_length, 512);
    assert!(options.execution_providers.is_empty());
}

#[test]
fn user_defined_options_start_from_global_default() {
    let options = InitOptionsUserDefined::new();
    assert_eq!(options.max_length, DEFAULT_MAX_LENGTH);
    assert_eq!(options.max_length, 512);
    assert!(options.execution_providers.is_empty());
    let defaulted = InitOptionsUserDefined::default();
    assert_eq!(defaulted.max_length, DEFAULT_MAX_LENGTH);
    assert!(defaulted.execution_providers.is_empty());
}

#[test]
fn conversion_keeps_empty_providers_and_length_one() {
    let options = TextInitOptions::new(EmbeddingModel::AllMiniLML6V2).with_max_length(1);
    let converted = InitOptionsUserDefined::from(options);
    assert_eq!(converted.max_length, 1);
    assert!(converted.execution_providers.is_empty());
}

#[test]
fn conversion_keeps_provider_order() {
    let providers = vec![
        ort::ep::CPU::default().build().error_on_failure(),
        ort::ep::CPU::default().build(),
    ];
    let options = TextInitOptions::new(EmbeddingModel::BGEBaseENV15)
        .with_execution_providers(providers)
        .with_max_length(384);
    let converted: InitOptionsUserDefined = options.into();
    assert_eq!(converted.max_length, 384);
    assert_eq!(
        provider_names(&converted.execution_providers),
        vec!["CPUExecutionProvider", "CPUExecutionProvider"]
    );
}

#[test]
fn catalog_builders_commute() {
    let a = TextInitOptions::new(EmbeddingModel::BGESmallENV15)
        .with_max_length(512)
        .with_execution_providers(Vec::new());
    let b = TextInitOptions::new(EmbeddingModel::BGESmallENV15)
        .with_execution_providers(Vec::new())
        .with_max_length(512);
    assert_eq!(a.max_length, b.max_length);
    assert_eq!(a.model_name, b.model_name);
    assert!(a.execution_providers.is_empty() && b.execution_providers.is_empty());
}

#[test]
fn user_defined_builders_commute() {
    let a = InitOptionsUserDefined::new()
        .with_max_length(128)
        .with_execution_providers(vec![ort::ep::CPU::default().build()]);
    let b = InitOptionsUserDefined::new()
        .with_execution_providers(vec![ort::ep::CPU::default().build()])
        .with_max_length(128);
    assert_eq!(a.max_length, 128);
    assert_eq!(b.max_length, 128);
    assert_eq!(provider_names(&a.execution_providers), provider_names(&b.execution_providers));
    assert_eq!(provider_names(&a.execution_providers), vec!["CPUExecutionProvider"]);
}

#[test]
fn descriptor_defaults_and_builders() {
    let model = UserDefinedEmbeddingModel::new(vec![1u8], empty_tokenizer_files());
    assert_eq!(model.quantization, QuantizationMode::Unquantized);
    assert_eq!(model.pooling, None);
    let a = model.clone().with_quantization(QuantizationMode::Dynamic).with_pooling(Pooling::Cls);
    let b = model.with_pooling(Pooling::Cls).with_quantization(QuantizationMode::Dynamic);
    assert_eq!(a, b);
    assert_eq!(a.quantization, QuantizationMode::Dynamic);
    assert_eq!(a.pooling, Some(Pooling::Cls));
    assert_eq!(a.onnx_source, OnnxSource::Memory(vec![1u8]));
}

#[test]
fn descriptor_from_four_bytes() {
    let model = UserDefinedEmbeddingModel::new(vec![0u8, 1, 2, 3], empty_tokenizer_files());
    assert_eq!(model.onnx_source, OnnxSource::Memory(vec![0, 1, 2, 3]));
    assert_eq!(model.quantization, QuantizationMode::Unquantized);
    assert_eq!(model.pooling, None);
    assert_eq!(model.output_key, None::<OutputKey>);
    assert_eq!(model.tokenizer_files, empty_tokenizer_files());
}

#[test]
fn descriptor_from_path() {
    let model = UserDefinedEmbeddingModel::new(Path::new("m.onnx"), empty_tokenizer_files());
    assert_eq!(model.onnx_source, OnnxSource::File(PathBuf::from("m.onnx")));
    let model = UserDefinedEmbeddingModel::new(PathBuf::from("n.onnx"), empty_tokenizer_files())
        .with_quantization(QuantizationMode::Static)
        .with_pooling(Pooling::Mean);
    assert_eq!(model.onnx_source, OnnxSource::File(PathBuf::from("n.onnx")));
    assert_eq!(model.quantization, QuantizationMode::Static);
    assert_eq!(model.pooling, Some(Pooling::Mean));
}

#[test]
fn override_survives_conversion() {
    let options = TextInitOptions::new(EmbeddingModel::BGESmallENV15);
    assert_eq!(options.max_length, 512);
    let converted = InitOptionsUserDefined::from(options.with_max_length(256));
    assert_eq!(converted.max_length, 256);
    assert_ne!(converted.max_length, DEFAULT_MAX_LENGTH);
}

#[test]
fn token_type_ids_detected_by_name() {
    let names = vec!["input_ids".to_string(), "attention_mask".to_string(), "token_type_ids".to_string()];
    assert!(needs_token_type_ids(&names));
    let names = vec!["input_ids".to_string(), "attention_mask".to_string()];
    assert!(!needs_token_type_ids(&names));
    assert!(!needs_token_type_ids(&Vec::new()));
    let names = vec!["token_type_id".to_string(), "Token_type_ids".to_string()];
    assert!(!needs_token_type_ids(&names));
}
