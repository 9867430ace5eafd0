//! Type intersection and orchestration validation.

use crusty_core::orchestration::{Input, Meta, Orchestration, Output, PluginConfig, TtsConfig};
use crusty_core::plugin::{ManifestCapabilities, PluginManifest, PluginType};
use crusty_core::registry::{PluginRegistry, PluginScanEntry};
use crusty_core::validate::{types_intersect, validate_orchestration_types, CapabilityTable};

#[test]
fn types_intersect_yes() {
    let a = vec!["text/plain".to_string(), "text".to_string()];
    let b = vec!["text".to_string()];
    assert!(types_intersect(&a, &b));
}

#[test]
fn types_intersect_no() {
    let a = vec!["audio/raw".to_string()];
    let b = vec!["text/plain".to_string()];
    assert!(!types_intersect(&a, &b));
}

#[test]
fn types_intersect_is_order_independent() {
    let a = vec!["audio/wav".to_string(), "audio/raw".to_string()];
    let b = vec!["audio/raw".to_string(), "audio/ogg".to_string()];
    assert!(types_intersect(&a, &b));
    assert!(types_intersect(&b, &a));
    let empty: Vec<String> = Vec::new();
    assert!(!types_intersect(&a, &empty));
    assert!(!types_intersect(&empty, &a));
}

fn caps(input: Option<Vec<&str>>, output: Option<Vec<&str>>) -> ManifestCapabilities {
    ManifestCapabilities {
        input: input.map(|v| v.into_iter().map(|s| s.to_string()).collect()),
        output: output.map(|v| v.into_iter().map(|s| s.to_string()).collect()),
        mode: None,
        preprocessor: None,
        tts: None,
        postprocessor: None,
        output_formats: None,
    }
}

fn minimal_orchestration(tts_module: &str) -> Orchestration {
    Orchestration {
        meta: Meta {
            name: "t".to_string(),
            version: "0.1".to_string(),
            author: "a".to_string(),
        },
        input: Input { kind: "text".to_string(), source: "in.txt".to_string() },
        pre_processors: None,
        tts: TtsConfig {
            name: "tts".to_string(),
            module: tts_module.to_string(),
            voice: None,
            rate: None,
            pitch: None,
            output_format: None,
        },
        audio_converters: None,
        post_processors: None,
        output: Output {
            kind: "file".to_string(),
            path: "out.bin".to_string(),
            overwrite: None,
        },
    }
}

#[test]
fn validate_orchestration_types_ok_with_manifests() {
    let orch = minimal_orchestration("tts-plugin");
    let table: CapabilityTable = vec![(
        "tts-plugin".to_string(),
        caps(Some(vec!["text/plain", "text"]), Some(vec!["audio/wav"])),
    )];
    assert!(validate_orchestration_types(&orch, &table).is_ok());
}

#[test]
fn validate_orchestration_types_mismatch_fails() {
    // The text-to-speech stage declares only audio input; the pipeline
    // sends text, so validation fails before anything would run, naming
    // the stage and the types on both sides.
    let orch = minimal_orchestration("tts-plugin");
    let table: CapabilityTable = vec![(
        "tts-plugin".to_string(),
        caps(Some(vec!["audio/raw"]), Some(vec!["audio/wav"])),
    )];
    let err = validate_orchestration_types(&orch, &table).unwrap_err();
    assert_eq!(err.kind, PluginType::Tts);
    assert_eq!(err.stage_name, "tts");
    assert_eq!(err.pipeline_output, vec!["text/plain".to_string(), "text".to_string()]);
    assert_eq!(err.declared_input, vec!["audio/raw".to_string()]);
    assert!(err.message().contains("does not match input"));
}

#[test]
fn undeclared_capabilities_never_block() {
    // No table entry at all: every link is treated as a universal
    // pass-through.
    let mut orch = minimal_orchestration("tts-plugin");
    orch.pre_processors = Some(vec![PluginConfig {
        name: "pre".to_string(),
        module: "pre-plugin".to_string(),
        enabled: true,
        options: None,
    }]);
    let table: CapabilityTable = Vec::new();
    assert!(validate_orchestration_types(&orch, &table).is_ok());
}

#[test]
fn disabled_stage_is_not_validated() {
    // The disabled pre-processor would be incompatible, but a disabled
    // stage never takes part in the chain.
    let mut orch = minimal_orchestration("tts-plugin");
    orch.pre_processors = Some(vec![PluginConfig {
        name: "off".to_string(),
        module: "off-plugin".to_string(),
        enabled: false,
        options: None,
    }]);
    let table: CapabilityTable = vec![(
        "off-plugin".to_string(),
        caps(Some(vec!["audio/raw"]), None),
    )];
    assert!(validate_orchestration_types(&orch, &table).is_ok());
}

#[test]
fn converter_chain_uses_previous_stage_output() {
    // The converter accepts what the TTS stage declares it produces.
    let mut orch = minimal_orchestration("tts-plugin");
    orch.audio_converters = Some(vec![PluginConfig {
        name: "conv".to_string(),
        module: "conv-plugin".to_string(),
        enabled: true,
        options: None,
    }]);
    let table: CapabilityTable = vec![
        (
            "tts-plugin".to_string(),
            caps(Some(vec!["text"]), Some(vec!["audio/wav"])),
        ),
        (
            "conv-plugin".to_string(),
            caps(Some(vec!["audio/wav"]), Some(vec!["audio/mp3"])),
        ),
    ];
    assert!(validate_orchestration_types(&orch, &table).is_ok());

    // But a converter accepting only what nothing produces fails, with
    // its own name in the report.
    let table2: CapabilityTable = vec![
        (
            "tts-plugin".to_string(),
            caps(Some(vec!["text"]), Some(vec!["audio/wav"])),
        ),
        (
            "conv-plugin".to_string(),
            caps(Some(vec!["audio/ogg"]), None),
        ),
    ];
    let err = validate_orchestration_types(&orch, &table2).unwrap_err();
    assert_eq!(err.kind, PluginType::Converter);
    assert_eq!(err.stage_name, "conv");
}

#[test]
fn registry_and_validate_roundtrip() {
    let manifest = PluginManifest {
        name: "my-tts".to_string(),
        version: "0.1".to_string(),
        api_version: None,
        role: Some("tts".to_string()),
        description: None,
        entrypoint: None,
        capabilities: Some(caps(Some(vec!["text/plain"]), Some(vec!["audio/wav"]))),
        options: None,
    };
    let declared = manifest.capabilities.clone().unwrap();
    let entries = vec![PluginScanEntry {
        path: "plugins/my-tts".to_string(),
        manifest: Ok(manifest),
    }];
    let reg = PluginRegistry::load_plugins(&entries).unwrap();
    assert_eq!(reg.tts.len(), 1);
    assert_eq!(reg.get("my-tts").unwrap().name, "my-tts");

    let orch = minimal_orchestration("plugins/my-tts");
    let table: CapabilityTable = vec![("plugins/my-tts".to_string(), declared)];
    assert!(validate_orchestration_types(&orch, &table).is_ok());
}
