//! Registry building: role resolution, option defaults, lookup and
//! ordering.

use crusty_core::plugin::{
    ManifestCapabilities, OptionDefault, OptionValue, PluginManifest, PluginType,
};
use crusty_core::registry::{partition_selection, PluginRegistry, PluginScanEntry};

fn bare_manifest(name: &str, role: Option<&str>) -> PluginManifest {
    PluginManifest {
        name: name.to_string(),
        version: "0.1.0".to_string(),
        api_version: None,
        role: role.map(|s| s.to_string()),
        description: None,
        entrypoint: None,
        capabilities: None,
        options: None,
    }
}

fn no_caps() -> ManifestCapabilities {
    ManifestCapabilities {
        input: None,
        output: None,
        mode: None,
        preprocessor: None,
        tts: None,
        postprocessor: None,
        output_formats: None,
    }
}

fn entry(path: &str, manifest: PluginManifest) -> PluginScanEntry {
    PluginScanEntry { path: path.to_string(), manifest: Ok(manifest) }
}

#[test]
fn load_plugins_discovers_one() {
    let mut m = bare_manifest("my-tts", Some("tts"));
    m.capabilities = Some(ManifestCapabilities {
        input: Some(vec!["text/plain".to_string()]),
        output: Some(vec!["audio/wav".to_string()]),
        ..no_caps()
    });
    let reg = PluginRegistry::load_plugins(&vec![entry("plugins/my-tts", m)]).unwrap();
    assert_eq!(reg.tts.len(), 1);
    assert_eq!(reg.tts[0].name, "my-tts");
    assert!(reg.get("my-tts").is_some());
    assert!(reg.get("missing").is_none());
}

#[test]
fn load_plugins_empty_dir_ok() {
    let reg = PluginRegistry::load_plugins(&Vec::new()).unwrap();
    assert!(reg.all().is_empty());
}

#[test]
fn pipeline_order_filters() {
    let reg = PluginRegistry::load_plugins(&vec![entry(
        "plugins/my-tts",
        bare_manifest("my-tts", Some("tts")),
    )])
    .unwrap();
    let order = reg.pipeline_order(&vec!["my-tts".to_string()]);
    assert_eq!(order.len(), 1);
    assert_eq!(order[0].name, "my-tts");
    let order_missing = reg.pipeline_order(&vec!["my-tts".to_string(), "nope".to_string()]);
    assert_eq!(order_missing.len(), 1);
}

#[test]
fn registry_fail_fast_on_malformed_descriptor() {
    let entries = vec![
        entry("plugins/good", bare_manifest("good", Some("tts"))),
        PluginScanEntry {
            path: "plugins/bad".to_string(),
            manifest: Err("expected a table".to_string()),
        },
    ];
    match PluginRegistry::load_plugins(&entries) {
        Err(err) => {
            assert_eq!(err.path, "plugins/bad");
            assert_eq!(err.message, "expected a table");
        },
        Ok(_) => panic!("a malformed descriptor must fail the whole scan"),
    }
}

#[test]
fn registry_fail_fast_reports_first_failure() {
    let entries = vec![
        PluginScanEntry { path: "plugins/one".to_string(), manifest: Err("bad one".to_string()) },
        PluginScanEntry { path: "plugins/two".to_string(), manifest: Err("bad two".to_string()) },
    ];
    match PluginRegistry::load_plugins(&entries) {
        Err(err) => assert_eq!(err.path, "plugins/one"),
        Ok(_) => panic!("a malformed descriptor must fail the whole scan"),
    }
}

#[test]
fn role_synonyms_resolve_case_insensitively() {
    let reg = PluginRegistry::load_plugins(&vec![
        entry("a", bare_manifest("a", Some("Synth"))),
        entry("b", bare_manifest("b", Some("POSTPROCESSOR"))),
        entry("c", bare_manifest("c", Some("encode"))),
        entry("d", bare_manifest("d", Some("mystery"))),
    ])
    .unwrap();
    assert_eq!(reg.get("a").unwrap().plugin_type, PluginType::Tts);
    assert_eq!(reg.get("b").unwrap().plugin_type, PluginType::Post);
    assert_eq!(reg.get("c").unwrap().plugin_type, PluginType::Converter);
    // An unrecognized declared role falls back to pre-processor.
    assert_eq!(reg.get("d").unwrap().plugin_type, PluginType::Pre);
}

#[test]
fn role_falls_back_to_capability_flags_then_default() {
    let mut flagged = bare_manifest("flagged", None);
    flagged.capabilities = Some(ManifestCapabilities { tts: Some(true), ..no_caps() });
    let mut post_flagged = bare_manifest("post-flagged", None);
    post_flagged.capabilities =
        Some(ManifestCapabilities { postprocessor: Some(true), ..no_caps() });
    let plain = bare_manifest("plain", None);
    let reg = PluginRegistry::load_plugins(&vec![
        entry("f", flagged),
        entry("p", post_flagged),
        entry("q", plain),
    ])
    .unwrap();
    assert_eq!(reg.get("flagged").unwrap().plugin_type, PluginType::Tts);
    assert_eq!(reg.get("post-flagged").unwrap().plugin_type, PluginType::Post);
    assert_eq!(reg.get("plain").unwrap().plugin_type, PluginType::Pre);
}

#[test]
fn option_defaults_are_coerced_to_strings() {
    let mut m = bare_manifest("opts", Some("tts"));
    m.options = Some(vec![
        ("voice".to_string(), OptionValue::Text("en".to_string())),
        ("rate".to_string(), OptionValue::Integer(140)),
        ("loud".to_string(), OptionValue::Boolean(true)),
        ("pitch".to_string(), OptionValue::Decimal("1.5".to_string())),
        (
            "style".to_string(),
            OptionValue::Record(Some(OptionDefault::Text("calm".to_string()))),
        ),
        ("bare-record".to_string(), OptionValue::Record(None)),
        ("weird".to_string(), OptionValue::Other),
    ]);
    let reg = PluginRegistry::load_plugins(&vec![entry("o", m)]).unwrap();
    let p = reg.get("opts").unwrap();
    let opts: &Vec<(String, String)> = &p.options;
    assert_eq!(opts.len(), 5);
    assert_eq!(opts[0], ("voice".to_string(), "en".to_string()));
    assert_eq!(opts[1], ("rate".to_string(), "140".to_string()));
    assert_eq!(opts[2], ("loud".to_string(), "true".to_string()));
    assert_eq!(opts[3], ("pitch".to_string(), "1.5".to_string()));
    assert_eq!(opts[4], ("style".to_string(), "calm".to_string()));
}

#[test]
fn later_entry_of_same_name_replaces_earlier() {
    let reg = PluginRegistry::load_plugins(&vec![
        entry("first", bare_manifest("dup", Some("pre"))),
        entry("second", bare_manifest("dup", Some("tts"))),
    ])
    .unwrap();
    let p = reg.get("dup").unwrap();
    assert_eq!(p.path, "second");
    assert_eq!(p.plugin_type, PluginType::Tts);
    assert_eq!(reg.all().len(), 1);
}

#[test]
fn partition_selection_keeps_first_tts_and_choice_order() {
    let reg = PluginRegistry::load_plugins(&vec![
        entry("0", bare_manifest("p1", Some("pre"))),
        entry("1", bare_manifest("t1", Some("tts"))),
        entry("2", bare_manifest("c1", Some("converter"))),
        entry("3", bare_manifest("t2", Some("tts"))),
        entry("4", bare_manifest("q1", Some("post"))),
    ])
    .unwrap();
    let all: Vec<_> = reg.all().into_iter().cloned().collect();
    // Choices out of role order, with a duplicate role and one
    // out-of-range index.
    let picks = vec![4usize, 1, 3, 0, 2, 99];
    let sel = partition_selection(&all, &picks);
    assert_eq!(sel.tts.as_ref().map(|p| p.name.as_str()), Some("t1"));
    let pre_names: Vec<&str> = sel.pre.iter().map(|p| p.name.as_str()).collect();
    assert_eq!(pre_names, vec!["p1"]);
    let conv_names: Vec<&str> = sel.converters.iter().map(|p| p.name.as_str()).collect();
    assert_eq!(conv_names, vec!["c1"]);
    let post_names: Vec<&str> = sel.post.iter().map(|p| p.name.as_str()).collect();
    assert_eq!(post_names, vec!["q1"]);
}
