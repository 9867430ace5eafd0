//! Stage planning and payload threading through a run.

use crusty_core::orchestration::{Input, Meta, Orchestration, Output, PluginConfig, TtsConfig};
use crusty_core::pipeline::{
    build_stage_plan, output_acceptable, plan_from_plugins, sample_input_for, start_run,
    PipelineError, StageFailure, StagePlan,
};
use crusty_core::plugin::{Plugin, PluginType};
use crusty_core::text::option_env_name;

#[test]
fn plugin_type_as_str() {
    assert_eq!(PluginType::Pre.as_str(), "pre");
    assert_eq!(PluginType::Tts.as_str(), "tts");
    assert_eq!(PluginType::Post.as_str(), "post");
    assert_eq!(PluginType::Converter.as_str(), "converter");
}

fn stage(name: &str, enabled: bool) -> PluginConfig {
    PluginConfig {
        name: name.to_string(),
        module: format!("plugins/{}", name),
        enabled,
        options: None,
    }
}

fn orchestration_with(
    pre: Vec<PluginConfig>,
    conv: Vec<PluginConfig>,
    post: Vec<PluginConfig>,
) -> Orchestration {
    Orchestration {
        meta: Meta {
            name: "t".to_string(),
            version: "0.1".to_string(),
            author: "a".to_string(),
        },
        input: Input { kind: "text".to_string(), source: "in.txt".to_string() },
        pre_processors: if pre.is_empty() { None } else { Some(pre) },
        tts: TtsConfig {
            name: "tts".to_string(),
            module: "plugins/tts".to_string(),
            voice: Some("en".to_string()),
            rate: None,
            pitch: None,
            output_format: None,
        },
        audio_converters: if conv.is_empty() { None } else { Some(conv) },
        post_processors: if post.is_empty() { None } else { Some(post) },
        output: Output {
            kind: "file".to_string(),
            path: "out.bin".to_string(),
            overwrite: None,
        },
    }
}

#[test]
fn stage_plan_is_in_pipeline_order() {
    let orch = orchestration_with(
        vec![stage("pre1", true), stage("pre2", true)],
        vec![stage("conv1", true)],
        vec![stage("post1", true)],
    );
    let plan = build_stage_plan(&orch);
    let names: Vec<&str> = plan.iter().map(|s| s.name.as_str()).collect();
    assert_eq!(names, vec!["pre1", "pre2", "tts", "conv1", "post1"]);
    let kinds: Vec<PluginType> = plan.iter().map(|s| s.kind).collect();
    assert_eq!(
        kinds,
        vec![
            PluginType::Pre,
            PluginType::Pre,
            PluginType::Tts,
            PluginType::Converter,
            PluginType::Post,
        ]
    );
    // The configured voice travels as a stage option.
    assert_eq!(plan[2].options, vec![("voice".to_string(), "en".to_string())]);
}

#[test]
fn disabled_stage_is_skipped_entirely() {
    let enabled_only = orchestration_with(vec![stage("pre1", true)], vec![], vec![]);
    let with_disabled = orchestration_with(
        vec![stage("pre1", true), stage("off", false)],
        vec![],
        vec![stage("post-off", false)],
    );
    let plan_a = build_stage_plan(&enabled_only);
    let plan_b = build_stage_plan(&with_disabled);
    let names_a: Vec<&str> = plan_a.iter().map(|s| s.name.as_str()).collect();
    let names_b: Vec<&str> = plan_b.iter().map(|s| s.name.as_str()).collect();
    assert_eq!(names_a, names_b);
    assert_eq!(names_b, vec!["pre1", "tts"]);
}

#[test]
fn run_scenario_echoing_tts_returns_input() {
    // One text-to-speech stage whose subprocess echoes its input: the
    // run's artifact is exactly the input text.
    let orch = orchestration_with(vec![], vec![], vec![]);
    let plan = build_stage_plan(&orch);
    let mut run = start_run(plan, b"Hello world".to_vec()).unwrap();
    assert!(!run.finished());
    assert_eq!(run.current_stage().name, "tts");
    let echoed = run.current_input().clone();
    run.apply_stage_output(true, echoed).unwrap();
    assert!(run.finished());
    assert_eq!(run.into_result(), b"Hello world".to_vec());
}

#[test]
fn run_threads_each_output_into_next_stage_input() {
    let orch = orchestration_with(
        vec![stage("pre1", true), stage("pre2", true)],
        vec![stage("conv1", true)],
        vec![],
    );
    let plan = build_stage_plan(&orch);
    let mut run = start_run(plan, b"one".to_vec()).unwrap();
    assert_eq!(run.current_input().as_slice(), b"one");
    run.apply_stage_output(true, b"two".to_vec()).unwrap();
    assert_eq!(run.current_input().as_slice(), b"two");
    run.apply_stage_output(true, b"three".to_vec()).unwrap();
    assert_eq!(run.current_input().as_slice(), b"three");
    run.apply_stage_output(true, b"four".to_vec()).unwrap();
    assert_eq!(run.current_input().as_slice(), b"four");
    run.apply_stage_output(true, b"five".to_vec()).unwrap();
    assert!(run.finished());
    assert_eq!(run.into_result(), b"five".to_vec());
}

#[test]
fn nonzero_exit_discards_partial_output() {
    let orch = orchestration_with(vec![], vec![], vec![]);
    let plan = build_stage_plan(&orch);
    let mut run = start_run(plan, b"Hello".to_vec()).unwrap();
    let failure = run.apply_stage_output(false, b"PARTIAL".to_vec()).unwrap_err();
    assert_eq!(failure, StageFailure::NonZeroExit);
    // The partial output did not become part of any artifact.
    assert!(!run.finished());
    assert_eq!(run.current_input().as_slice(), b"Hello");
}

#[test]
fn pre_processor_output_must_be_text() {
    let plan = vec![StagePlan {
        kind: PluginType::Pre,
        name: "pre".to_string(),
        module: "plugins/pre".to_string(),
        options: Vec::new(),
    }];
    let mut run = start_run(plan, b"hi".to_vec()).unwrap();
    let failure = run.apply_stage_output(true, vec![0xff, 0xfe]).unwrap_err();
    assert_eq!(failure, StageFailure::OutputNotText);
    assert_eq!(run.current_input().as_slice(), b"hi");
}

#[test]
fn run_rejects_non_text_input() {
    let orch = orchestration_with(vec![], vec![], vec![]);
    let plan = build_stage_plan(&orch);
    match start_run(plan, vec![0xff, 0x00]) {
        Err(e) => assert_eq!(e, PipelineError::InputNotText),
        Ok(_) => panic!("a non-text input must not start a run"),
    }
}

fn plugin(name: &str, t: PluginType) -> Plugin {
    Plugin {
        name: name.to_string(),
        plugin_type: t,
        path: format!("plugins/{}", name),
        options: Vec::new(),
        manifest: None,
    }
}

#[test]
fn plan_from_plugins_orders_by_role() {
    let plugins = vec![
        plugin("post1", PluginType::Post),
        plugin("tts1", PluginType::Tts),
        plugin("pre1", PluginType::Pre),
        plugin("conv1", PluginType::Converter),
        plugin("pre2", PluginType::Pre),
    ];
    let plan = plan_from_plugins(&plugins);
    let names: Vec<&str> = plan.iter().map(|s| s.name.as_str()).collect();
    assert_eq!(names, vec!["pre1", "pre2", "tts1", "post1", "conv1"]);
}

#[test]
fn option_env_name_uppercases_and_replaces_dashes() {
    assert_eq!(option_env_name(&"sample-rate".to_string()), "PLUGIN_OPT_SAMPLE_RATE");
    assert_eq!(option_env_name(&"voice".to_string()), "PLUGIN_OPT_VOICE");
}

#[test]
fn sample_inputs_and_verification_predicates_by_role() {
    assert_eq!(sample_input_for(PluginType::Pre), "Test input for pre-processor");
    assert_eq!(sample_input_for(PluginType::Tts), "Hello, world!");
    assert_eq!(sample_input_for(PluginType::Converter), "FAKE_AUDIO_BYTES");
    // Pre-processor output must decode as text.
    assert!(output_acceptable(PluginType::Pre, &Vec::new()));
    assert!(!output_acceptable(PluginType::Pre, &vec![0xff]));
    // Other roles must just produce something.
    assert!(output_acceptable(PluginType::Tts, &vec![0xff]));
    assert!(!output_acceptable(PluginType::Tts, &Vec::new()));
}
