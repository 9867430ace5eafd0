//! Core of a plugin-based text-to-speech pipeline: the framed subprocess
//! protocol, the plugin manifest model and registry, the media-type
//! validator, the stage sequencer, and the job-status table.
//!
//! Everything that decides — framing, classification, validation,
//! sequencing, bookkeeping — lives here, stated in contracts and checked
//! by Verus.  Reading descriptor files, spawning plugin subprocesses and
//! serving requests are left to the binaries built on top.

pub mod cli;
pub mod jobs;
pub mod options;
pub mod orchestration;
pub mod pipeline;
pub mod plugin;
pub mod protocol;
pub mod registry;
pub mod text;
pub mod validate;

pub use cli::{parse_args, ParsedArgs};
pub use jobs::{JobState, JobStatus};
pub use orchestration::{
    Input, Meta, Orchestration, Output, PipelineOrchestration, PipelineSection, PluginConfig,
    TtsConfig,
};
pub use pipeline::{
    build_stage_plan, plan_from_plugins, start_run, PipelineRun, StageFailure, StagePlan,
};
pub use plugin::{
    ManifestCapabilities, Plugin, PluginManifest, PluginOptions, PluginType, PostProcessor,
    PreProcessor, Tts,
};
pub use protocol::{read_frame, write_frame, ErrorFrame, Handshake, PROTOCOL_VERSION};
pub use registry::{partition_selection, PipelineSelection, PluginRegistry, PluginScanEntry,
    RegistryError};
pub use validate::{types_intersect, validate_orchestration_types, CapabilityTable,
    ValidationError};
