//! Orchestration document model: metadata, input, stage configurations,
//! and output.  Parsing the on-disk document is the caller's concern;
//! this is the in-memory form the validator and executor consume.

use vstd::prelude::*;

use crate::plugin::{OptionValue, OptionValueView};

verus! {

/// Pipeline metadata block.
pub struct Meta {
    pub name: String,
    pub version: String,
    pub author: String,
}

/// Input descriptor: payload kind and source path.
pub struct Input {
    pub kind: String,
    pub source: String,
}

/// One configured stage (pre-processor, converter or post-processor):
/// plugin name, module directory, enable flag, and option overrides.
pub struct PluginConfig {
    pub name: String,
    pub module: String,
    pub enabled: bool,
    pub options: Option<Vec<(String, OptionValue)>>,
}

/// The single text-to-speech stage: plugin name, module directory and
/// voice parameters.  Rate and pitch are carried in the string form they
/// are transported in.
pub struct TtsConfig {
    pub name: String,
    pub module: String,
    pub voice: Option<String>,
    pub rate: Option<String>,
    pub pitch: Option<String>,
    pub output_format: Option<String>,
}

/// Output descriptor: artifact kind, destination path, overwrite flag.
pub struct Output {
    pub kind: String,
    pub path: String,
    pub overwrite: Option<bool>,
}

/// Full orchestration document.
pub struct Orchestration {
    pub meta: Meta,
    pub input: Input,
    pub pre_processors: Option<Vec<PluginConfig>>,
    pub tts: TtsConfig,
    pub audio_converters: Option<Vec<PluginConfig>>,
    pub post_processors: Option<Vec<PluginConfig>>,
    pub output: Output,
}

/// Alternative document shape: a bare pipeline order plus per-plugin
/// option tables.
pub struct PipelineSection {
    pub order: Vec<String>,
}

/// Alternative document: order section and plugin-keyed option tables.
pub struct PipelineOrchestration {
    pub pipeline: PipelineSection,
    pub plugin_options: Vec<(String, Vec<(String, OptionValue)>)>,
}

/// Mathematical view of a stage configuration.
pub struct PluginConfigView {
    pub name: Seq<char>,
    pub module: Seq<char>,
    pub enabled: bool,
    pub options: Option<Seq<(Seq<char>, OptionValueView)>>,
}

impl DeepView for PluginConfig {
    type V = PluginConfigView;

    open spec fn deep_view(&self) -> PluginConfigView {
        PluginConfigView {
            name: self.name@,
            module: self.module@,
            enabled: self.enabled,
            options: self.options.deep_view(),
        }
    }
}

/// Mathematical view of the text-to-speech stage configuration.
pub struct TtsConfigView {
    pub name: Seq<char>,
    pub module: Seq<char>,
    pub voice: Option<Seq<char>>,
    pub rate: Option<Seq<char>>,
    pub pitch: Option<Seq<char>>,
    pub output_format: Option<Seq<char>>,
}

impl DeepView for TtsConfig {
    type V = TtsConfigView;

    open spec fn deep_view(&self) -> TtsConfigView {
        TtsConfigView {
            name: self.name@,
            module: self.module@,
            voice: self.voice.deep_view(),
            rate: self.rate.deep_view(),
            pitch: self.pitch.deep_view(),
            output_format: self.output_format.deep_view(),
        }
    }
}

/// Mathematical view of an orchestration document, restricted to what
/// the validator and executor read: the stage sections.
pub struct OrchestrationView {
    pub input_source: Seq<char>,
    pub pre_processors: Option<Seq<PluginConfigView>>,
    pub tts: TtsConfigView,
    pub audio_converters: Option<Seq<PluginConfigView>>,
    pub post_processors: Option<Seq<PluginConfigView>>,
    pub output_path: Seq<char>,
}

impl DeepView for Orchestration {
    type V = OrchestrationView;

    open spec fn deep_view(&self) -> OrchestrationView {
        OrchestrationView {
            input_source: self.input.source@,
            pre_processors: self.pre_processors.deep_view(),
            tts: self.tts.deep_view(),
            audio_converters: self.audio_converters.deep_view(),
            post_processors: self.post_processors.deep_view(),
            output_path: self.output.path@,
        }
    }
}

} // verus!
