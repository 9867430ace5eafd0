//! Pipeline sequencing: turn an orchestration into the ordered list of
//! enabled stage invocations, and thread one payload through them.
//!
//! Spawning each stage's subprocess is the caller's concern: the caller
//! asks for the next stage and its input, runs it, and hands back the
//! captured output together with the exit outcome.  Everything the run
//! decides — order, skipping, payload threading, the UTF-8 requirement
//! on pre-processor output, and the discarding of partial output on a
//! failed stage — is decided here.

use vstd::prelude::*;

use crate::options::{options_from_table, options_set, spec_options_set, spec_table_options};
use crate::orchestration::{Orchestration, OrchestrationView, PluginConfig, PluginConfigView,
    TtsConfig, TtsConfigView};
use crate::plugin::{clone_options, Plugin, PluginOptions, PluginType, PluginView};
use crate::text::check_utf8;
use vstd::utf8::valid_utf8;

verus! {

/// One planned stage invocation: role, stage name, module directory,
/// and the flat option table its subprocess receives.
pub struct StagePlan {
    pub kind: PluginType,
    pub name: String,
    pub module: String,
    pub options: PluginOptions,
}

/// Mathematical view of a planned stage.
#[verifier::ext_equal]
pub struct StagePlanView {
    pub kind: PluginType,
    pub name: Seq<char>,
    pub module: Seq<char>,
    pub options: Seq<(Seq<char>, Seq<char>)>,
}

impl DeepView for StagePlan {
    type V = StagePlanView;

    open spec fn deep_view(&self) -> StagePlanView {
        StagePlanView {
            kind: self.kind,
            name: self.name@,
            module: self.module@,
            options: self.options.deep_view(),
        }
    }
}

/// The plan of one section: its enabled stages in declared order, each
/// with its resolved option overrides; disabled stages contribute
/// nothing.
pub open spec fn spec_section_plan(stages: Seq<PluginConfigView>, kind: PluginType) -> Seq<
    StagePlanView,
>
    decreases stages.len(),
{
    if stages.len() == 0 {
        Seq::empty()
    } else {
        let prev = spec_section_plan(stages.drop_last(), kind);
        let s = stages.last();
        if s.enabled {
            prev.push(
                StagePlanView {
                    kind,
                    name: s.name,
                    module: s.module,
                    options: spec_table_options(s.options),
                },
            )
        } else {
            prev
        }
    }
}

/// The plan of an optional section.
pub open spec fn spec_opt_section_plan(
    stages: Option<Seq<PluginConfigView>>,
    kind: PluginType,
) -> Seq<StagePlanView> {
    match stages {
        None => Seq::empty(),
        Some(s) => spec_section_plan(s, kind),
    }
}

/// The flat option table of the text-to-speech stage: voice, rate and
/// pitch, each only when configured.
pub open spec fn spec_tts_options(t: TtsConfigView) -> Seq<(Seq<char>, Seq<char>)> {
    let o0 = Seq::<(Seq<char>, Seq<char>)>::empty();
    let o1 = match t.voice {
        Some(v) => spec_options_set(o0, "voice"@, v),
        None => o0,
    };
    let o2 = match t.rate {
        Some(r) => spec_options_set(o1, "rate"@, r),
        None => o1,
    };
    match t.pitch {
        Some(p) => spec_options_set(o2, "pitch"@, p),
        None => o2,
    }
}

/// The planned text-to-speech stage.
pub open spec fn spec_tts_plan(t: TtsConfigView) -> StagePlanView {
    StagePlanView {
        kind: PluginType::Tts,
        name: t.name,
        module: t.module,
        options: spec_tts_options(t),
    }
}

/// The full execution plan of an orchestration: enabled pre-processors
/// in declared order, then the single text-to-speech stage, then
/// enabled converters, then enabled post-processors.
pub open spec fn spec_stage_plan(o: OrchestrationView) -> Seq<StagePlanView> {
    spec_opt_section_plan(o.pre_processors, PluginType::Pre) + seq![spec_tts_plan(o.tts)]
        + spec_opt_section_plan(o.audio_converters, PluginType::Converter) + spec_opt_section_plan(
        o.post_processors,
        PluginType::Post,
    )
}

/// A disabled stage changes nothing: the plan of a section is the plan
/// of the same section with the disabled stage removed.
pub proof fn lemma_disabled_stage_not_planned(
    stages: Seq<PluginConfigView>,
    kind: PluginType,
    i: int,
)
    requires
        0 <= i < stages.len(),
        !stages[i].enabled,
    ensures
        spec_section_plan(stages, kind) == spec_section_plan(stages.remove(i), kind),
    decreases stages.len(),
{
    if i == stages.len() - 1 {
        assert(stages.remove(i) =~= stages.drop_last());
    } else {
        lemma_disabled_stage_not_planned(stages.drop_last(), kind, i);
        assert(stages.remove(i).drop_last() =~= stages.drop_last().remove(i));
        assert(stages.remove(i).last() == stages.last());
    }
}

/// Build the flat option table of the text-to-speech stage.
pub fn tts_options(t: &TtsConfig) -> (r: PluginOptions)
    ensures
        r.deep_view() == spec_tts_options(t.deep_view()),
{
    let mut opts: PluginOptions = Vec::new();
    assert(opts.deep_view() =~= Seq::<(Seq<char>, Seq<char>)>::empty());
    match &t.voice {
        Some(v) => options_set(&mut opts, "voice".to_owned(), v.clone()),
        None => {},
    }
    match &t.rate {
        Some(r) => options_set(&mut opts, "rate".to_owned(), r.clone()),
        None => {},
    }
    match &t.pitch {
        Some(p) => options_set(&mut opts, "pitch".to_owned(), p.clone()),
        None => {},
    }
    opts
}

/// Append one section's planned stages.
fn push_section_plan(acc: &mut Vec<StagePlan>, stages: &Vec<PluginConfig>, kind: PluginType)
    ensures
        final(acc).deep_view() == old(acc).deep_view() + spec_section_plan(
            stages.deep_view(),
            kind,
        ),
{
    let ghost sv = stages.deep_view();
    let ghost base = old(acc).deep_view();
    proof {
        assert(base + spec_section_plan(sv.subrange(0, 0), kind) =~= base);
    }
    let mut i: usize = 0;
    while i < stages.len()
        invariant
            i <= stages@.len(),
            sv == stages.deep_view(),
            sv.len() == stages@.len(),
            acc.deep_view() == base + spec_section_plan(sv.subrange(0, i as int), kind),
        decreases stages@.len() - i,
    {
        let s = &stages[i];
        assert(s.deep_view() == sv[i as int]);
        let ghost before = acc.deep_view();
        if s.enabled {
            let plan = StagePlan {
                kind,
                name: s.name.clone(),
                module: s.module.clone(),
                options: options_from_table(&s.options),
            };
            let ghost pv = plan.deep_view();
            proof {
                assert(pv == StagePlanView {
                    kind,
                    name: sv[i as int].name,
                    module: sv[i as int].module,
                    options: spec_table_options(sv[i as int].options),
                });
            }
            acc.push(plan);
            proof {
                assert(acc@.len() == i + 1 - (i + 1 - acc@.len()));
                assert forall|k: int| 0 <= k < acc@.len() implies #[trigger] acc.deep_view()[k]
                    == before.push(pv)[k] by {
                    if k < acc@.len() - 1 {
                        assert(acc@[k] == acc@.subrange(0, acc@.len() - 1)[k]);
                    }
                }
                assert(acc.deep_view() =~= before.push(pv));
            }
        }
        proof {
            let step = sv.subrange(0, i as int + 1);
            assert(step.drop_last() =~= sv.subrange(0, i as int));
            assert(step.last() == sv[i as int]);
            assert(acc.deep_view() =~= base + spec_section_plan(step, kind));
        }
        i = i + 1;
    }
    proof {
        assert(sv.subrange(0, sv.len() as int) =~= sv);
    }
}

/// Build the execution plan of an orchestration.
pub fn build_stage_plan(orch: &Orchestration) -> (r: Vec<StagePlan>)
    ensures
        r.deep_view() == spec_stage_plan(orch.deep_view()),
{
    let ghost o = orch.deep_view();
    let mut acc: Vec<StagePlan> = Vec::new();
    match &orch.pre_processors {
        Some(s) => push_section_plan(&mut acc, s, PluginType::Pre),
        None => {},
    }
    assert(acc.deep_view() =~= spec_opt_section_plan(o.pre_processors, PluginType::Pre));
    let tts = StagePlan {
        kind: PluginType::Tts,
        name: orch.tts.name.clone(),
        module: orch.tts.module.clone(),
        options: tts_options(&orch.tts),
    };
    acc.push(tts);
    assert(acc.deep_view() =~= spec_opt_section_plan(o.pre_processors, PluginType::Pre) + seq![
        spec_tts_plan(o.tts),
    ]);
    let ghost mid = acc.deep_view();
    match &orch.audio_converters {
        Some(s) => push_section_plan(&mut acc, s, PluginType::Converter),
        None => {
            assert(acc.deep_view() =~= mid + spec_opt_section_plan(
                o.audio_converters,
                PluginType::Converter,
            ));
        },
    }
    let ghost mid2 = acc.deep_view();
    match &orch.post_processors {
        Some(s) => push_section_plan(&mut acc, s, PluginType::Post),
        None => {
            assert(acc.deep_view() =~= mid2 + spec_opt_section_plan(
                o.post_processors,
                PluginType::Post,
            ));
        },
    }
    assert(acc.deep_view() =~= spec_stage_plan(o));
    acc
}

/// The plan a discovered-plugin list runs in: text stages first, then
/// every text-to-speech plugin, then audio stages, each with its
/// resolved default options.
pub open spec fn spec_plugins_of_role(
    plugins: Seq<PluginView>,
    pre: bool,
) -> Seq<StagePlanView>
    decreases plugins.len(),
{
    if plugins.len() == 0 {
        Seq::empty()
    } else {
        let prev = spec_plugins_of_role(plugins.drop_last(), pre);
        let p = plugins.last();
        let wanted = if pre {
            p.plugin_type == PluginType::Pre
        } else {
            p.plugin_type == PluginType::Post || p.plugin_type == PluginType::Converter
        };
        if wanted {
            prev.push(
                StagePlanView { kind: p.plugin_type, name: p.name, module: p.path, options: p.options },
            )
        } else {
            prev
        }
    }
}

/// The text-to-speech stages of a discovered-plugin list.
pub open spec fn spec_plugins_tts(plugins: Seq<PluginView>) -> Seq<StagePlanView>
    decreases plugins.len(),
{
    if plugins.len() == 0 {
        Seq::empty()
    } else {
        let prev = spec_plugins_tts(plugins.drop_last());
        let p = plugins.last();
        if p.plugin_type == PluginType::Tts {
            prev.push(
                StagePlanView { kind: p.plugin_type, name: p.name, module: p.path, options: p.options },
            )
        } else {
            prev
        }
    }
}

/// The plan a bare plugin list runs in: pre-processors, then
/// text-to-speech plugins, then post-processors and converters, each
/// group in list order.
pub open spec fn spec_plugins_plan(plugins: Seq<PluginView>) -> Seq<StagePlanView> {
    spec_plugins_of_role(plugins, true) + spec_plugins_tts(plugins) + spec_plugins_of_role(
        plugins,
        false,
    )
}

fn push_plugins_of_role(acc: &mut Vec<StagePlan>, plugins: &Vec<Plugin>, pre: bool)
    ensures
        final(acc).deep_view() == old(acc).deep_view() + spec_plugins_of_role(
            plugins.deep_view(),
            pre,
        ),
{
    let ghost pv = plugins.deep_view();
    let ghost base = old(acc).deep_view();
    proof {
        assert(base + spec_plugins_of_role(pv.subrange(0, 0), pre) =~= base);
    }
    let mut i: usize = 0;
    while i < plugins.len()
        invariant
            i <= plugins@.len(),
            pv == plugins.deep_view(),
            pv.len() == plugins@.len(),
            acc.deep_view() == base + spec_plugins_of_role(pv.subrange(0, i as int), pre),
        decreases plugins@.len() - i,
    {
        let p = &plugins[i];
        assert(p.deep_view() == pv[i as int]);
        let wanted = if pre {
            matches!(p.plugin_type, PluginType::Pre)
        } else {
            matches!(p.plugin_type, PluginType::Post) || matches!(
                p.plugin_type,
                PluginType::Converter,
            )
        };
        let ghost before = acc.deep_view();
        if wanted {
            let plan = StagePlan {
                kind: p.plugin_type,
                name: p.name.clone(),
                module: p.path.clone(),
                options: clone_options(&p.options),
            };
            let ghost planv = plan.deep_view();
            proof {
                assert(planv.options =~= pv[i as int].options);
                assert(planv == StagePlanView {
                    kind: pv[i as int].plugin_type,
                    name: pv[i as int].name,
                    module: pv[i as int].path,
                    options: pv[i as int].options,
                });
            }
            acc.push(plan);
            proof {
                assert forall|k: int| 0 <= k < acc@.len() implies #[trigger] acc.deep_view()[k]
                    == before.push(planv)[k] by {
                    if k < acc@.len() - 1 {
                        assert(acc@[k] == acc@.subrange(0, acc@.len() - 1)[k]);
                    }
                }
                assert(acc.deep_view() =~= before.push(planv));
            }
        }
        proof {
            let step = pv.subrange(0, i as int + 1);
            assert(step.drop_last() =~= pv.subrange(0, i as int));
            assert(step.last() == pv[i as int]);
            assert(acc.deep_view() =~= base + spec_plugins_of_role(step, pre));
        }
        i = i + 1;
    }
    proof {
        assert(pv.subrange(0, pv.len() as int) =~= pv);
    }
}

fn push_plugins_tts(acc: &mut Vec<StagePlan>, plugins: &Vec<Plugin>)
    ensures
        final(acc).deep_view() == old(acc).deep_view() + spec_plugins_tts(plugins.deep_view()),
{
    let ghost pv = plugins.deep_view();
    let ghost base = old(acc).deep_view();
    proof {
        assert(base + spec_plugins_tts(pv.subrange(0, 0)) =~= base);
    }
    let mut i: usize = 0;
    while i < plugins.len()
        invariant
            i <= plugins@.len(),
            pv == plugins.deep_view(),
            pv.len() == plugins@.len(),
            acc.deep_view() == base + spec_plugins_tts(pv.subrange(0, i as int)),
        decreases plugins@.len() - i,
    {
        let p = &plugins[i];
        assert(p.deep_view() == pv[i as int]);
        let ghost before = acc.deep_view();
        if matches!(p.plugin_type, PluginType::Tts) {
            let plan = StagePlan {
                kind: p.plugin_type,
                name: p.name.clone(),
                module: p.path.clone(),
                options: clone_options(&p.options),
            };
            let ghost planv = plan.deep_view();
            proof {
                assert(planv.options =~= pv[i as int].options);
                assert(planv == StagePlanView {
                    kind: pv[i as int].plugin_type,
                    name: pv[i as int].name,
                    module: pv[i as int].path,
                    options: pv[i as int].options,
                });
            }
            acc.push(plan);
            proof {
                assert forall|k: int| 0 <= k < acc@.len() implies #[trigger] acc.deep_view()[k]
                    == before.push(planv)[k] by {
                    if k < acc@.len() - 1 {
                        assert(acc@[k] == acc@.subrange(0, acc@.len() - 1)[k]);
                    }
                }
                assert(acc.deep_view() =~= before.push(planv));
            }
        }
        proof {
            let step = pv.subrange(0, i as int + 1);
            assert(step.drop_last() =~= pv.subrange(0, i as int));
            assert(step.last() == pv[i as int]);
            assert(acc.deep_view() =~= base + spec_plugins_tts(step));
        }
        i = i + 1;
    }
    proof {
        assert(pv.subrange(0, pv.len() as int) =~= pv);
    }
}

/// Plan a run over a bare list of discovered plugins, by role order:
/// pre-processors, text-to-speech, then post-processors and converters.
pub fn plan_from_plugins(plugins: &Vec<Plugin>) -> (r: Vec<StagePlan>)
    ensures
        r.deep_view() == spec_plugins_plan(plugins.deep_view()),
{
    let mut acc: Vec<StagePlan> = Vec::new();
    push_plugins_of_role(&mut acc, plugins, true);
    push_plugins_tts(&mut acc, plugins);
    push_plugins_of_role(&mut acc, plugins, false);
    assert(acc.deep_view() =~= spec_plugins_plan(plugins.deep_view()));
    acc
}

/// Why a run could not start.
#[derive(Clone, Copy, PartialEq, Eq, Structural, Debug)]
pub enum PipelineError {
    /// The input source did not decode as UTF-8 text.
    InputNotText,
}

/// Why a stage failed the run.
#[derive(Clone, Copy, PartialEq, Eq, Structural, Debug)]
pub enum StageFailure {
    /// The stage subprocess exited non-zero; its partial output is
    /// discarded.
    NonZeroExit,
    /// A pre-processor returned bytes that are not UTF-8 text.
    OutputNotText,
}

/// One pipeline run in progress: the plan, how many stages completed,
/// and the payload as produced by the last completed stage.
pub struct PipelineRun {
    pub plan: Vec<StagePlan>,
    pub next: usize,
    pub payload: Vec<u8>,
}

/// Begin a run: the input must decode as UTF-8 text, or the run aborts
/// before any subprocess is spawned.
pub fn start_run(plan: Vec<StagePlan>, input: Vec<u8>) -> (r: Result<PipelineRun, PipelineError>)
    ensures
        match r {
            Ok(run) => {
                &&& valid_utf8(input@)
                &&& run.plan == plan
                &&& run.next == 0
                &&& run.payload == input
            },
            Err(e) => {
                &&& !valid_utf8(input@)
                &&& e == PipelineError::InputNotText
            },
        },
{
    if !check_utf8(&input) {
        return Err(PipelineError::InputNotText);
    }
    Ok(PipelineRun { plan, next: 0, payload: input })
}

impl PipelineRun {
    /// Have all planned stages completed?
    pub fn finished(&self) -> (r: bool)
        ensures
            r == (self.next == self.plan@.len()),
    {
        self.next == self.plan.len()
    }

    /// The next stage to invoke.
    pub fn current_stage(&self) -> (r: &StagePlan)
        requires
            self.next < self.plan@.len(),
        ensures
            r.deep_view() == self.plan.deep_view()[self.next as int],
    {
        &self.plan[self.next]
    }

    /// The payload to hand the next stage: the input for the first
    /// stage, afterwards always the previous stage's output.
    pub fn current_input(&self) -> (r: &Vec<u8>)
        ensures
            r@ == self.payload@,
    {
        &self.payload
    }

    /// Record the outcome of the stage just run.  A non-zero exit fails
    /// the run and discards the stage's partial output; a pre-processor
    /// returning bytes that are not UTF-8 text fails the run likewise.
    /// On success the output becomes the payload of the next stage.
    pub fn apply_stage_output(&mut self, exit_ok: bool, output: Vec<u8>) -> (r: Result<
        (),
        StageFailure,
    >)
        requires
            old(self).next < old(self).plan@.len(),
        ensures
            final(self).plan == old(self).plan,
            match r {
                Ok(_) => {
                    &&& exit_ok
                    &&& (old(self).plan.deep_view()[old(self).next as int].kind
                        == PluginType::Pre ==> valid_utf8(output@))
                    &&& final(self).payload == output
                    &&& final(self).next == old(self).next + 1
                },
                Err(StageFailure::NonZeroExit) => {
                    &&& !exit_ok
                    &&& final(self).payload == old(self).payload
                    &&& final(self).next == old(self).next
                },
                Err(StageFailure::OutputNotText) => {
                    &&& exit_ok
                    &&& old(self).plan.deep_view()[old(self).next as int].kind == PluginType::Pre
                    &&& !valid_utf8(output@)
                    &&& final(self).payload == old(self).payload
                    &&& final(self).next == old(self).next
                },
            },
    {
        let n = self.plan.len();
        assert(self.next < n);
        if !exit_ok {
            return Err(StageFailure::NonZeroExit);
        }
        let is_pre = matches!(self.plan[self.next].kind, PluginType::Pre);
        if is_pre && !check_utf8(&output) {
            return Err(StageFailure::OutputNotText);
        }
        self.payload = output;
        self.next = self.next + 1;
        Ok(())
    }

    /// The final artifact of a finished run.
    pub fn into_result(self) -> (r: Vec<u8>)
        requires
            self.next == self.plan@.len(),
        ensures
            r == self.payload,
    {
        self.payload
    }
}

/// The canned sample payload `verify_plugin` feeds a plugin of each
/// role.
pub open spec fn spec_sample_input(t: PluginType) -> Seq<char> {
    match t {
        PluginType::Pre => "Test input for pre-processor"@,
        PluginType::Tts => "Hello, world!"@,
        PluginType::Post => "FAKE_AUDIO_BYTES"@,
        PluginType::Converter => "FAKE_AUDIO_BYTES"@,
    }
}

/// Role-appropriate sample payload for a plugin health check.
pub fn sample_input_for(t: PluginType) -> (r: String)
    ensures
        r@ == spec_sample_input(t),
{
    match t {
        PluginType::Pre => "Test input for pre-processor".to_owned(),
        PluginType::Tts => "Hello, world!".to_owned(),
        PluginType::Post => "FAKE_AUDIO_BYTES".to_owned(),
        PluginType::Converter => "FAKE_AUDIO_BYTES".to_owned(),
    }
}

/// Role-appropriate success predicate for a plugin health check:
/// pre-processor output must decode as text; any other role must just
/// produce something.
pub fn output_acceptable(t: PluginType, output: &Vec<u8>) -> (r: bool)
    ensures
        r == match t {
            PluginType::Pre => valid_utf8(output@),
            _ => output@.len() > 0,
        },
{
    match t {
        PluginType::Pre => check_utf8(output),
        _ => output.len() > 0,
    }
}

} // verus!
