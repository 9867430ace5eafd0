//! Media-type validation: before a pipeline runs, check that each
//! enabled stage's declared accepted input types intersect the types the
//! pipeline produces at that point.
//!
//! Stages with no declared capabilities never block the chain: the
//! validator catches only declared incompatibilities.  Capability
//! declarations are looked up in an in-memory table keyed by module
//! directory; loading descriptor files into that table is the caller's
//! concern, and a module absent from the table counts as undeclared.

use vstd::prelude::*;

use crate::orchestration::{Orchestration, OrchestrationView, TtsConfigView, PluginConfig,
    PluginConfigView};
use crate::plugin::{CapsView, ManifestCapabilities, PluginType, clone_string_vec};
use crate::options::string_eq;

verus! {

/// Capability declarations by module directory.
pub type CapabilityTable = Vec<(String, ManifestCapabilities)>;

/// Two type sets are compatible exactly when some element is common to
/// both: exact, case-sensitive string match, in any position.
pub open spec fn spec_types_intersect(a: Seq<Seq<char>>, b: Seq<Seq<char>>) -> bool {
    exists|i: int, j: int| 0 <= i < a.len() && 0 <= j < b.len() && a[i] == b[j]
}

/// Compatibility is symmetric in the two type sets.
pub proof fn lemma_types_intersect_symmetric(a: Seq<Seq<char>>, b: Seq<Seq<char>>)
    ensures
        spec_types_intersect(a, b) == spec_types_intersect(b, a),
{
    if spec_types_intersect(a, b) {
        let (i, j) = choose|i: int, j: int| 0 <= i < a.len() && 0 <= j < b.len() && a[i] == b[j];
        assert(0 <= j < b.len() && 0 <= i < a.len() && b[j] == a[i]);
    }
    if spec_types_intersect(b, a) {
        let (i, j) = choose|i: int, j: int| 0 <= i < b.len() && 0 <= j < a.len() && b[i] == a[j];
        assert(0 <= j < a.len() && 0 <= i < b.len() && a[j] == b[i]);
    }
}

/// Does some type occur in both sets?
pub fn types_intersect(a: &Vec<String>, b: &Vec<String>) -> (r: bool)
    ensures
        r == spec_types_intersect(a.deep_view(), b.deep_view()),
{
    let ghost av = a.deep_view();
    let ghost bv = b.deep_view();
    let mut i: usize = 0;
    while i < a.len()
        invariant
            i <= a@.len(),
            av == a.deep_view(),
            bv == b.deep_view(),
            av.len() == a@.len(),
            bv.len() == b@.len(),
            forall|i2: int, j2: int| #![trigger av[i2], bv[j2]]
                0 <= i2 < i && 0 <= j2 < bv.len() ==> av[i2] != bv[j2],
        decreases a@.len() - i,
    {
        let mut j: usize = 0;
        while j < b.len()
            invariant
                i < a@.len(),
                j <= b@.len(),
                av == a.deep_view(),
                bv == b.deep_view(),
                av.len() == a@.len(),
                bv.len() == b@.len(),
                forall|j2: int| 0 <= j2 < j ==> av[i as int] != #[trigger] bv[j2],
            decreases b@.len() - j,
        {
            assert(av[i as int] == a@[i as int]@);
            assert(bv[j as int] == b@[j as int]@);
            if string_eq(&a[i], &b[j]) {
                return true;
            }
            j = j + 1;
        }
        assert(forall|j2: int| 0 <= j2 < bv.len() ==> av[i as int] != #[trigger] bv[j2]);
        i = i + 1;
    }
    assert(forall|i2: int, j2: int| #![trigger av[i2], bv[j2]]
        0 <= i2 < av.len() && 0 <= j2 < bv.len() ==> av[i2] != bv[j2]);
    false
}

/// Index of the first table entry for a module, or -1.
pub open spec fn spec_caps_index(table: Seq<(Seq<char>, CapsView)>, module: Seq<char>) -> int
    decreases table.len(),
{
    if table.len() == 0 {
        -1
    } else if table[0].0 == module {
        0
    } else {
        let rest = spec_caps_index(table.drop_first(), module);
        if rest < 0 {
            -1
        } else {
            rest + 1
        }
    }
}

/// What `spec_caps_index` finds: the first entry for the module, or a
/// witness that the module is absent.
pub proof fn lemma_caps_index_first(table: Seq<(Seq<char>, CapsView)>, module: Seq<char>)
    ensures
        ({
            let i = spec_caps_index(table, module);
            &&& -1 <= i < table.len()
            &&& (i == -1 ==> forall|j: int| 0 <= j < table.len() ==> table[j].0 != module)
            &&& (i >= 0 ==> table[i].0 == module && (forall|j: int| 0 <= j < i ==> table[j].0
                != module))
        }),
    decreases table.len(),
{
    if table.len() > 0 && table[0].0 != module {
        lemma_caps_index_first(table.drop_first(), module);
        let rest = spec_caps_index(table.drop_first(), module);
        if rest < 0 {
            assert forall|j: int| 0 <= j < table.len() implies table[j].0 != module by {
                if j >= 1 {
                    assert(table.drop_first()[j - 1] == table[j]);
                }
            }
        } else {
            assert(table.drop_first()[rest] == table[rest + 1]);
            assert forall|j: int| 0 <= j < rest + 1 implies table[j].0 != module by {
                if j >= 1 {
                    assert(table.drop_first()[j - 1] == table[j]);
                }
            }
        }
    }
}

/// If `module` first occurs at index `i`, then `spec_caps_index` finds
/// exactly `i`.
pub proof fn lemma_caps_index_unique(
    table: Seq<(Seq<char>, CapsView)>,
    module: Seq<char>,
    i: int,
)
    requires
        0 <= i < table.len(),
        table[i].0 == module,
        forall|j: int| 0 <= j < i ==> table[j].0 != module,
    ensures
        spec_caps_index(table, module) == i,
{
    lemma_caps_index_first(table, module);
    let i0 = spec_caps_index(table, module);
    if i0 == -1 {
        assert(table[i].0 != module);
    } else if i0 < i {
        assert(table[i0].0 != module);
    } else if i0 > i {
        assert(table[i].0 != module);
    }
}

/// The capability declaration of a module, if the table has one.
pub open spec fn spec_caps_find(table: Seq<(Seq<char>, CapsView)>, module: Seq<char>) -> Option<
    CapsView,
> {
    let i = spec_caps_index(table, module);
    if i < 0 {
        None
    } else {
        Some(table[i].1)
    }
}

/// Look a module's capability declaration up.
pub fn find_caps<'a>(caps: &'a CapabilityTable, module: &String) -> (r: Option<
    &'a ManifestCapabilities,
>)
    ensures
        r.deep_view() == spec_caps_find(caps.deep_view(), module@),
{
    let mut i: usize = 0;
    while i < caps.len()
        invariant
            i <= caps@.len(),
            caps.deep_view().len() == caps@.len(),
            forall|j: int| 0 <= j < i ==> #[trigger] caps.deep_view()[j].0 != module@,
        decreases caps@.len() - i,
    {
        let (m, c) = &caps[i];
        assert(caps.deep_view()[i as int] == (m@, c.deep_view()));
        if string_eq(m, module) {
            proof {
                lemma_caps_index_unique(caps.deep_view(), module@, i as int);
            }
            return Some(c);
        }
        i = i + 1;
    }
    proof {
        lemma_caps_index_first(caps.deep_view(), module@);
        let i0 = spec_caps_index(caps.deep_view(), module@);
        if i0 >= 0 {
            assert(caps.deep_view()[i0].0 != module@);
        }
    }
    None
}

/// A declared-incompatibility failure: the stage, the types the
/// pipeline produces at that point, and the types the stage accepts.
pub struct ValidationError {
    /// Role of the failing stage.
    pub kind: PluginType,
    /// Name of the failing stage.
    pub stage_name: String,
    /// What the pipeline produces when the stage is reached.
    pub pipeline_output: Vec<String>,
    /// What the stage declares it accepts.
    pub declared_input: Vec<String>,
}

/// Mathematical view of a validation failure.
pub struct ValidationErrorView {
    pub kind: PluginType,
    pub stage_name: Seq<char>,
    pub pipeline_output: Seq<Seq<char>>,
    pub declared_input: Seq<Seq<char>>,
}

impl DeepView for ValidationError {
    type V = ValidationErrorView;

    open spec fn deep_view(&self) -> ValidationErrorView {
        ValidationErrorView {
            kind: self.kind,
            stage_name: self.stage_name@,
            pipeline_output: self.pipeline_output.deep_view(),
            declared_input: self.declared_input.deep_view(),
        }
    }
}

impl ValidationError {
    /// One-line description of the failure.
    pub fn message(&self) -> (r: String)
        ensures
            r@ == self.stage_name@ + ": pipeline output does not match input declared by the stage"@,
    {
        let mut r = self.stage_name.clone();
        r.append(": pipeline output does not match input declared by the stage");
        r
    }
}

/// The implicit types of the pipeline's text input.
pub open spec fn spec_initial_input_types() -> Seq<Seq<char>> {
    seq!["text/plain"@, "text"@]
}

/// The implicit input type set seeding the chain.
pub fn initial_input_types() -> (r: Vec<String>)
    ensures
        r.deep_view() == spec_initial_input_types(),
{
    let mut r: Vec<String> = Vec::new();
    r.push("text/plain".to_owned());
    r.push("text".to_owned());
    assert(r.deep_view() =~= spec_initial_input_types());
    r
}

/// The role-appropriate produced type set assumed for a stage that
/// declares no output types.
pub open spec fn spec_default_output(kind: PluginType) -> Seq<Seq<char>> {
    match kind {
        PluginType::Pre => seq!["text/plain"@],
        PluginType::Tts => seq!["audio/raw"@, "audio/wav"@],
        PluginType::Converter => seq!["audio/raw"@],
        PluginType::Post => seq!["audio/raw"@],
    }
}

fn default_output(kind: PluginType) -> (r: Vec<String>)
    ensures
        r.deep_view() == spec_default_output(kind),
{
    let mut r: Vec<String> = Vec::new();
    match kind {
        PluginType::Pre => {
            r.push("text/plain".to_owned());
        },
        PluginType::Tts => {
            r.push("audio/raw".to_owned());
            r.push("audio/wav".to_owned());
        },
        PluginType::Converter => {
            r.push("audio/raw".to_owned());
        },
        PluginType::Post => {
            r.push("audio/raw".to_owned());
        },
    }
    assert(r.deep_view() =~= spec_default_output(kind));
    r
}

/// The declared input set that blocks a stage, if any: a stage blocks
/// when it declares accepted inputs and none of them is currently
/// produced.
pub open spec fn spec_stage_gate(prev: Seq<Seq<char>>, cap: Option<CapsView>) -> Option<
    Seq<Seq<char>>,
> {
    match cap {
        None => None,
        Some(c) => match c.input {
            None => None,
            Some(need) => if spec_types_intersect(prev, need) {
                None
            } else {
                Some(need)
            },
        },
    }
}

/// The produced type set after a stage: its declared outputs, or the
/// role default when it declares none.
pub open spec fn spec_stage_output(kind: PluginType, cap: Option<CapsView>) -> Seq<Seq<char>> {
    match cap {
        None => spec_default_output(kind),
        Some(c) => match c.output {
            None => spec_default_output(kind),
            Some(out) => out,
        },
    }
}

/// Walk one section of same-role stages: disabled stages are skipped
/// entirely, an enabled stage whose declared inputs are incompatible
/// stops the walk, and each enabled stage advances the current output
/// type set (post-processors, last in the chain, advance nothing).
pub open spec fn spec_check_section(
    stages: Seq<PluginConfigView>,
    caps: Seq<(Seq<char>, CapsView)>,
    prev: Seq<Seq<char>>,
    kind: PluginType,
) -> Result<Seq<Seq<char>>, ValidationErrorView>
    decreases stages.len(),
{
    if stages.len() == 0 {
        Ok(prev)
    } else {
        let s = stages[0];
        if !s.enabled {
            spec_check_section(stages.drop_first(), caps, prev, kind)
        } else {
            let cap = spec_caps_find(caps, s.module);
            match spec_stage_gate(prev, cap) {
                Some(need) => Err(
                    ValidationErrorView {
                        kind,
                        stage_name: s.name,
                        pipeline_output: prev,
                        declared_input: need,
                    },
                ),
                None => {
                    let next = if kind == PluginType::Post {
                        prev
                    } else {
                        spec_stage_output(kind, cap)
                    };
                    spec_check_section(stages.drop_first(), caps, next, kind)
                },
            }
        }
    }
}

/// Walk the single text-to-speech stage.
pub open spec fn spec_check_tts(
    tts: TtsConfigView,
    caps: Seq<(Seq<char>, CapsView)>,
    prev: Seq<Seq<char>>,
) -> Result<Seq<Seq<char>>, ValidationErrorView> {
    let cap = spec_caps_find(caps, tts.module);
    match spec_stage_gate(prev, cap) {
        Some(need) => Err(
            ValidationErrorView {
                kind: PluginType::Tts,
                stage_name: tts.name,
                pipeline_output: prev,
                declared_input: need,
            },
        ),
        None => Ok(spec_stage_output(PluginType::Tts, cap)),
    }
}

/// One optional section of the document.
pub open spec fn spec_check_opt_section(
    stages: Option<Seq<PluginConfigView>>,
    caps: Seq<(Seq<char>, CapsView)>,
    prev: Seq<Seq<char>>,
    kind: PluginType,
) -> Result<Seq<Seq<char>>, ValidationErrorView> {
    match stages {
        None => Ok(prev),
        Some(s) => spec_check_section(s, caps, prev, kind),
    }
}

/// End-to-end declared-type validation of an orchestration: seeded with
/// the implicit text input types, walked through pre-processors, the
/// text-to-speech stage, converters and post-processors in order.
pub open spec fn spec_validate(o: OrchestrationView, caps: Seq<(Seq<char>, CapsView)>) -> Result<
    (),
    ValidationErrorView,
> {
    match spec_check_opt_section(
        o.pre_processors,
        caps,
        spec_initial_input_types(),
        PluginType::Pre,
    ) {
        Err(e) => Err(e),
        Ok(p1) => match spec_check_tts(o.tts, caps, p1) {
            Err(e) => Err(e),
            Ok(p2) => match spec_check_opt_section(
                o.audio_converters,
                caps,
                p2,
                PluginType::Converter,
            ) {
                Err(e) => Err(e),
                Ok(p3) => match spec_check_opt_section(
                    o.post_processors,
                    caps,
                    p3,
                    PluginType::Post,
                ) {
                    Err(e) => Err(e),
                    Ok(_) => Ok(()),
                },
            },
        },
    }
}

/// A disabled stage does not affect type-compatibility chaining: a
/// section checks exactly as the same section with the disabled stage
/// removed.
pub proof fn lemma_disabled_stage_not_checked(
    stages: Seq<PluginConfigView>,
    caps: Seq<(Seq<char>, CapsView)>,
    prev: Seq<Seq<char>>,
    kind: PluginType,
    i: int,
)
    requires
        0 <= i < stages.len(),
        !stages[i].enabled,
    ensures
        spec_check_section(stages, caps, prev, kind) == spec_check_section(
            stages.remove(i),
            caps,
            prev,
            kind,
        ),
    decreases stages.len(),
{
    if i == 0 {
        assert(stages.remove(0) =~= stages.drop_first());
    } else {
        let s = stages[0];
        assert(stages.remove(i).drop_first() =~= stages.drop_first().remove(i - 1));
        assert(stages.remove(i)[0] == s);
        if !s.enabled {
            lemma_disabled_stage_not_checked(stages.drop_first(), caps, prev, kind, i - 1);
        } else {
            let cap = spec_caps_find(caps, s.module);
            match spec_stage_gate(prev, cap) {
                Some(_) => {},
                None => {
                    let next = if kind == PluginType::Post {
                        prev
                    } else {
                        spec_stage_output(kind, cap)
                    };
                    lemma_disabled_stage_not_checked(stages.drop_first(), caps, next, kind, i - 1);
                },
            }
        }
    }
}

/// Walk one section's stage list.
fn check_stage_list(
    stages: &Vec<PluginConfig>,
    caps: &CapabilityTable,
    prev: &Vec<String>,
    kind: PluginType,
) -> (r: Result<Vec<String>, ValidationError>)
    ensures
        match r {
            Ok(out) => spec_check_section(
                stages.deep_view(),
                caps.deep_view(),
                prev.deep_view(),
                kind,
            ) == Ok::<Seq<Seq<char>>, ValidationErrorView>(out.deep_view()),
            Err(e) => spec_check_section(
                stages.deep_view(),
                caps.deep_view(),
                prev.deep_view(),
                kind,
            ) == Err::<Seq<Seq<char>>, ValidationErrorView>(e.deep_view()),
        },
{
    let ghost sv = stages.deep_view();
    let ghost cv = caps.deep_view();
    let ghost pv0 = prev.deep_view();
    let mut cur = clone_string_vec(prev);
    let mut i: usize = 0;
    assert(cur.deep_view() =~= pv0);
    proof {
        assert(sv.subrange(0, sv.len() as int) =~= sv);
    }
    while i < stages.len()
        invariant
            i <= stages@.len(),
            sv == stages.deep_view(),
            cv == caps.deep_view(),
            pv0 == prev.deep_view(),
            sv.len() == stages@.len(),
            spec_check_section(sv, cv, pv0, kind) == spec_check_section(
                sv.subrange(i as int, sv.len() as int),
                cv,
                cur.deep_view(),
                kind,
            ),
        decreases stages@.len() - i,
    {
        let ghost suffix = sv.subrange(i as int, sv.len() as int);
        proof {
            assert(suffix.drop_first() =~= sv.subrange(i as int + 1, sv.len() as int));
            assert(suffix[0] == sv[i as int]);
        }
        let s = &stages[i];
        assert(s.deep_view() == sv[i as int]);
        let ghost cur_dv = cur.deep_view();
        if s.enabled {
            let cap = find_caps(caps, &s.module);
            let ghost cap_dv = spec_caps_find(cv, s.deep_view().module);
            match cap {
                None => {},
                Some(c) => match &c.input {
                    None => {},
                    Some(need) => {
                        if !types_intersect(&cur, need) {
                            assert(spec_stage_gate(cur_dv, cap_dv) == Some(need.deep_view()));
                            let declared = clone_string_vec(need);
                            assert(declared.deep_view() =~= need.deep_view());
                            let e = ValidationError {
                                kind,
                                stage_name: s.name.clone(),
                                pipeline_output: cur,
                                declared_input: declared,
                            };
                            assert(spec_check_section(suffix, cv, cur_dv, kind)
                                == Err::<Seq<Seq<char>>, ValidationErrorView>(e.deep_view()));
                            return Err(e);
                        }
                    },
                },
            }
            assert(spec_stage_gate(cur_dv, cap_dv) is None);
            if !matches!(kind, PluginType::Post) {
                let next = match cap {
                    None => default_output(kind),
                    Some(c) => match &c.output {
                        None => default_output(kind),
                        Some(out) => clone_string_vec(out),
                    },
                };
                assert(next.deep_view() =~= spec_stage_output(kind, cap_dv));
                cur = next;
            }
            assert(cur.deep_view() == if kind == PluginType::Post {
                cur_dv
            } else {
                spec_stage_output(kind, cap_dv)
            });
        }
        i = i + 1;
    }
    proof {
        assert(sv.subrange(sv.len() as int, sv.len() as int) =~= Seq::<PluginConfigView>::empty());
    }
    Ok(cur)
}

/// Validate declared media types across the orchestration's stages.
/// Succeeds exactly when no enabled stage's declared accepted inputs
/// fail to intersect the types produced before it; the first blocked
/// stage is reported with the types on both sides.
pub fn validate_orchestration_types(orch: &Orchestration, caps: &CapabilityTable) -> (r: Result<
    (),
    ValidationError,
>)
    ensures
        match r {
            Ok(_) => spec_validate(orch.deep_view(), caps.deep_view()) == Ok::<
                (),
                ValidationErrorView,
            >(()),
            Err(e) => spec_validate(orch.deep_view(), caps.deep_view()) == Err::<
                (),
                ValidationErrorView,
            >(e.deep_view()),
        },
{
    let mut prev = initial_input_types();
    match &orch.pre_processors {
        None => {},
        Some(pre) => {
            match check_stage_list(pre, caps, &prev, PluginType::Pre) {
                Ok(p) => {
                    prev = p;
                },
                Err(e) => {
                    return Err(e);
                },
            }
        },
    }
    let cap = find_caps(caps, &orch.tts.module);
    let mut gate: Option<&Vec<String>> = None;
    match cap {
        None => {},
        Some(c) => match &c.input {
            None => {},
            Some(need) => {
                if !types_intersect(&prev, need) {
                    gate = Some(need);
                }
            },
        },
    }
    match gate {
        Some(need) => {
            return Err(
                ValidationError {
                    kind: PluginType::Tts,
                    stage_name: orch.tts.name.clone(),
                    pipeline_output: prev,
                    declared_input: clone_string_vec(need),
                },
            );
        },
        None => {},
    }
    prev = match cap {
        None => default_output(PluginType::Tts),
        Some(c) => match &c.output {
            None => default_output(PluginType::Tts),
            Some(out) => clone_string_vec(out),
        },
    };
    match &orch.audio_converters {
        None => {},
        Some(conv) => {
            match check_stage_list(conv, caps, &prev, PluginType::Converter) {
                Ok(p) => {
                    prev = p;
                },
                Err(e) => {
                    return Err(e);
                },
            }
        },
    }
    match &orch.post_processors {
        None => {},
        Some(post) => {
            match check_stage_list(post, caps, &prev, PluginType::Post) {
                Ok(_) => {},
                Err(e) => {
                    return Err(e);
                },
            }
        },
    }
    Ok(())
}

} // verus!
