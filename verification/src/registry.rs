//! Plugin registry: classify parsed plugin descriptors by role, resolve
//! their default options, and expose lookup and ordering views.
//!
//! Reading the plugins directory and parsing each descriptor file happens
//! at the caller's edge; the registry is built from the outcome of that
//! scan, one entry per descriptor found, and fails fast on the first
//! entry whose descriptor did not parse.

use vstd::prelude::*;

use crate::options::{options_from_table, spec_table_options, string_eq};
use crate::plugin::{ManifestView, Plugin, PluginManifest, PluginType, PluginView};
use crate::text::{ascii_lower, lower_ascii};

verus! {

/// Outcome of scanning one plugin subdirectory: its path and the result
/// of parsing its descriptor file.
pub struct PluginScanEntry {
    /// Directory the descriptor was found in.
    pub path: String,
    /// The parsed manifest, or the parse error's message.
    pub manifest: Result<PluginManifest, String>,
}

/// Mathematical view of a scan entry.
pub struct ScanEntryView {
    pub path: Seq<char>,
    pub manifest: Result<ManifestView, Seq<char>>,
}

impl DeepView for PluginScanEntry {
    type V = ScanEntryView;

    open spec fn deep_view(&self) -> ScanEntryView {
        ScanEntryView {
            path: self.path@,
            manifest: match &self.manifest {
                Ok(m) => Ok(m.deep_view()),
                Err(e) => Err(e@),
            },
        }
    }
}

/// A descriptor failed to parse; the whole scan is aborted with the
/// first such failure.
#[derive(Debug)]
pub struct RegistryError {
    /// Directory whose descriptor failed.
    pub path: String,
    /// The parser's message.
    pub message: String,
}

/// The role a declared role string names.  Synonyms are accepted
/// case-insensitively; an unrecognized declaration falls back to the
/// pre-processor role.
pub open spec fn spec_role_of_declaration(s: Seq<char>) -> PluginType {
    let l = lower_ascii(s);
    if l == "pre"@ || l == "preprocessor"@ {
        PluginType::Pre
    } else if l == "tts"@ || l == "synth"@ {
        PluginType::Tts
    } else if l == "post"@ || l == "postprocessor"@ {
        PluginType::Post
    } else if l == "converter"@ || l == "encode"@ {
        PluginType::Converter
    } else {
        PluginType::Pre
    }
}

/// The role inferred from capability boolean flags: the tts flag takes
/// priority, then preprocessor, then postprocessor.
pub open spec fn spec_role_from_flags(m: ManifestView) -> Option<PluginType> {
    match m.capabilities {
        None => None,
        Some(c) => if c.tts == Some(true) {
            Some(PluginType::Tts)
        } else if c.preprocessor == Some(true) {
            Some(PluginType::Pre)
        } else if c.postprocessor == Some(true) {
            Some(PluginType::Post)
        } else {
            None
        },
    }
}

/// Resolved role of a manifest: the declared role string wins, else the
/// capability flags, else the pre-processor default.
pub open spec fn spec_resolve_role(m: ManifestView) -> PluginType {
    match m.role {
        Some(s) => spec_role_of_declaration(s),
        None => match spec_role_from_flags(m) {
            Some(t) => t,
            None => PluginType::Pre,
        },
    }
}

/// First resolver in the chain: the explicitly declared role string.
pub fn role_from_declaration(m: &PluginManifest) -> (r: Option<PluginType>)
    ensures
        r == match m.deep_view().role {
            Some(s) => Some(spec_role_of_declaration(s)),
            None => None::<PluginType>,
        },
{
    match &m.role {
        None => None,
        Some(s) => {
            let l = ascii_lower(s);
            let t = if string_eq(&l, &"pre".to_owned()) || string_eq(&l, &"preprocessor".to_owned()) {
                PluginType::Pre
            } else if string_eq(&l, &"tts".to_owned()) || string_eq(&l, &"synth".to_owned()) {
                PluginType::Tts
            } else if string_eq(&l, &"post".to_owned()) || string_eq(&l, &"postprocessor".to_owned()) {
                PluginType::Post
            } else if string_eq(&l, &"converter".to_owned()) || string_eq(&l, &"encode".to_owned()) {
                PluginType::Converter
            } else {
                PluginType::Pre
            };
            Some(t)
        },
    }
}

/// Second resolver in the chain: the capability boolean flags.
pub fn role_from_capability_flags(m: &PluginManifest) -> (r: Option<PluginType>)
    ensures
        r == spec_role_from_flags(m.deep_view()),
{
    match &m.capabilities {
        None => None,
        Some(c) => {
            if c.tts == Some(true) {
                Some(PluginType::Tts)
            } else if c.preprocessor == Some(true) {
                Some(PluginType::Pre)
            } else if c.postprocessor == Some(true) {
                Some(PluginType::Post)
            } else {
                None
            }
        },
    }
}

/// Resolve a manifest's role: the resolvers are tried in order and the
/// first success wins; with no success the role defaults to
/// pre-processor.
pub fn resolve_plugin_type(m: &PluginManifest) -> (r: PluginType)
    ensures
        r == spec_resolve_role(m.deep_view()),
{
    match role_from_declaration(m) {
        Some(t) => t,
        None => match role_from_capability_flags(m) {
            Some(t) => t,
            None => PluginType::Pre,
        },
    }
}

/// The registry entry derived from one successfully parsed scan entry.
pub open spec fn spec_plugin_of(e: ScanEntryView) -> PluginView
    recommends
        e.manifest is Ok,
{
    let m = e.manifest->Ok_0;
    PluginView {
        name: m.name,
        plugin_type: spec_resolve_role(m),
        path: e.path,
        options: spec_table_options(m.options),
        manifest: Some(m),
    }
}

/// Index of the first catalog entry with the given name, or -1.
pub open spec fn spec_plugin_index(cat: Seq<PluginView>, name: Seq<char>) -> int
    decreases cat.len(),
{
    if cat.len() == 0 {
        -1
    } else if cat[0].name == name {
        0
    } else {
        let rest = spec_plugin_index(cat.drop_first(), name);
        if rest < 0 {
            -1
        } else {
            rest + 1
        }
    }
}

/// What `spec_plugin_index` finds: the first occurrence of the name, or
/// a witness that the name is absent.
pub proof fn lemma_plugin_index_first(cat: Seq<PluginView>, name: Seq<char>)
    ensures
        ({
            let i = spec_plugin_index(cat, name);
            &&& -1 <= i < cat.len()
            &&& (i == -1 ==> forall|j: int| 0 <= j < cat.len() ==> cat[j].name != name)
            &&& (i >= 0 ==> cat[i].name == name && (forall|j: int| 0 <= j < i ==> cat[j].name
                != name))
        }),
    decreases cat.len(),
{
    if cat.len() > 0 && cat[0].name != name {
        lemma_plugin_index_first(cat.drop_first(), name);
        let rest = spec_plugin_index(cat.drop_first(), name);
        if rest < 0 {
            assert forall|j: int| 0 <= j < cat.len() implies cat[j].name != name by {
                if j >= 1 {
                    assert(cat.drop_first()[j - 1] == cat[j]);
                }
            }
        } else {
            assert(cat.drop_first()[rest] == cat[rest + 1]);
            assert forall|j: int| 0 <= j < rest + 1 implies cat[j].name != name by {
                if j >= 1 {
                    assert(cat.drop_first()[j - 1] == cat[j]);
                }
            }
        }
    }
}

/// If `name` first occurs at index `i`, then `spec_plugin_index` finds
/// exactly `i`.
pub proof fn lemma_plugin_index_unique(cat: Seq<PluginView>, name: Seq<char>, i: int)
    requires
        0 <= i < cat.len(),
        cat[i].name == name,
        forall|j: int| 0 <= j < i ==> cat[j].name != name,
    ensures
        spec_plugin_index(cat, name) == i,
{
    lemma_plugin_index_first(cat, name);
    let i0 = spec_plugin_index(cat, name);
    if i0 == -1 {
        assert(cat[i].name != name);
    } else if i0 < i {
        assert(cat[i0].name != name);
    } else if i0 > i {
        assert(cat[i].name != name);
    }
}

/// The catalog entry stored under a name, if any.
pub open spec fn spec_catalog_find(cat: Seq<PluginView>, name: Seq<char>) -> Option<PluginView> {
    let i = spec_plugin_index(cat, name);
    if i < 0 {
        None
    } else {
        Some(cat[i])
    }
}

/// The catalog after registering a plugin: an existing entry of the same
/// name is replaced in place, otherwise the plugin is appended.
pub open spec fn spec_catalog_insert(cat: Seq<PluginView>, p: PluginView) -> Seq<PluginView> {
    let i = spec_plugin_index(cat, p.name);
    if i < 0 {
        cat.push(p)
    } else {
        cat.update(i, p)
    }
}

/// The name-keyed catalog built from the scan, in first-registration
/// order, later entries of the same name replacing earlier ones.
pub open spec fn spec_catalog(entries: Seq<ScanEntryView>) -> Seq<PluginView>
    decreases entries.len(),
{
    if entries.len() == 0 {
        Seq::empty()
    } else {
        let prev = spec_catalog(entries.drop_last());
        match entries.last().manifest {
            Ok(_) => spec_catalog_insert(prev, spec_plugin_of(entries.last())),
            Err(_) => prev,
        }
    }
}

/// The plugins of one role, in scan order.
pub open spec fn spec_role_list(entries: Seq<ScanEntryView>, t: PluginType) -> Seq<PluginView>
    decreases entries.len(),
{
    if entries.len() == 0 {
        Seq::empty()
    } else {
        let prev = spec_role_list(entries.drop_last(), t);
        match entries.last().manifest {
            Ok(m) => if spec_resolve_role(m) == t {
                prev.push(spec_plugin_of(entries.last()))
            } else {
                prev
            },
            Err(_) => prev,
        }
    }
}

/// Registry of discovered plugins, partitioned by role.
pub struct PluginRegistry {
    pub pre: Vec<Plugin>,
    pub tts: Vec<Plugin>,
    pub post: Vec<Plugin>,
    pub converter: Vec<Plugin>,
    /// All plugins keyed by name for lookup.
    pub by_name: Vec<Plugin>,
}

/// Mathematical view of a registry.
pub struct RegistryView {
    pub pre: Seq<PluginView>,
    pub tts: Seq<PluginView>,
    pub post: Seq<PluginView>,
    pub converter: Seq<PluginView>,
    pub catalog: Seq<PluginView>,
}

impl DeepView for PluginRegistry {
    type V = RegistryView;

    open spec fn deep_view(&self) -> RegistryView {
        RegistryView {
            pre: self.pre.deep_view(),
            tts: self.tts.deep_view(),
            post: self.post.deep_view(),
            converter: self.converter.deep_view(),
            catalog: self.by_name.deep_view(),
        }
    }
}

/// The registry a scan resolves to, when every descriptor parsed.
pub open spec fn spec_registry_of(entries: Seq<ScanEntryView>) -> RegistryView {
    RegistryView {
        pre: spec_role_list(entries, PluginType::Pre),
        tts: spec_role_list(entries, PluginType::Tts),
        post: spec_role_list(entries, PluginType::Post),
        converter: spec_role_list(entries, PluginType::Converter),
        catalog: spec_catalog(entries),
    }
}

/// Find the index of a name in a plugin list.
fn find_plugin_index(plugins: &Vec<Plugin>, name: &String) -> (r: Option<usize>)
    ensures
        match r {
            Some(i) => i < plugins@.len() && spec_plugin_index(plugins.deep_view(), name@)
                == i as int,
            None => spec_plugin_index(plugins.deep_view(), name@) == -1,
        },
{
    let mut i: usize = 0;
    while i < plugins.len()
        invariant
            i <= plugins@.len(),
            plugins.deep_view().len() == plugins@.len(),
            forall|j: int| 0 <= j < i ==> #[trigger] plugins.deep_view()[j].name != name@,
        decreases plugins@.len() - i,
    {
        assert(plugins.deep_view()[i as int].name == plugins@[i as int].name@);
        if string_eq(&plugins[i].name, name) {
            proof {
                lemma_plugin_index_unique(plugins.deep_view(), name@, i as int);
            }
            return Some(i);
        }
        i = i + 1;
    }
    proof {
        lemma_plugin_index_first(plugins.deep_view(), name@);
        let i0 = spec_plugin_index(plugins.deep_view(), name@);
        if i0 >= 0 {
            assert(plugins.deep_view()[i0].name != name@);
        }
    }
    None
}

/// Register a plugin in a name-keyed list, replacing the first existing
/// entry of the same name in place.
fn catalog_insert(plugins: &mut Vec<Plugin>, p: Plugin)
    ensures
        final(plugins).deep_view() == spec_catalog_insert(old(plugins).deep_view(), p.deep_view()),
{
    match find_plugin_index(plugins, &p.name) {
        Some(i) => {
            plugins.remove(i);
            plugins.insert(i, p);
            assert(plugins@ =~= old(plugins)@.update(i as int, p));
            assert(plugins.deep_view() =~= old(plugins).deep_view().update(
                i as int,
                p.deep_view(),
            ));
        },
        None => {
            plugins.push(p);
            assert(plugins.deep_view() =~= old(plugins).deep_view().push(p.deep_view()));
        },
    }
}

impl PluginRegistry {
    /// An empty registry.
    pub fn new() -> (r: Self)
        ensures
            r.deep_view() == spec_registry_of(Seq::empty()),
    {
        let r = PluginRegistry {
            pre: Vec::new(),
            tts: Vec::new(),
            post: Vec::new(),
            converter: Vec::new(),
            by_name: Vec::new(),
        };
        proof {
            assert(r.pre.deep_view() =~= spec_role_list(Seq::empty(), PluginType::Pre));
            assert(r.tts.deep_view() =~= spec_role_list(Seq::empty(), PluginType::Tts));
            assert(r.post.deep_view() =~= spec_role_list(Seq::empty(), PluginType::Post));
            assert(r.converter.deep_view() =~= spec_role_list(Seq::empty(), PluginType::Converter));
            assert(r.by_name.deep_view() =~= spec_catalog(Seq::empty()));
        }
        r
    }

    /// Build the registry from a directory scan: every entry classified
    /// and registered, unless some descriptor failed to parse — then the
    /// whole scan fails with the first such failure (fail-fast, not
    /// skip-and-continue).
    pub fn load_plugins(entries: &Vec<PluginScanEntry>) -> (r: Result<PluginRegistry, RegistryError>)
        ensures
            match r {
                Ok(reg) => {
                    &&& forall|j: int|
                        0 <= j < entries.deep_view().len()
                            ==> #[trigger] entries.deep_view()[j].manifest is Ok
                    &&& reg.deep_view() == spec_registry_of(entries.deep_view())
                },
                Err(err) => exists|i: int|
                    {
                        &&& 0 <= i < entries.deep_view().len()
                        &&& (#[trigger] entries.deep_view()[i].manifest) is Err
                        &&& forall|j: int|
                            0 <= j < i ==> #[trigger] entries.deep_view()[j].manifest is Ok
                        &&& err.path@ == entries.deep_view()[i].path
                        &&& err.message@ == entries.deep_view()[i].manifest->Err_0
                    },
            },
    {
        let ghost dv = entries.deep_view();
        let mut reg = PluginRegistry::new();
        proof {
            assert(dv.subrange(0, 0) =~= Seq::<ScanEntryView>::empty());
        }
        let mut i: usize = 0;
        while i < entries.len()
            invariant
                i <= entries@.len(),
                dv == entries.deep_view(),
                dv.len() == entries@.len(),
                forall|j: int| 0 <= j < i ==> #[trigger] dv[j].manifest is Ok,
                reg.deep_view() == spec_registry_of(dv.subrange(0, i as int)),
            decreases entries@.len() - i,
        {
            let e = &entries[i];
            assert(dv[i as int] == e.deep_view());
            match &e.manifest {
                Err(msg) => {
                    return Err(RegistryError { path: e.path.clone(), message: msg.clone() });
                },
                Ok(m) => {
                    let plugin_type = resolve_plugin_type(m);
                    let options = options_from_table(&m.options);
                    let plugin = Plugin {
                        name: m.name.clone(),
                        plugin_type,
                        path: e.path.clone(),
                        options,
                        manifest: Some(m.clone()),
                    };
                    assert(plugin.deep_view() == spec_plugin_of(dv[i as int]));
                    let registered = plugin.clone();
                    catalog_insert(&mut reg.by_name, registered);
                    match plugin_type {
                        PluginType::Pre => reg.pre.push(plugin),
                        PluginType::Tts => reg.tts.push(plugin),
                        PluginType::Post => reg.post.push(plugin),
                        PluginType::Converter => reg.converter.push(plugin),
                    }
                },
            }
            proof {
                let prefix = dv.subrange(0, i as int);
                let step = dv.subrange(0, i as int + 1);
                assert(step.drop_last() =~= prefix);
                assert(step.last() == dv[i as int]);
                assert(reg.pre.deep_view() =~= spec_role_list(step, PluginType::Pre));
                assert(reg.tts.deep_view() =~= spec_role_list(step, PluginType::Tts));
                assert(reg.post.deep_view() =~= spec_role_list(step, PluginType::Post));
                assert(reg.converter.deep_view() =~= spec_role_list(step, PluginType::Converter));
                assert(reg.by_name.deep_view() =~= spec_catalog(step));
            }
            i = i + 1;
        }
        proof {
            assert(dv.subrange(0, dv.len() as int) =~= dv);
        }
        Ok(reg)
    }

    /// Look a plugin up by name.  Absent means not found, never an
    /// error.
    pub fn get(&self, name: &str) -> (r: Option<&Plugin>)
        ensures
            r.deep_view() == spec_catalog_find(self.deep_view().catalog, name@),
    {
        let owned = name.to_owned();
        match find_plugin_index(&self.by_name, &owned) {
            Some(i) => Some(&self.by_name[i]),
            None => None,
        }
    }

    /// Every registered plugin, in first-registration order.
    pub fn all(&self) -> (r: Vec<&Plugin>)
        ensures
            r.deep_view() == self.deep_view().catalog,
    {
        let mut r: Vec<&Plugin> = Vec::new();
        let mut i: usize = 0;
        while i < self.by_name.len()
            invariant
                i <= self.by_name@.len(),
                r@.len() == i,
                forall|k: int| 0 <= k < i ==> #[trigger] r@[k] == &self.by_name@[k],
            decreases self.by_name@.len() - i,
        {
            r.push(&self.by_name[i]);
            i = i + 1;
        }
        assert forall|k: int| 0 <= k < r@.len() implies #[trigger] r.deep_view()[k]
            == self.by_name.deep_view()[k] by {
            assert(r@[k] == &self.by_name@[k]);
        }
        assert(r.deep_view() =~= self.by_name.deep_view());
        assert(self.by_name.deep_view().subrange(0, self.by_name.deep_view().len() as int)
            =~= self.by_name.deep_view());
        r
    }

    /// Project a list of requested names onto registered plugins, in the
    /// requested order, silently omitting names with no match.
    pub fn pipeline_order(&self, order: &Vec<String>) -> (r: Vec<Plugin>)
        ensures
            r.deep_view() == spec_order_selection(self.deep_view().catalog, order.deep_view()),
    {
        let ghost cat = self.by_name.deep_view();
        let ghost ov = order.deep_view();
        let mut r: Vec<Plugin> = Vec::new();
        proof {
            assert(ov.subrange(0, 0) =~= Seq::<Seq<char>>::empty());
        }
        let mut i: usize = 0;
        while i < order.len()
            invariant
                i <= order@.len(),
                cat == self.by_name.deep_view(),
                ov == order.deep_view(),
                ov.len() == order@.len(),
                r.deep_view() == spec_order_selection(cat, ov.subrange(0, i as int)),
            decreases order@.len() - i,
        {
            assert(ov[i as int] == order@[i as int]@);
            match find_plugin_index(&self.by_name, &order[i]) {
                Some(idx) => {
                    r.push(self.by_name[idx].clone());
                },
                None => {},
            }
            proof {
                let step = ov.subrange(0, i as int + 1);
                assert(step.drop_last() =~= ov.subrange(0, i as int));
                assert(step.last() == ov[i as int]);
                assert(r.deep_view() =~= spec_order_selection(cat, step));
            }
            i = i + 1;
        }
        proof {
            assert(ov.subrange(0, ov.len() as int) =~= ov);
        }
        r
    }
}

/// The selection a list of requested names resolves to: matching catalog
/// entries in requested order, unmatched names silently omitted.
pub open spec fn spec_order_selection(cat: Seq<PluginView>, order: Seq<Seq<char>>) -> Seq<
    PluginView,
>
    decreases order.len(),
{
    if order.len() == 0 {
        Seq::empty()
    } else {
        let prev = spec_order_selection(cat, order.drop_last());
        match spec_catalog_find(cat, order.last()) {
            Some(p) => prev.push(p),
            None => prev,
        }
    }
}

impl Default for PluginRegistry {
    /// The empty registry.
    fn default() -> (r: Self)
        ensures
            r.deep_view() == spec_registry_of(Seq::empty()),
    {
        PluginRegistry::new()
    }
}

/// Plugins chosen for a pipeline, partitioned by role.  At most one
/// text-to-speech plugin is kept: the first one chosen.
pub struct PipelineSelection {
    pub pre: Vec<Plugin>,
    pub tts: Option<Plugin>,
    pub converters: Vec<Plugin>,
    pub post: Vec<Plugin>,
}

/// The chosen plugins of one role, in choice order; out-of-range
/// choices are ignored.
pub open spec fn spec_selection_of_role(
    all: Seq<PluginView>,
    picks: Seq<usize>,
    t: PluginType,
) -> Seq<PluginView>
    decreases picks.len(),
{
    if picks.len() == 0 {
        Seq::empty()
    } else {
        let prev = spec_selection_of_role(all, picks.drop_last(), t);
        let i = picks.last();
        if i < all.len() && all[i as int].plugin_type == t {
            prev.push(all[i as int])
        } else {
            prev
        }
    }
}

/// The first chosen text-to-speech plugin, if any.
pub open spec fn spec_first_tts_pick(all: Seq<PluginView>, picks: Seq<usize>) -> Option<PluginView>
    decreases picks.len(),
{
    if picks.len() == 0 {
        None
    } else {
        let prev = spec_first_tts_pick(all, picks.drop_last());
        if prev is Some {
            prev
        } else {
            let i = picks.last();
            if i < all.len() && all[i as int].plugin_type == PluginType::Tts {
                Some(all[i as int])
            } else {
                None
            }
        }
    }
}

/// Partition chosen plugins by role for an interactive configuration:
/// pre-processors, converters and post-processors in choice order, and
/// the first chosen text-to-speech plugin alone.
pub fn partition_selection(all: &Vec<Plugin>, picks: &Vec<usize>) -> (r: PipelineSelection)
    ensures
        r.pre.deep_view() == spec_selection_of_role(all.deep_view(), picks@, PluginType::Pre),
        r.tts.deep_view() == spec_first_tts_pick(all.deep_view(), picks@),
        r.converters.deep_view() == spec_selection_of_role(
            all.deep_view(),
            picks@,
            PluginType::Converter,
        ),
        r.post.deep_view() == spec_selection_of_role(all.deep_view(), picks@, PluginType::Post),
{
    let ghost av = all.deep_view();
    let ghost pv = picks@;
    let mut pre: Vec<Plugin> = Vec::new();
    let mut tts: Option<Plugin> = None;
    let mut converters: Vec<Plugin> = Vec::new();
    let mut post: Vec<Plugin> = Vec::new();
    proof {
        assert(pre.deep_view() =~= spec_selection_of_role(av, pv.subrange(0, 0), PluginType::Pre));
        assert(converters.deep_view() =~= spec_selection_of_role(
            av,
            pv.subrange(0, 0),
            PluginType::Converter,
        ));
        assert(post.deep_view() =~= spec_selection_of_role(
            av,
            pv.subrange(0, 0),
            PluginType::Post,
        ));
    }
    let mut j: usize = 0;
    while j < picks.len()
        invariant
            j <= picks@.len(),
            av == all.deep_view(),
            pv == picks@,
            av.len() == all@.len(),
            pre.deep_view() == spec_selection_of_role(av, pv.subrange(0, j as int), PluginType::Pre),
            tts.deep_view() == spec_first_tts_pick(av, pv.subrange(0, j as int)),
            converters.deep_view() == spec_selection_of_role(
                av,
                pv.subrange(0, j as int),
                PluginType::Converter,
            ),
            post.deep_view() == spec_selection_of_role(
                av,
                pv.subrange(0, j as int),
                PluginType::Post,
            ),
        decreases picks@.len() - j,
    {
        let idx = picks[j];
        if idx < all.len() {
            let p = &all[idx];
            assert(p.deep_view() == av[idx as int]);
            let ghost pre_before = pre.deep_view();
            let ghost conv_before = converters.deep_view();
            let ghost post_before = post.deep_view();
            match p.plugin_type {
                PluginType::Pre => {
                    let c = p.clone();
                    let ghost cv = c.deep_view();
                    pre.push(c);
                    proof {
                        assert forall|k: int| 0 <= k < pre@.len() implies #[trigger] pre.deep_view()[k]
                            == pre_before.push(cv)[k] by {
                            if k < pre@.len() - 1 {
                                assert(pre@[k] == pre@.subrange(0, pre@.len() - 1)[k]);
                            }
                        }
                        assert(pre.deep_view() =~= pre_before.push(cv));
                    }
                },
                PluginType::Tts => {
                    if matches!(tts, None) {
                        let c = p.clone();
                        tts = Some(c);
                    }
                },
                PluginType::Converter => {
                    let c = p.clone();
                    let ghost cv = c.deep_view();
                    converters.push(c);
                    proof {
                        assert forall|k: int|
                            0 <= k < converters@.len() implies #[trigger] converters.deep_view()[k]
                            == conv_before.push(cv)[k] by {
                            if k < converters@.len() - 1 {
                                assert(converters@[k] == converters@.subrange(
                                    0,
                                    converters@.len() - 1,
                                )[k]);
                            }
                        }
                        assert(converters.deep_view() =~= conv_before.push(cv));
                    }
                },
                PluginType::Post => {
                    let c = p.clone();
                    let ghost cv = c.deep_view();
                    post.push(c);
                    proof {
                        assert forall|k: int| 0 <= k < post@.len() implies #[trigger] post.deep_view()[k]
                            == post_before.push(cv)[k] by {
                            if k < post@.len() - 1 {
                                assert(post@[k] == post@.subrange(0, post@.len() - 1)[k]);
                            }
                        }
                        assert(post.deep_view() =~= post_before.push(cv));
                    }
                },
            }
        }
        proof {
            let step = pv.subrange(0, j as int + 1);
            assert(step.drop_last() =~= pv.subrange(0, j as int));
            assert(step.last() == pv[j as int]);
        }
        j = j + 1;
    }
    proof {
        assert(pv.subrange(0, pv.len() as int) =~= pv);
    }
    PipelineSelection { pre, tts, converters, post }
}

} // verus!
