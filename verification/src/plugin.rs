//! Plugin model: the role enum, the manifest read from a plugin's
//! descriptor file, and the optional in-process plugin traits.
//!
//! Each data type carries a mathematical view (`deep_view`) over which the
//! registry, validator and pipeline contracts are stated.

use vstd::prelude::*;

verus! {

/// Flat option table handed to a plugin invocation: option name to value,
/// both in string form.
pub type PluginOptions = Vec<(String, String)>;

/// Plugin role in the pipeline.
#[derive(Clone, Copy, PartialEq, Eq, Structural, Debug)]
pub enum PluginType {
    Pre,
    Tts,
    Post,
    Converter,
}

/// The short tag each role prints as.
pub open spec fn spec_type_name(t: PluginType) -> Seq<char> {
    match t {
        PluginType::Pre => "pre"@,
        PluginType::Tts => "tts"@,
        PluginType::Post => "post"@,
        PluginType::Converter => "converter"@,
    }
}

impl PluginType {
    pub fn as_str(&self) -> (s: &'static str)
        ensures
            s@ == spec_type_name(*self),
    {
        match self {
            PluginType::Pre => "pre",
            PluginType::Tts => "tts",
            PluginType::Post => "post",
            PluginType::Converter => "converter",
        }
    }
}

/// The `default` sub-field of a structured option record, when declared.
/// Only plain literals are usable as defaults; any other shape is dropped
/// by the coercion, not an error.
pub enum OptionDefault {
    Text(String),
    Integer(i64),
    Boolean(bool),
    /// A float literal, carried in its rendered text form.
    Decimal(String),
    /// A nested table, array, or other shape no default can be read from.
    Unsupported,
}

/// One declared option value from a manifest or an override table,
/// reduced to the plain shapes the option coercion reads.
pub enum OptionValue {
    Text(String),
    Integer(i64),
    Boolean(bool),
    /// A float literal, carried in its rendered text form.
    Decimal(String),
    /// A structured record; holds its `default` sub-field when one is
    /// declared.
    Record(Option<OptionDefault>),
    /// Any other shape (array, datetime, ...): dropped by the coercion.
    Other,
}

/// Mathematical view of an `OptionDefault`.
pub enum OptionDefaultView {
    Text(Seq<char>),
    Integer(int),
    Boolean(bool),
    Decimal(Seq<char>),
    Unsupported,
}

/// Mathematical view of an `OptionValue`.
pub enum OptionValueView {
    Text(Seq<char>),
    Integer(int),
    Boolean(bool),
    Decimal(Seq<char>),
    Record(Option<OptionDefaultView>),
    Other,
}

impl DeepView for OptionDefault {
    type V = OptionDefaultView;

    open spec fn deep_view(&self) -> OptionDefaultView {
        match self {
            OptionDefault::Text(s) => OptionDefaultView::Text(s@),
            OptionDefault::Integer(i) => OptionDefaultView::Integer(*i as int),
            OptionDefault::Boolean(b) => OptionDefaultView::Boolean(*b),
            OptionDefault::Decimal(s) => OptionDefaultView::Decimal(s@),
            OptionDefault::Unsupported => OptionDefaultView::Unsupported,
        }
    }
}

impl DeepView for OptionValue {
    type V = OptionValueView;

    open spec fn deep_view(&self) -> OptionValueView {
        match self {
            OptionValue::Text(s) => OptionValueView::Text(s@),
            OptionValue::Integer(i) => OptionValueView::Integer(*i as int),
            OptionValue::Boolean(b) => OptionValueView::Boolean(*b),
            OptionValue::Decimal(s) => OptionValueView::Decimal(s@),
            OptionValue::Record(d) => OptionValueView::Record(d.deep_view()),
            OptionValue::Other => OptionValueView::Other,
        }
    }
}

impl Clone for OptionDefault {
    fn clone(&self) -> (r: Self)
        ensures
            r == *self,
    {
        match self {
            OptionDefault::Text(s) => OptionDefault::Text(s.clone()),
            OptionDefault::Integer(i) => OptionDefault::Integer(*i),
            OptionDefault::Boolean(b) => OptionDefault::Boolean(*b),
            OptionDefault::Decimal(s) => OptionDefault::Decimal(s.clone()),
            OptionDefault::Unsupported => OptionDefault::Unsupported,
        }
    }
}

impl Clone for OptionValue {
    fn clone(&self) -> (r: Self)
        ensures
            r == *self,
    {
        match self {
            OptionValue::Text(s) => OptionValue::Text(s.clone()),
            OptionValue::Integer(i) => OptionValue::Integer(*i),
            OptionValue::Boolean(b) => OptionValue::Boolean(*b),
            OptionValue::Decimal(s) => OptionValue::Decimal(s.clone()),
            OptionValue::Record(None) => OptionValue::Record(None),
            OptionValue::Record(Some(d)) => OptionValue::Record(Some(d.clone())),
            OptionValue::Other => OptionValue::Other,
        }
    }
}

/// Declared capability set of a plugin: accepted input media types,
/// produced output media types, and execution hints.  Declaring neither
/// input nor output types means "no constraint, always compatible."
pub struct ManifestCapabilities {
    pub input: Option<Vec<String>>,
    pub output: Option<Vec<String>>,
    pub mode: Option<String>,
    pub preprocessor: Option<bool>,
    pub tts: Option<bool>,
    pub postprocessor: Option<bool>,
    pub output_formats: Option<Vec<String>>,
}

/// Mathematical view of a capability set.
pub struct CapsView {
    pub input: Option<Seq<Seq<char>>>,
    pub output: Option<Seq<Seq<char>>>,
    pub mode: Option<Seq<char>>,
    pub preprocessor: Option<bool>,
    pub tts: Option<bool>,
    pub postprocessor: Option<bool>,
    pub output_formats: Option<Seq<Seq<char>>>,
}

impl DeepView for ManifestCapabilities {
    type V = CapsView;

    open spec fn deep_view(&self) -> CapsView {
        CapsView {
            input: self.input.deep_view(),
            output: self.output.deep_view(),
            mode: self.mode.deep_view(),
            preprocessor: self.preprocessor,
            tts: self.tts,
            postprocessor: self.postprocessor,
            output_formats: self.output_formats.deep_view(),
        }
    }
}

/// Clone a vector of strings; the copy has the same view.
pub fn clone_string_vec(v: &Vec<String>) -> (r: Vec<String>)
    ensures
        r@ == v@,
{
    let mut r: Vec<String> = Vec::new();
    let mut i: usize = 0;
    while i < v.len()
        invariant
            i <= v@.len(),
            r@ == v@.subrange(0, i as int),
        decreases v@.len() - i,
    {
        r.push(v[i].clone());
        assert(r@ =~= v@.subrange(0, i as int + 1));
        i = i + 1;
    }
    assert(r@ =~= v@);
    r
}

fn clone_opt_string_vec(v: &Option<Vec<String>>) -> (r: Option<Vec<String>>)
    ensures
        r.deep_view() == v.deep_view(),
        r is Some <==> v is Some,
{
    match v {
        None => None,
        Some(inner) => Some(clone_string_vec(inner)),
    }
}

fn clone_opt_string(v: &Option<String>) -> (r: Option<String>)
    ensures
        r == *v,
{
    match v {
        None => None,
        Some(s) => Some(s.clone()),
    }
}

impl Clone for ManifestCapabilities {
    fn clone(&self) -> (r: Self)
        ensures
            r.deep_view() == self.deep_view(),
    {
        ManifestCapabilities {
            input: clone_opt_string_vec(&self.input),
            output: clone_opt_string_vec(&self.output),
            mode: clone_opt_string(&self.mode),
            preprocessor: self.preprocessor,
            tts: self.tts,
            postprocessor: self.postprocessor,
            output_formats: clone_opt_string_vec(&self.output_formats),
        }
    }
}

/// Parsed plugin descriptor: identity, declared role, capabilities and
/// options schema.
pub struct PluginManifest {
    pub name: String,
    pub version: String,
    pub api_version: Option<String>,
    /// The declared role string, when the descriptor names one.
    pub role: Option<String>,
    pub description: Option<String>,
    pub entrypoint: Option<String>,
    pub capabilities: Option<ManifestCapabilities>,
    /// Declared options: option name to declared value or record.
    pub options: Option<Vec<(String, OptionValue)>>,
}

/// Mathematical view of a manifest.
pub struct ManifestView {
    pub name: Seq<char>,
    pub version: Seq<char>,
    pub api_version: Option<Seq<char>>,
    pub role: Option<Seq<char>>,
    pub description: Option<Seq<char>>,
    pub entrypoint: Option<Seq<char>>,
    pub capabilities: Option<CapsView>,
    pub options: Option<Seq<(Seq<char>, OptionValueView)>>,
}

impl DeepView for PluginManifest {
    type V = ManifestView;

    open spec fn deep_view(&self) -> ManifestView {
        ManifestView {
            name: self.name@,
            version: self.version@,
            api_version: self.api_version.deep_view(),
            role: self.role.deep_view(),
            description: self.description.deep_view(),
            entrypoint: self.entrypoint.deep_view(),
            capabilities: self.capabilities.deep_view(),
            options: self.options.deep_view(),
        }
    }
}

fn clone_option_decls(v: &Vec<(String, OptionValue)>) -> (r: Vec<(String, OptionValue)>)
    ensures
        r@ == v@,
{
    let mut r: Vec<(String, OptionValue)> = Vec::new();
    let mut i: usize = 0;
    while i < v.len()
        invariant
            i <= v@.len(),
            r@ == v@.subrange(0, i as int),
        decreases v@.len() - i,
    {
        let (k, val) = &v[i];
        r.push((k.clone(), val.clone()));
        assert(r@ =~= v@.subrange(0, i as int + 1));
        i = i + 1;
    }
    assert(r@ =~= v@);
    r
}

impl Clone for PluginManifest {
    fn clone(&self) -> (r: Self)
        ensures
            r.deep_view() == self.deep_view(),
    {
        PluginManifest {
            name: self.name.clone(),
            version: self.version.clone(),
            api_version: clone_opt_string(&self.api_version),
            role: clone_opt_string(&self.role),
            description: clone_opt_string(&self.description),
            entrypoint: clone_opt_string(&self.entrypoint),
            capabilities: match &self.capabilities {
                None => None,
                Some(c) => Some(c.clone()),
            },
            options: match &self.options {
                None => None,
                Some(o) => Some(clone_option_decls(o)),
            },
        }
    }
}

/// Clone a flat option table; the copy has the same view.
pub fn clone_options(v: &PluginOptions) -> (r: PluginOptions)
    ensures
        r@ == v@,
{
    let mut r: PluginOptions = Vec::new();
    let mut i: usize = 0;
    while i < v.len()
        invariant
            i <= v@.len(),
            r@ == v@.subrange(0, i as int),
        decreases v@.len() - i,
    {
        let (k, val) = &v[i];
        r.push((k.clone(), val.clone()));
        assert(r@ =~= v@.subrange(0, i as int + 1));
        i = i + 1;
    }
    assert(r@ =~= v@);
    r
}

/// Discovered plugin: directory path plus manifest-derived information.
pub struct Plugin {
    pub name: String,
    pub plugin_type: PluginType,
    /// Directory containing the descriptor and entrypoint.
    pub path: String,
    /// Resolved default option values.
    pub options: PluginOptions,
    pub manifest: Option<PluginManifest>,
}

/// Mathematical view of a discovered plugin.
pub struct PluginView {
    pub name: Seq<char>,
    pub plugin_type: PluginType,
    pub path: Seq<char>,
    pub options: Seq<(Seq<char>, Seq<char>)>,
    pub manifest: Option<ManifestView>,
}

impl DeepView for Plugin {
    type V = PluginView;

    open spec fn deep_view(&self) -> PluginView {
        PluginView {
            name: self.name@,
            plugin_type: self.plugin_type,
            path: self.path@,
            options: self.options.deep_view(),
            manifest: self.manifest.deep_view(),
        }
    }
}

impl Clone for Plugin {
    fn clone(&self) -> (r: Self)
        ensures
            r.deep_view() == self.deep_view(),
    {
        let r = Plugin {
            name: self.name.clone(),
            plugin_type: self.plugin_type,
            path: self.path.clone(),
            options: clone_options(&self.options),
            manifest: match &self.manifest {
                None => None,
                Some(m) => Some(m.clone()),
            },
        };
        assert(r.options.deep_view() =~= self.options.deep_view());
        r
    }
}

// Optional in-process plugin traits, for plugins linked natively instead
// of spawned as subprocesses.  Implementations are the user's.

pub trait PreProcessor {
    fn name(&self) -> &str;

    fn process(&self, input: &str, options: &PluginOptions) -> String;
}

pub trait Tts {
    fn name(&self) -> &str;

    fn synthesize(&self, input: &str, options: &PluginOptions) -> Vec<u8>;
}

pub trait PostProcessor {
    fn name(&self) -> &str;

    fn process(&self, input: &Vec<u8>, options: &PluginOptions) -> Vec<u8>;
}

} // verus!
