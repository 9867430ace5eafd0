//! Command-line argument parsing for the pipeline runner: orchestration
//! document path, plugins directory, and input/output overrides.

use vstd::prelude::*;

use crate::options::string_eq;

verus! {

/// Parsed command line of a pipeline run.
pub struct ParsedArgs {
    /// Path of the orchestration document.
    pub orchestration: String,
    /// Plugins base directory, when given.
    pub plugins_dir: Option<String>,
    /// Input source overriding the document's, when given.
    pub input_override: Option<String>,
    /// Output destination overriding the document's, when given.
    pub output_override: Option<String>,
}

/// Mathematical view of a parsed command line.
#[verifier::ext_equal]
pub struct ParsedArgsView {
    pub orchestration: Seq<char>,
    pub plugins_dir: Option<Seq<char>>,
    pub input_override: Option<Seq<char>>,
    pub output_override: Option<Seq<char>>,
}

impl DeepView for ParsedArgs {
    type V = ParsedArgsView;

    open spec fn deep_view(&self) -> ParsedArgsView {
        ParsedArgsView {
            orchestration: self.orchestration@,
            plugins_dir: self.plugins_dir.deep_view(),
            input_override: self.input_override.deep_view(),
            output_override: self.output_override.deep_view(),
        }
    }
}

/// What an empty command line parses to.
pub open spec fn spec_default_args() -> ParsedArgsView {
    ParsedArgsView {
        orchestration: "orchestration.cr"@,
        plugins_dir: None,
        input_override: None,
        output_override: None,
    }
}

/// One pass over the arguments from position `i`: flags take the
/// following argument as their value (and are ignored without one); a
/// bare argument names the orchestration document, but only while the
/// document is still the default and the argument does not look like a
/// flag.
pub open spec fn spec_parse_from(args: Seq<Seq<char>>, i: int, acc: ParsedArgsView) -> ParsedArgsView
    decreases args.len() - i,
{
    if i < 0 || i >= args.len() {
        acc
    } else {
        let a = args[i];
        if a == "run"@ || a == "--orchestration"@ || a == "-o"@ {
            if i + 1 < args.len() {
                spec_parse_from(args, i + 2, ParsedArgsView { orchestration: args[i + 1], ..acc })
            } else {
                spec_parse_from(args, i + 1, acc)
            }
        } else if a == "--plugins"@ || a == "-p"@ {
            if i + 1 < args.len() {
                spec_parse_from(
                    args,
                    i + 2,
                    ParsedArgsView { plugins_dir: Some(args[i + 1]), ..acc },
                )
            } else {
                spec_parse_from(args, i + 1, acc)
            }
        } else if a == "--input"@ || a == "-i"@ {
            if i + 1 < args.len() {
                spec_parse_from(
                    args,
                    i + 2,
                    ParsedArgsView { input_override: Some(args[i + 1]), ..acc },
                )
            } else {
                spec_parse_from(args, i + 1, acc)
            }
        } else if a == "--output"@ {
            if i + 1 < args.len() {
                spec_parse_from(
                    args,
                    i + 2,
                    ParsedArgsView { output_override: Some(args[i + 1]), ..acc },
                )
            } else {
                spec_parse_from(args, i + 1, acc)
            }
        } else {
            if acc.orchestration == "orchestration.cr"@ && !(a.len() > 0 && a[0] == '-') {
                spec_parse_from(args, i + 1, ParsedArgsView { orchestration: a, ..acc })
            } else {
                spec_parse_from(args, i + 1, acc)
            }
        }
    }
}

/// What a full command line parses to; the first argument is the
/// program name and is skipped.
pub open spec fn spec_parse_args(args: Seq<Seq<char>>) -> ParsedArgsView {
    spec_parse_from(args, 1, spec_default_args())
}

/// Parse the command line of a pipeline run.
pub fn parse_args(args: &Vec<String>) -> (r: ParsedArgs)
    ensures
        r.deep_view() == spec_parse_args(args.deep_view()),
{
    let ghost av = args.deep_view();
    let mut acc = ParsedArgs {
        orchestration: "orchestration.cr".to_owned(),
        plugins_dir: None,
        input_override: None,
        output_override: None,
    };
    assert(acc.deep_view() =~= spec_default_args());
    let mut i: usize = 1;
    while i < args.len()
        invariant
            1 <= i,
            av == args.deep_view(),
            av.len() == args@.len(),
            spec_parse_from(av, 1, spec_default_args()) == spec_parse_from(
                av,
                i as int,
                acc.deep_view(),
            ),
        decreases args@.len() - i,
    {
        let ghost i0 = i as int;
        let ghost pre = acc.deep_view();
        let a = &args[i];
        assert(a@ == av[i0]);
        if string_eq(a, &"run".to_owned()) || string_eq(a, &"--orchestration".to_owned())
            || string_eq(a, &"-o".to_owned()) {
            if i + 1 < args.len() {
                assert(args@[i0 + 1]@ == av[i0 + 1]);
                acc.orchestration = args[i + 1].clone();
                i = i + 2;
            } else {
                i = i + 1;
            }
        } else if string_eq(a, &"--plugins".to_owned()) || string_eq(a, &"-p".to_owned()) {
            if i + 1 < args.len() {
                assert(args@[i0 + 1]@ == av[i0 + 1]);
                acc.plugins_dir = Some(args[i + 1].clone());
                i = i + 2;
            } else {
                i = i + 1;
            }
        } else if string_eq(a, &"--input".to_owned()) || string_eq(a, &"-i".to_owned()) {
            if i + 1 < args.len() {
                assert(args@[i0 + 1]@ == av[i0 + 1]);
                acc.input_override = Some(args[i + 1].clone());
                i = i + 2;
            } else {
                i = i + 1;
            }
        } else if string_eq(a, &"--output".to_owned()) {
            if i + 1 < args.len() {
                assert(args@[i0 + 1]@ == av[i0 + 1]);
                acc.output_override = Some(args[i + 1].clone());
                i = i + 2;
            } else {
                i = i + 1;
            }
        } else {
            let is_default = string_eq(&acc.orchestration, &"orchestration.cr".to_owned());
            let looks_like_flag = a.as_str().unicode_len() > 0 && a.as_str().get_char(0) == '-';
            if is_default && !looks_like_flag {
                acc.orchestration = a.clone();
            }
            i = i + 1;
        }
        assert(spec_parse_from(av, i0, pre) == spec_parse_from(av, i as int, acc.deep_view()));
    }
    acc
}

} // verus!
