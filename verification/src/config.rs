//! The processed start-up configuration and the macro loader's decisions.
//!
//! The macro source named on the command line is either a URL, handed on
//! unchanged for the UI layer to fetch, or a local path, whose contents the
//! binary reads before start-up completes. [`plan_macros`] makes that
//! decision; [`assemble`] builds the configuration the session will hold.

use crate::args::Args;
use crate::chars::has_prefix;
use vstd::prelude::*;

verus! {

/// Start-up configuration after macro resolution: the output path and data
/// pass through [`Args`] unchanged, the macro source is replaced by its
/// content (or by the URL itself, left for the UI layer).
pub struct ProcessedArgs {
    /// Path to the file where diagram code is written on exit, if given.
    pub output_file: Option<String>,
    /// Text of the macro file, or the URL it is to be fetched from, if given.
    pub macro_content: Option<String>,
    /// Base64-encoded diagram data to load on startup, if given.
    pub data: Option<String>,
}

/// Mathematical model of [`ProcessedArgs`]: each field as a character
/// sequence.
pub ghost struct ProcessedArgsView {
    pub output_file: Option<Seq<char>>,
    pub macro_content: Option<Seq<char>>,
    pub data: Option<Seq<char>>,
}

impl View for ProcessedArgs {
    type V = ProcessedArgsView;

    open spec fn view(&self) -> ProcessedArgsView {
        ProcessedArgsView {
            output_file: self.output_file.deep_view(),
            macro_content: self.macro_content.deep_view(),
            data: self.data.deep_view(),
        }
    }
}

/// The defensive default: every field absent.
pub open spec fn empty_processed() -> ProcessedArgsView {
    ProcessedArgsView { output_file: None, macro_content: None, data: None }
}

impl ProcessedArgs {
    /// The configuration with every field absent.
    pub fn empty() -> (r: Self)
        ensures
            r@ == empty_processed(),
    {
        ProcessedArgs { output_file: None, macro_content: None, data: None }
    }
}

impl Clone for ProcessedArgs {
    fn clone(&self) -> (r: Self)
        ensures
            r@ == self@,
    {
        ProcessedArgs {
            output_file: clone_opt_string(&self.output_file),
            macro_content: clone_opt_string(&self.macro_content),
            data: clone_opt_string(&self.data),
        }
    }
}

/// A copy of an optional string with the same characters.
pub fn clone_opt_string(o: &Option<String>) -> (r: Option<String>)
    ensures
        r.deep_view() == o.deep_view(),
{
    match o {
        Some(s) => Some(s.clone()),
        None => None,
    }
}

/// A macro source the shell does not read itself: a `http://` or `https://`
/// URL, fetched later by the UI layer.
pub open spec fn spec_is_url(s: Seq<char>) -> bool {
    "http://"@.is_prefix_of(s) || "https://"@.is_prefix_of(s)
}

/// Whether a macro source string names a URL rather than a local path.
pub fn is_url(s: &str) -> (r: bool)
    ensures
        r == spec_is_url(s@),
{
    has_prefix(s, "http://") || has_prefix(s, "https://")
}

/// What the macro loader is to do for a given macro source.
pub enum MacroPlan {
    /// No source was given: the configuration carries no macro content.
    NoMacros,
    /// The source is a URL: it is handed on unchanged.
    UseUrl { url: String },
    /// The source is a local path: its contents are to be read, and failure
    /// to read them is a fatal start-up error.
    ReadFile { path: String },
}

/// The plan the macro loader owes a given macro source: absent stays absent,
/// a URL passes through unchanged, anything else is read as a file.
pub open spec fn plan_of(macros: Option<Seq<char>>, r: MacroPlan) -> bool {
    match macros {
        None => r is NoMacros,
        Some(m) => if spec_is_url(m) {
            r matches MacroPlan::UseUrl { url } && url@ == m
        } else {
            r matches MacroPlan::ReadFile { path } && path@ == m
        },
    }
}

/// Decides how the macro source of [`Args`] is resolved.
pub fn plan_macros(macros: &Option<String>) -> (r: MacroPlan)
    ensures
        plan_of(macros.deep_view(), r),
{
    match macros {
        None => MacroPlan::NoMacros,
        Some(m) => {
            if is_url(m.as_str()) {
                MacroPlan::UseUrl { url: m.clone() }
            } else {
                MacroPlan::ReadFile { path: m.clone() }
            }
        },
    }
}

/// Builds the processed configuration: output path and data pass through the
/// parsed arguments unchanged, the macro content is whatever resolution
/// produced.
pub fn assemble(args: Args, macro_content: Option<String>) -> (r: ProcessedArgs)
    ensures
        r@.output_file == args@.output_file,
        r@.macro_content == macro_content.deep_view(),
        r@.data == args@.data,
{
    ProcessedArgs { output_file: args.output_file, macro_content, data: args.data }
}

/// Diagnostic for a macro path that could not be resolved; start-up then
/// fails.
pub fn macro_not_found_message(path: &str, error: &str) -> (r: String)
    ensures
        r@ == "Error: Could not find macro file '"@ + path@ + "': "@ + error@,
{
    let mut s = String::from_str("Error: Could not find macro file '");
    s.append(path);
    s.append("': ");
    s.append(error);
    s
}

/// Diagnostic for a macro file that resolved but could not be read;
/// start-up then fails.
pub fn macro_read_failed_message(path: &str, error: &str) -> (r: String)
    ensures
        r@ == "Error: Failed to read macro file '"@ + path@ + "': "@ + error@,
{
    let mut s = String::from_str("Error: Failed to read macro file '");
    s.append(path);
    s.append("': ");
    s.append(error);
    s
}

/// Notice naming the resolved macro file once its contents were read.
pub fn macro_loaded_message(path: &str) -> (r: String)
    ensures
        r@ == "Loaded macro file: "@ + path@,
{
    let mut s = String::from_str("Loaded macro file: ");
    s.append(path);
    s
}

} // verus!
