//! Compiled severity filters.

use tracing_subscriber::filter::{EnvFilter, LevelFilter};
use vstd::prelude::*;

verus! {

/// The compiled filter of `tracing_subscriber`. Nothing inside it is visible
/// to the verifier; it is only carried from the parser to a layer.
#[verifier::external_type_specification]
#[verifier::external_body]
pub struct ExEnvFilter(EnvFilter);

/// How severe a record is, from the most severe to the least.
#[derive(Clone, Copy, Debug, PartialEq, Eq, Structural)]
pub enum Severity {
    Error,
    Warn,
    Info,
    Debug,
    Trace,
}

impl Severity {
    /// The directive that accepts records of this severity and of every
    /// greater one, whatever their target.
    pub open spec fn spec_directive(self) -> Seq<char> {
        match self {
            Severity::Error => "error"@,
            Severity::Warn => "warn"@,
            Severity::Info => "info"@,
            Severity::Debug => "debug"@,
            Severity::Trace => "trace"@,
        }
    }

    /// The directive that accepts records of this severity and of every
    /// greater one, whatever their target.
    pub fn directive(self) -> (text: &'static str)
        ensures
            text@ == self.spec_directive(),
    {
        match self {
            Severity::Error => "error",
            Severity::Warn => "warn",
            Severity::Info => "info",
            Severity::Debug => "debug",
            Severity::Trace => "trace",
        }
    }
}

/// The severity down to which a filter accepts records when its directive
/// string holds no directive at all: every record is accepted.
pub open spec fn spec_fallback() -> Severity {
    Severity::Trace
}

/// The directives that a filter holds after lossy parsing of `directive`
/// with the given fallback, in the text form in which the compiled filter
/// prints itself.
pub uninterp spec fn kept_directives(directive: Seq<char>, fallback: Severity) -> Seq<char>;

/// The directives of the filter that `FilterSpec::parse` compiles from
/// `directive`.
pub open spec fn parsed(directive: Seq<char>) -> Seq<char> {
    kept_directives(directive, spec_fallback())
}

/// A severity and target filter, compiled from a directive string such as
/// `"info,my_crate::db=debug"`.
///
/// Its view is the text of the directives it holds. Fragments of the source
/// string that are not valid directives are not part of it.
pub struct FilterSpec {
    text: String,
    compiled: EnvFilter,
}

impl View for FilterSpec {
    type V = Seq<char>;

    closed spec fn view(&self) -> Seq<char> {
        self.text@
    }
}

/// Calls `parse_lossy` on an `EnvFilter` builder whose default directive is
/// the level of `fallback`, and prints the result with its `Display` impl.
///
/// Trusted: the printed text is `kept_directives` of the two inputs. The
/// parser splits at commas, drops every fragment that is not a directive
/// with a line on standard error, and reads nothing but its arguments, so
/// equal inputs give equal text. For an empty string the builder's
/// documentation promises the default directive, which prints as the name
/// of its level.
#[verifier::external_body]
fn compile_lossy(directive: &str, fallback: Severity) -> (r: (EnvFilter, String))
    ensures
        r.1@ == kept_directives(directive@, fallback),
        directive@.len() == 0 ==> r.1@ == fallback.spec_directive(),
{
    let level = match fallback {
        Severity::Error => LevelFilter::ERROR,
        Severity::Warn => LevelFilter::WARN,
        Severity::Info => LevelFilter::INFO,
        Severity::Debug => LevelFilter::DEBUG,
        Severity::Trace => LevelFilter::TRACE,
    };
    let compiled = EnvFilter::builder().with_default_directive(level.into()).parse_lossy(directive);
    let text = compiled.to_string();
    (compiled, text)
}

impl FilterSpec {
    /// Compiles `directive`, with `fallback` as the severity down to which
    /// records are accepted if the string holds no directive. Never fails:
    /// whatever cannot be read as a directive is left out.
    pub fn parse_or(directive: &str, fallback: Severity) -> (spec: FilterSpec)
        ensures
            spec@ == kept_directives(directive@, fallback),
            directive@.len() == 0 ==> spec@ == fallback.spec_directive(),
    {
        let (compiled, text) = compile_lossy(directive, fallback);
        FilterSpec { text, compiled }
    }

    /// Compiles `directive`. Never fails: whatever cannot be read as a
    /// directive is left out, and a string without any directive gives the
    /// filter that accepts every record.
    pub fn parse(directive: &str) -> (spec: FilterSpec)
        ensures
            spec@ == parsed(directive@),
            directive@.len() == 0 ==> spec@ == Severity::Trace.spec_directive(),
    {
        Self::parse_or(directive, Severity::Trace)
    }

    /// The directives of this filter as text.
    pub fn directives(&self) -> (text: &str)
        ensures
            text@ == self@,
    {
        self.text.as_str()
    }

    /// Splits the filter into its compiled form, for a layer to own, and the
    /// text of its directives.
    pub fn into_parts(self) -> (parts: (EnvFilter, String))
        ensures
            parts.1@ == self@,
    {
        (self.compiled, self.text)
    }
}

} // verus!
