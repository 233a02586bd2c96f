//! Execution modifiers: an optional wrapper command and stdout/stderr routing,
//! attachable at session level (as inheritable defaults) and at job level (as
//! overrides). The configuration form leaves fields open; the resolved form
//! has inheritance applied and output routing closed.

use vstd::prelude::*;
use vstd::string::StringExecFns;
use vstd::string::StringExecFnsIsAscii;
use vstd::utf8::is_ascii_chars;

use crate::create::{CreationError, Field};

verus! {

/// The ways in which the output of a launched command may be routed.
#[derive(Clone, Debug, PartialEq, Eq)]
pub enum Output {
    /// Write the output only to the file at this path.
    File(String),
    /// Show the output only in the terminal; write no file.
    Piped,
    /// Show the output in the terminal and write it to the file at this path.
    Both(String),
    /// Capture no output at all.
    NoCapture,
}

/// Whether the path carried by an output routing, if any, is pure ascii.
pub open spec fn output_ascii(o: Output) -> bool {
    match o {
        Output::File(p) => is_ascii_chars(p@),
        Output::Both(p) => is_ascii_chars(p@),
        Output::Piped => true,
        Output::NoCapture => true,
    }
}

/// The path-free output routing a document names with a given string, if
/// any: `"terminal"` for [`Output::Piped`], `"none"` for
/// [`Output::NoCapture`].
pub open spec fn spec_output_from_name(s: Seq<char>) -> Option<Output> {
    if s == "terminal"@ {
        Some(Output::Piped)
    } else if s == "none"@ {
        Some(Output::NoCapture)
    } else {
        None
    }
}

/// The path-carrying output routing a document names with a given key, if
/// any: `"file"` for [`Output::File`], `"both"` for [`Output::Both`], each
/// holding the given path.
pub open spec fn spec_output_with_path(kind: Seq<char>, path: String) -> Option<Output> {
    if kind == "file"@ {
        Some(Output::File(path))
    } else if kind == "both"@ {
        Some(Output::Both(path))
    } else {
        None
    }
}

impl Output {
    /// The path-free output routing that a document names with this string:
    /// `"terminal"` shows output only in the terminal, `"none"` captures
    /// nothing. Any other string names no path-free routing.
    pub fn from_name(name: &String) -> (r: Option<Output>)
        ensures
            r == spec_output_from_name(name@),
    {
        let terminal: String = String::from_str("terminal");
        let none_name: String = String::from_str("none");
        if *name == terminal {
            Some(Output::Piped)
        } else if *name == none_name {
            Some(Output::NoCapture)
        } else {
            None
        }
    }

    /// The path-carrying output routing that a document names with this key:
    /// `"file"` writes the output to the path, `"both"` writes it and shows
    /// it. Any other key names no path-carrying routing.
    pub fn with_path(kind: &String, path: String) -> (r: Option<Output>)
        ensures
            r == spec_output_with_path(kind@, path),
    {
        let file: String = String::from_str("file");
        let both: String = String::from_str("both");
        if *kind == file {
            Some(Output::File(path))
        } else if *kind == both {
            Some(Output::Both(path))
        } else {
            None
        }
    }

    /// An explicit copy. Unlike with the derived clone, verified callers
    /// learn that the copy equals the original.
    pub fn duplicate(&self) -> (r: Output)
        ensures
            r == *self,
    {
        match self {
            Output::File(p) => Output::File(p.clone()),
            Output::Piped => Output::Piped,
            Output::Both(p) => Output::Both(p.clone()),
            Output::NoCapture => Output::NoCapture,
        }
    }

    /// True exactly when the carried path, if any, is pure ascii.
    pub fn path_is_ascii(&self) -> (r: bool)
        ensures
            r == output_ascii(*self),
    {
        match self {
            Output::File(p) => p.is_ascii(),
            Output::Both(p) => p.is_ascii(),
            Output::Piped => true,
            Output::NoCapture => true,
        }
    }
}

/// A wrapper command and stdout/stderr routing. `W` and `P` choose between
/// the configuration form ([`ModifiersConfiguration`]), where everything is
/// optional, and the resolved form ([`Modifiers`]), where output routing is
/// closed.
#[derive(Clone, Debug, PartialEq, Eq)]
pub struct ModifiersBase<W, P> {
    /// An optional wrapper command prepended to each job, e.g. `time`,
    /// `strace`, `srun -N1`.
    pub wrapper: W,
    /// Routing for the stdout of launched commands.
    pub stdout: P,
    /// Routing for the stderr of launched commands.
    pub stderr: P,
}

/// Modifiers as they stand in a raw document: every field may be absent, to
/// be inherited from the session-level defaults or closed during resolution.
pub type ModifiersConfiguration = ModifiersBase<Option<String>, Option<Output>>;

/// Modifiers with inheritance applied and output routing closed; absence of
/// routing has become [`Output::NoCapture`].
pub type Modifiers = ModifiersBase<Option<String>, Output>;

/// Whether an optional string, if present, is pure ascii.
pub open spec fn opt_string_ascii(s: Option<String>) -> bool {
    match s {
        Some(x) => is_ascii_chars(x@),
        None => true,
    }
}

/// Whether an optional output routing, if present, carries only ascii paths.
pub open spec fn opt_output_ascii(o: Option<Output>) -> bool {
    match o {
        Some(x) => output_ascii(x),
        None => true,
    }
}

/// The first field of a modifiers record holding a non-ascii string, in
/// checking order, if any.
pub open spec fn modifiers_offending_field(m: ModifiersConfiguration) -> Option<Field> {
    if !opt_string_ascii(m.wrapper) {
        Some(Field::Wrapper)
    } else if !opt_output_ascii(m.stdout) {
        Some(Field::Stdout)
    } else if !opt_output_ascii(m.stderr) {
        Some(Field::Stderr)
    } else {
        None
    }
}

/// Whether every string of a modifiers record is pure ascii.
pub open spec fn modifiers_ascii(m: ModifiersConfiguration) -> bool {
    modifiers_offending_field(m) is None
}

/// One-shot inheritance: every field of `m` that is unset takes the value of
/// the session-level default; fields already present are never overwritten.
pub open spec fn spec_fill_in(
    m: ModifiersConfiguration,
    defaults: ModifiersConfiguration,
) -> ModifiersConfiguration {
    ModifiersBase {
        wrapper: if m.wrapper is Some {
            m.wrapper
        } else {
            defaults.wrapper
        },
        stdout: if m.stdout is Some {
            m.stdout
        } else {
            defaults.stdout
        },
        stderr: if m.stderr is Some {
            m.stderr
        } else {
            defaults.stderr
        },
    }
}

/// Closing of the optional output fields: an absent routing becomes
/// [`Output::NoCapture`]; the wrapper stays as it is.
pub open spec fn spec_resolve_output(o: Option<Output>) -> Output {
    match o {
        Some(x) => x,
        None => Output::NoCapture,
    }
}

/// What resolving a modifiers record yields: the wrapper verbatim, the output
/// fields closed.
pub open spec fn spec_resolve_modifiers(m: ModifiersConfiguration) -> Modifiers {
    ModifiersBase {
        wrapper: m.wrapper,
        stdout: spec_resolve_output(m.stdout),
        stderr: spec_resolve_output(m.stderr),
    }
}

/// A resolved modifiers record re-wrapped as configuration form: every field
/// reads as explicitly present (the wrapper keeps its optionality, which is
/// part of its resolved value).
pub open spec fn modifiers_as_configuration(m: Modifiers) -> ModifiersConfiguration {
    ModifiersBase {
        wrapper: m.wrapper,
        stdout: Some(m.stdout),
        stderr: Some(m.stderr),
    }
}

/// An explicit copy of an optional string, known to equal the original.
pub(crate) fn clone_opt_string(s: &Option<String>) -> (r: Option<String>)
    ensures
        r == *s,
{
    match s {
        Some(x) => Some(x.clone()),
        None => None,
    }
}

/// An explicit copy of an optional output routing, known to equal the
/// original.
pub(crate) fn clone_opt_output(o: &Option<Output>) -> (r: Option<Output>)
    ensures
        r == *o,
{
    match o {
        Some(x) => Some(x.duplicate()),
        None => None,
    }
}

impl ModifiersConfiguration {
    /// An explicit copy, known to equal the original.
    pub fn duplicate(&self) -> (r: ModifiersConfiguration)
        ensures
            r == *self,
    {
        ModifiersBase {
            wrapper: clone_opt_string(&self.wrapper),
            stdout: clone_opt_output(&self.stdout),
            stderr: clone_opt_output(&self.stderr),
        }
    }

    /// Copies each unset field from the session-level defaults `other`, once;
    /// fields already set are kept as they are.
    pub fn fill_in(&mut self, other: &ModifiersConfiguration)
        ensures
            *final(self) == spec_fill_in(*old(self), *other),
    {
        if self.wrapper.is_none() && other.wrapper.is_some() {
            self.wrapper = clone_opt_string(&other.wrapper);
        }
        if self.stdout.is_none() && other.stdout.is_some() {
            self.stdout = clone_opt_output(&other.stdout);
        }
        if self.stderr.is_none() && other.stderr.is_some() {
            self.stderr = clone_opt_output(&other.stderr);
        }
    }

    /// Accepts the record exactly when the wrapper and every output path are
    /// pure ascii; the first offending field is reported otherwise.
    pub fn validate(&self) -> (r: Result<&Self, CreationError>)
        ensures
            r is Ok <==> modifiers_ascii(*self),
            r is Ok ==> r.unwrap() == self,
            r is Err ==> r.unwrap_err() == CreationError::NotAscii(
                modifiers_offending_field(*self).unwrap(),
            ),
    {
        match &self.wrapper {
            Some(w) => {
                if !w.is_ascii() {
                    return Err(CreationError::NotAscii(Field::Wrapper));
                }
            },
            None => {},
        }
        match &self.stdout {
            Some(o) => {
                if !o.path_is_ascii() {
                    return Err(CreationError::NotAscii(Field::Stdout));
                }
            },
            None => {},
        }
        match &self.stderr {
            Some(o) => {
                if !o.path_is_ascii() {
                    return Err(CreationError::NotAscii(Field::Stderr));
                }
            },
            None => {},
        }
        Ok(self)
    }
}

impl Default for ModifiersConfiguration {
    /// A modifiers record with nothing set: everything is left to inherit or
    /// to resolve to its default.
    fn default() -> (r: Self)
        ensures
            r.wrapper is None,
            r.stdout is None,
            r.stderr is None,
    {
        ModifiersBase { wrapper: None, stdout: None, stderr: None }
    }
}

impl Modifiers {
    /// Resolution of one modifiers record: closes the output fields, keeping
    /// the wrapper verbatim. Inheritance is the caller's step, done before
    /// this one with [`ModifiersConfiguration::fill_in`].
    pub fn resolve(m: ModifiersConfiguration) -> (r: Modifiers)
        ensures
            r == spec_resolve_modifiers(m),
    {
        let ModifiersBase { wrapper, stdout, stderr } = m;
        ModifiersBase {
            wrapper,
            stdout: match stdout {
                Some(o) => o,
                None => Output::NoCapture,
            },
            stderr: match stderr {
                Some(o) => o,
                None => Output::NoCapture,
            },
        }
    }
}

/// Law: modifier resolution is one-shot. A record that was filled in from
/// session defaults and resolved, once re-wrapped as configuration form and
/// put through the same two steps again — against the equally re-wrapped
/// resolved defaults — comes out unchanged.
pub proof fn lemma_modifiers_resolution_idempotent(
    m: ModifiersConfiguration,
    defaults: ModifiersConfiguration,
)
    ensures
        spec_resolve_modifiers(
            spec_fill_in(
                modifiers_as_configuration(spec_resolve_modifiers(spec_fill_in(m, defaults))),
                modifiers_as_configuration(spec_resolve_modifiers(defaults)),
            ),
        ) == spec_resolve_modifiers(spec_fill_in(m, defaults)),
{
}

} // verus!
