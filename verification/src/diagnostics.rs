//! Warnings as data: the library never prints. Whoever runs it decides where
//! the collected diagnostics go.

use vstd::prelude::*;

verus! {

/// The type a configuration key is expected to hold.
#[derive(Clone, Copy, Debug, PartialEq, Eq, Structural)]
pub enum ValueKind {
    Boolean,
    Text,
}

/// One warning raised while a hook runs.
#[derive(Debug, PartialEq, Eq)]
pub enum Diagnostic {
    /// A configuration key is present but holds a value of another type.
    WrongType { key: String, expected: ValueKind },
    /// Interactive commit messages are not supported; the placeholder is used.
    InteractiveCommitUnsupported,
    /// The working tree has changes, and staging them is switched off.
    WorkingTreeDirtyNotStaged,
}

/// The mathematical value of a [`Diagnostic`].
pub enum DiagnosticView {
    WrongType { key: Seq<char>, expected: ValueKind },
    InteractiveCommitUnsupported,
    WorkingTreeDirtyNotStaged,
}

impl View for Diagnostic {
    type V = DiagnosticView;

    open spec fn view(&self) -> DiagnosticView {
        match self {
            Diagnostic::WrongType { key, expected } => DiagnosticView::WrongType {
                key: key@,
                expected: *expected,
            },
            Diagnostic::InteractiveCommitUnsupported => DiagnosticView::InteractiveCommitUnsupported,
            Diagnostic::WorkingTreeDirtyNotStaged => DiagnosticView::WorkingTreeDirtyNotStaged,
        }
    }
}

impl Diagnostic {
    /// The text of the warning, for whoever logs it.
    pub fn message(&self) -> (text: String)
        ensures
            text@ == message_of(self@),
    {
        match self {
            Diagnostic::WrongType { key, expected } => {
                let head = String::from_str("Configuration error, '");
                let head = head.concat(key.as_str());
                match expected {
                    ValueKind::Boolean => head.concat("' must be a Boolean (true|false)."),
                    ValueKind::Text => head.concat("' must be a String."),
                }
            },
            Diagnostic::InteractiveCommitUnsupported => String::from_str(
                "Interactive committing not yet supported, using dummy commit message",
            ),
            Diagnostic::WorkingTreeDirtyNotStaged => String::from_str(
                "WT dirty, but adding files before committing on Drop disabled.",
            ),
        }
    }
}

/// The text that [`Diagnostic::message`] gives for each warning.
pub open spec fn message_of(d: DiagnosticView) -> Seq<char> {
    match d {
        DiagnosticView::WrongType { key, expected } => "Configuration error, '"@ + key + (
        match expected {
            ValueKind::Boolean => "' must be a Boolean (true|false)."@,
            ValueKind::Text => "' must be a String."@,
        }),
        DiagnosticView::InteractiveCommitUnsupported =>
            "Interactive committing not yet supported, using dummy commit message"@,
        DiagnosticView::WorkingTreeDirtyNotStaged =>
            "WT dirty, but adding files before committing on Drop disabled."@,
    }
}

/// An append-only list of warnings, oldest first.
#[derive(Debug)]
pub struct Diagnostics {
    entries: Vec<Diagnostic>,
}

impl View for Diagnostics {
    type V = Seq<DiagnosticView>;

    closed spec fn view(&self) -> Seq<DiagnosticView> {
        self.entries@.map_values(|d: Diagnostic| d@)
    }
}

impl Diagnostics {
    /// An empty list.
    pub fn new() -> (log: Diagnostics)
        ensures
            log@ == Seq::<DiagnosticView>::empty(),
    {
        let log = Diagnostics { entries: Vec::new() };
        assert(log@ =~= Seq::<DiagnosticView>::empty());
        log
    }

    /// Appends one warning.
    pub fn warn(&mut self, warning: Diagnostic)
        ensures
            final(self)@ == old(self)@.push(warning@),
    {
        self.entries.push(warning);
        assert(self@ =~= old(self)@.push(warning@));
    }

    /// How many warnings were raised.
    pub fn len(&self) -> (n: usize)
        ensures
            n == self@.len(),
    {
        self.entries.len()
    }

    /// The warning at position `i`, counted from the oldest.
    pub fn get(&self, i: usize) -> (warning: Option<&Diagnostic>)
        ensures
            i < self@.len() ==> (warning matches Some(w) && w@ == self@[i as int]),
            i >= self@.len() ==> warning is None,
    {
        if i < self.entries.len() {
            Some(&self.entries[i])
        } else {
            None
        }
    }
}

} // verus!
