//! Diagnostics: what the code generator reports, and the sink that keeps it.

use vstd::prelude::*;

verus! {

/// A place in the source text, as a pair of byte offsets.
#[derive(Clone, Copy, Debug, PartialEq, Eq, Structural)]
pub struct Span {
    pub lo: u32,
    pub hi: u32,
}

impl Span {
    /// The span that stands for "no place known".
    pub open spec fn dummy_spec() -> Span {
        Span { lo: 0, hi: 0 }
    }

    /// The span that stands for "no place known".
    pub fn dummy() -> (r: Span)
        ensures
            r == Span::dummy_spec(),
    {
        Span { lo: 0, hi: 0 }
    }
}

/// How severe a diagnostic is.
#[derive(Clone, Copy, Debug, PartialEq, Eq, Structural)]
pub enum Level {
    /// The compiler itself is at fault; compilation cannot go on.
    Bug,
    /// Compilation cannot go on.
    Fatal,
    /// Compilation goes on and fails at its end.
    Error,
    /// Compilation goes on and may succeed.
    Warning,
}

/// One reported message.
#[derive(Clone, Debug, PartialEq, Eq)]
pub struct Diagnostic {
    pub level: Level,
    /// Where the message points, if anywhere.
    pub span: Option<Span>,
    pub message: String,
    pub notes: Vec<String>,
    pub helps: Vec<String>,
}

/// The mathematical content of a [`Diagnostic`].
pub struct DiagnosticView {
    pub level: Level,
    pub span: Option<Span>,
    pub message: Seq<char>,
    pub notes: Seq<Seq<char>>,
    pub helps: Seq<Seq<char>>,
}

impl View for Diagnostic {
    type V = DiagnosticView;

    open spec fn view(&self) -> DiagnosticView {
        DiagnosticView {
            level: self.level,
            span: self.span,
            message: self.message@,
            notes: self.notes.deep_view(),
            helps: self.helps.deep_view(),
        }
    }
}

impl DeepView for Diagnostic {
    type V = DiagnosticView;

    open spec fn deep_view(&self) -> DiagnosticView {
        self@
    }
}

/// A diagnostic without notes.
pub open spec fn plain(level: Level, span: Option<Span>, message: Seq<char>) -> DiagnosticView {
    DiagnosticView { level, span, message, notes: Seq::empty(), helps: Seq::empty() }
}

/// An error without notes.
pub open spec fn error_at(span: Option<Span>, message: Seq<char>) -> DiagnosticView {
    plain(Level::Error, span, message)
}

/// A fatal error without notes.
pub open spec fn fatal_at(span: Option<Span>, message: Seq<char>) -> DiagnosticView {
    plain(Level::Fatal, span, message)
}

/// A report of a fault of the compiler, without notes.
pub open spec fn bug_at(span: Option<Span>, message: Seq<char>) -> DiagnosticView {
    plain(Level::Bug, span, message)
}

impl Diagnostic {
    /// A diagnostic without notes.
    pub fn new(level: Level, span: Option<Span>, message: String) -> (r: Diagnostic)
        ensures
            r@ == plain(level, span, message@),
    {
        let r = Diagnostic { level, span, message, notes: Vec::new(), helps: Vec::new() };
        assert(r.notes.deep_view() =~= Seq::empty());
        assert(r.helps.deep_view() =~= Seq::empty());
        r
    }

    /// Adds a note.
    pub fn with_note(self, note: String) -> (r: Diagnostic)
        ensures
            r@ == (DiagnosticView { notes: self@.notes.push(note@), ..self@ }),
    {
        let mut r = self;
        let ghost before = r.notes.deep_view();
        r.notes.push(note);
        assert(r.notes.deep_view() =~= before.push(note@));
        r
    }

    /// Adds a help line.
    pub fn with_help(self, help: String) -> (r: Diagnostic)
        ensures
            r@ == (DiagnosticView { helps: self@.helps.push(help@), ..self@ }),
    {
        let mut r = self;
        let ghost before = r.helps.deep_view();
        r.helps.push(help);
        assert(r.helps.deep_view() =~= before.push(help@));
        r
    }
}

/// The sink for diagnostics. Reports are kept in the order they were made.
#[derive(Clone, Debug, PartialEq, Eq)]
pub struct DiagCtxt {
    pub emitted: Vec<Diagnostic>,
}

impl View for DiagCtxt {
    type V = Seq<DiagnosticView>;

    open spec fn view(&self) -> Seq<DiagnosticView> {
        self.emitted.deep_view()
    }
}

impl DiagCtxt {
    /// A sink with no reports.
    pub fn new() -> (r: DiagCtxt)
        ensures
            r@ == Seq::<DiagnosticView>::empty(),
    {
        let r = DiagCtxt { emitted: Vec::new() };
        assert(r@ =~= Seq::<DiagnosticView>::empty());
        r
    }

    /// Keeps `d` as the newest report.
    pub fn emit(&mut self, d: Diagnostic)
        ensures
            final(self)@ == old(self)@.push(d@),
    {
        let ghost before = self@;
        self.emitted.push(d);
        assert(self@ =~= before.push(d@));
    }

    /// Reports an error with the given message.
    pub fn err(&mut self, span: Option<Span>, message: String)
        ensures
            final(self)@ == old(self)@.push(error_at(span, message@)),
    {
        self.emit(Diagnostic::new(Level::Error, span, message));
    }

    /// Whether any report is an error or fatal.
    pub open spec fn has_errors_spec(s: Seq<DiagnosticView>) -> bool {
        exists|i: int| 0 <= i < s.len() && (#[trigger] s[i]).level != Level::Warning
    }

    /// Tells whether any report is an error or fatal.
    pub fn has_errors(&self) -> (r: bool)
        ensures
            r == DiagCtxt::has_errors_spec(self@),
    {
        let mut i: usize = 0;
        while i < self.emitted.len()
            invariant
                i <= self.emitted.len(),
                forall|j: int| 0 <= j < i ==> (#[trigger] self@[j]).level == Level::Warning,
            decreases self.emitted.len() - i,
        {
            match self.emitted[i].level {
                Level::Warning => {},
                _ => {
                    assert(self@[i as int].level != Level::Warning);
                    return true;
                },
            }
            i += 1;
        }
        false
    }
}

} // verus!
