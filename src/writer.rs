//! Where a logger's lines go.
use std::io::Write;
use vstd::prelude::*;

verus! {

/// A caller-supplied writable destination. Each line is written while its lock is held,
/// so lines written from different threads never mix.
#[verifier::external_body]
pub struct Sink {
    pub inner: Box<std::sync::Mutex<dyn std::io::Write + Send + Sync>>,
}

/// The destination of a logger: standard output or standard error, each with or without
/// coloured labels, or a caller-supplied sink (which never gets colour).
pub enum Writer {
    Stdout(bool),
    Stderr(bool),
    Other(Sink),
}

impl Writer {
    /// Whether labels written to this destination are to be coloured.
    pub open spec fn colors(&self) -> bool {
        match self {
            Writer::Stdout(c) => *c,
            Writer::Stderr(c) => *c,
            Writer::Other(_) => false,
        }
    }

    /// Whether labels written to this destination are to be coloured.
    pub fn is_colored(&self) -> (r: bool)
        ensures
            r == self.colors(),
    {
        match self {
            Writer::Stdout(c) => *c,
            Writer::Stderr(c) => *c,
            Writer::Other(_) => false,
        }
    }

    /// The name of the destination's kind.
    pub open spec fn spec_kind_name(&self) -> Seq<char> {
        match self {
            Writer::Stdout(_) => seq!['S', 't', 'd', 'o', 'u', 't'],
            Writer::Stderr(_) => seq!['S', 't', 'd', 'e', 'r', 'r'],
            Writer::Other(_) => seq!['O', 't', 'h', 'e', 'r'],
        }
    }

    /// The name of the destination's kind: `Stdout`, `Stderr` or `Other`.
    pub fn kind_name(&self) -> (r: &'static str)
        ensures
            r@ == self.spec_kind_name(),
    {
        proof {
            reveal_strlit("Stdout");
            reveal_strlit("Stderr");
            reveal_strlit("Other");
        }
        match self {
            Writer::Stdout(_) => "Stdout",
            Writer::Stderr(_) => "Stderr",
            Writer::Other(_) => "Other",
        }
    }
}

/// The destination that one line goes to: standard output, standard error, or a sink
/// borrowed from a logger's writer.
pub enum Route<'a> {
    Stdout,
    Stderr,
    Other(&'a Sink),
}

/// `route` is where a line for a logger writing to `writer` goes.
pub open spec fn routes_to(writer: Writer, route: Route) -> bool {
    match (writer, route) {
        (Writer::Stdout(_), Route::Stdout) => true,
        (Writer::Stderr(_), Route::Stderr) => true,
        (Writer::Other(s), Route::Other(t)) => *t == s,
        _ => false,
    }
}

impl Writer {
    /// Where a line written to this destination goes.
    pub fn route(&self) -> (r: Route<'_>)
        ensures
            routes_to(*self, r),
    {
        match self {
            Writer::Stdout(_) => Route::Stdout,
            Writer::Stderr(_) => Route::Stderr,
            Writer::Other(sink) => Route::Other(sink),
        }
    }
}

impl Default for Writer {
    /// Standard output, without colour.
    fn default() -> (r: Self)
        ensures
            r == Writer::Stdout(false),
    {
        Writer::Stdout(false)
    }
}

/// Relies on std's `writeln!` on `std::io::stdout()`: writes the label and a newline to
/// standard output; a failed write is ignored.
#[verifier::external_body]
pub(crate) fn print_stdout(label: &str) {
    let _ = writeln!(std::io::stdout(), "{}", label);
}

/// Relies on std's `writeln!` on `std::io::stderr()`: writes the label and a newline to
/// standard error; a failed write is ignored.
#[verifier::external_body]
pub(crate) fn print_stderr(label: &str) {
    let _ = writeln!(std::io::stderr(), "{}", label);
}

/// Relies on std's `Mutex::lock` and `writeln!` on the sink: writes the label and a newline
/// while the lock is held; a poisoned lock or a failed write is ignored.
#[verifier::external_body]
pub(crate) fn print_sink(sink: &Sink, label: &str) {
    if let Ok(mut w) = sink.inner.lock() {
        let _ = writeln!(w, "{}", label);
    }
}

} // verus!
