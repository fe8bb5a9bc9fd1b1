use vstd::prelude::*;

verus! {

/// The diagnostic log sink, modeled as an explicitly passed dependency
/// rather than ambient global state: an ordered record of the lines the
/// dispatcher has written, oldest first. The caller forwards them to the
/// real write-only side channel.
pub struct DiagnosticLog {
    lines: Vec<String>,
}

impl View for DiagnosticLog {
    type V = Seq<Seq<char>>;

    closed spec fn view(&self) -> Seq<Seq<char>> {
        Seq::new(self.lines@.len(), |i: int| self.lines@[i]@)
    }
}

/// The single diagnostic line owed when a handler fails: a fixed prefix
/// identifying a hook failure, then the handler's message verbatim.
pub open spec fn failure_line(message: Seq<char>) -> Seq<char> {
    "Hook failed with error: "@ + message
}

/// Formats the diagnostic line for a failed handler.
pub fn format_failure_line(message: &str) -> (r: String)
    ensures
        r@ == failure_line(message@),
{
    let mut line = String::from_str("Hook failed with error: ");
    line.append(message);
    line
}

impl DiagnosticLog {
    /// An empty log: nothing has been written yet.
    pub fn new() -> (r: DiagnosticLog)
        ensures
            r@ =~= Seq::<Seq<char>>::empty(),
    {
        DiagnosticLog { lines: Vec::new() }
    }

    /// Writes one line to the log.
    pub fn record(&mut self, line: String)
        ensures
            final(self)@ =~= old(self)@.push(line@),
    {
        self.lines.push(line);
    }

    /// The number of lines written so far.
    pub fn len(&self) -> (n: usize)
        ensures
            n == self@.len(),
    {
        self.lines.len()
    }

    /// The `i`th line written.
    pub fn line(&self, i: usize) -> (r: &String)
        requires
            i < self@.len(),
        ensures
            r@ == self@[i as int],
    {
        &self.lines[i]
    }

    /// Every line written so far, oldest first.
    pub fn lines(&self) -> (r: &Vec<String>)
        ensures
            r@.len() == self@.len(),
            forall|i: int| 0 <= i < r@.len() ==> r@[i]@ == self@[i],
    {
        &self.lines
    }
}

} // verus!
