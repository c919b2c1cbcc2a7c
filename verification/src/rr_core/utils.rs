//! The selection box and the message log that the serial settings page keeps.
use vstd::prelude::*;

verus! {

/// The choices of a selection box, and the one chosen, if any.
pub struct ComboBox<T> {
    pub all: Vec<T>,
    pub selected: Option<T>,
}

impl<T> ComboBox<T> {
    /// A box offering `all`, with nothing chosen yet.
    pub fn new(all: Vec<T>) -> (combo: ComboBox<T>)
        ensures
            combo.all@ == all@,
            combo.selected is None,
    {
        ComboBox { all, selected: None }
    }
}

/// The lines shown in the page's message log, oldest first.
pub struct LogManager {
    pub lines: Vec<String>,
}

impl LogManager {
    /// An empty log.
    pub fn new() -> (log: LogManager)
        ensures
            log.lines@.len() == 0,
    {
        LogManager { lines: Vec::new() }
    }

    /// Appends one line to the log.
    pub fn add_str(&mut self, line: String)
        ensures
            final(self).lines.deep_view() == old(self).lines.deep_view().push(line@),
    {
        self.lines.push(line);
        proof {
            assert(self.lines.deep_view() =~= old(self).lines.deep_view().push(line@));
        }
    }
}

} // verus!
