//! The log file, as far as it is text.

use vstd::prelude::*;
use crate::paths::{parent, path_parent};
use crate::text::{push_str, string_of};

verus! {

/// The line that is appended to the log for `message` at the time that
/// `timestamp` shows: the time in square brackets, a space, the message and
/// a line feed.
pub open spec fn log_line(timestamp: Seq<char>, message: Seq<char>) -> Seq<char> {
    seq!['['] + timestamp + seq![']', ' '] + message + seq!['\n']
}

/// A log that is kept in one file.
#[derive(Debug)]
pub struct Logger {
    log_path: String,
}

impl Logger {
    /// A logger that writes to the file at `log_path`.
    pub fn new(log_path: String) -> (r: Logger)
        ensures
            r.path() == log_path@,
    {
        Logger { log_path }
    }

    /// The path of the log file.
    pub closed spec fn path(&self) -> Seq<char> {
        self.log_path@
    }

    /// The path of the log file.
    pub fn log_path(&self) -> (r: &str)
        ensures
            r@ == self.path(),
    {
        self.log_path.as_str()
    }

    /// The directory that has to exist before the log file can be written,
    /// where the path of the file names one.
    pub fn directory(&self) -> (r: Option<String>)
        ensures
            r is Some <==> path_parent(self.path()) is Some,
            r matches Some(dir) ==> path_parent(self.path()) == Some(dir@),
    {
        parent(self.log_path.as_str())
    }

    /// The line to append to the log file for `message`, written at the time
    /// that `timestamp` shows.
    pub fn log(&self, timestamp: &str, message: &str) -> (r: String)
        ensures
            r@ == log_line(timestamp@, message@),
    {
        let mut out: Vec<char> = Vec::new();
        out.push('[');
        push_str(&mut out, timestamp);
        out.push(']');
        out.push(' ');
        push_str(&mut out, message);
        out.push('\n');
        assert(out@ =~= log_line(timestamp@, message@));
        string_of(&out)
    }
}

} // verus!
