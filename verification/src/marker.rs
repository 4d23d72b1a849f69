//! Diagnostic markers (errors, warnings, ...) placed on a text.

use std::ops::Range;
use vstd::prelude::*;
use vstd::std_specs::convert::FromSpecImpl;
use crate::cursor::Position;
use crate::languages::same_text;
use ropey::Rope;
use crate::rope::rope_text;
use crate::rope_ext::{position_offset, RopeExt};

verus! {

/// Severity of the marker.
#[derive(Debug, Clone, Copy, PartialEq, Eq, Structural)]
pub enum MarkerSeverity {
    Hint,
    Error,
    Warning,
    Info,
}

impl Default for MarkerSeverity {
    fn default() -> (s: Self)
        ensures
            s == MarkerSeverity::Hint,
    {
        MarkerSeverity::Hint
    }
}

/// The severity a name stands for; an unknown name is `Info`.
pub open spec fn severity_named(name: Seq<char>) -> MarkerSeverity {
    if name == "error"@ {
        MarkerSeverity::Error
    } else if name == "warning"@ {
        MarkerSeverity::Warning
    } else if name == "info"@ {
        MarkerSeverity::Info
    } else if name == "hint"@ {
        MarkerSeverity::Hint
    } else {
        MarkerSeverity::Info
    }
}

impl MarkerSeverity {
    /// The severity named `value`: `"error"`, `"warning"`, `"info"` or
    /// `"hint"`; any other name gives `Info`.
    pub fn from_name(value: &str) -> (s: MarkerSeverity)
        ensures
            s == severity_named(value@),
    {
        if same_text(value, "error") {
            MarkerSeverity::Error
        } else if same_text(value, "warning") {
            MarkerSeverity::Warning
        } else if same_text(value, "info") {
            MarkerSeverity::Info
        } else if same_text(value, "hint") {
            MarkerSeverity::Hint
        } else {
            MarkerSeverity::Info
        }
    }
}

impl<'a> From<&'a str> for MarkerSeverity {
    fn from(value: &'a str) -> (s: Self) {
        MarkerSeverity::from_name(value)
    }
}

impl<'a> FromSpecImpl<&'a str> for MarkerSeverity {
    open spec fn obeys_from_spec() -> bool {
        true
    }

    open spec fn from_spec(v: &'a str) -> Self {
        severity_named(v@)
    }
}

/// Marker represents a diagnostic message, such as an error or warning, in the code editor.
#[derive(Debug, Clone)]
pub struct Marker {
    pub severity: MarkerSeverity,
    pub start: Position,
    pub end: Position,
    /// The byte range of the marker, once it is prepared against a text.
    pub range: Option<Range<usize>>,
    /// The message associated with the marker, typically a description of the issue.
    pub message: String,
}

impl Marker {
    /// Creates a new marker with the specified severity, start and end positions, and message.
    pub fn new(severity: MarkerSeverity, start: Position, end: Position, message: String) -> (m:
        Marker)
        ensures
            m.severity == severity,
            m.start == start,
            m.end == end,
            m.message@ == message@,
            m.range is None,
    {
        Marker { severity, start, end, range: None, message }
    }

    /// Prepare the marker to convert line, column to byte offsets.
    pub fn prepare(&mut self, text: &Rope)
        ensures
            final(self).severity == old(self).severity,
            final(self).start == old(self).start,
            final(self).end == old(self).end,
            final(self).message@ == old(self).message@,
            final(self).range == Some(
                Range {
                    start: position_offset(
                        rope_text(*text),
                        old(self).start.line as int,
                        old(self).start.character as int,
                    ) as usize,
                    end: position_offset(
                        rope_text(*text),
                        old(self).end.line as int,
                        old(self).end.character as int,
                    ) as usize,
                },
            ),
    {
        let start = text.position_to_offset(&self.start);
        let end = text.position_to_offset(&self.end);
        self.range = Some(start..end);
    }
}

} // verus!
