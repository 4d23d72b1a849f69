//! Go-to-definition on hover: which symbol a hover is about, and what a
//! click on it does.

use std::ops::Range;
use ropey::Rope;
use vstd::prelude::*;
use crate::cursor::Position;
use crate::rope::rope_text;
use crate::rope_ext::{position_offset, RopeExt};

verus! {

/// A span of text between two positions.
#[derive(Debug, Clone, Copy, PartialEq, Eq, Structural)]
pub struct PositionRange {
    pub start: Position,
    pub end: Position,
}

/// Whether a location with URI scheme `scheme` is a web page: its scheme is
/// `https` or `http`.
pub fn is_web_scheme(scheme: Option<&str>) -> (b: bool)
    ensures
        b == (scheme matches Some(s) && (s@ == "https"@ || s@ == "http"@)),
{
    match scheme {
        Some(s) => crate::languages::same_text(s, "https") || crate::languages::same_text(s, "http"),
        None => false,
    }
}

/// What the logic reads of a definition location.
#[derive(Debug, Clone, Copy, PartialEq, Eq, Structural)]
pub struct DefinitionLocation {
    /// The target is a web page (its scheme is `http` or `https`).
    pub target_is_web: bool,
    /// Where the definition is, as start and end positions.
    pub target_start: Position,
    pub target_end: Position,
    /// The span of the symbol the definition is for, when the provider says.
    pub origin_selection: Option<PositionRange>,
}

/// The definitions found for the symbol under the mouse.
pub struct HoverDefinition {
    /// The range of the symbol that triggered the hover.
    symbol_range: Range<usize>,
    locations: Vec<DefinitionLocation>,
}

/// What a click on a hovered symbol does.
#[derive(Debug, Clone, Copy, PartialEq, Eq, Structural)]
pub enum DefinitionClick {
    /// The click is not about a definition.
    NotHandled,
    /// Open the first location's web page.
    OpenUrl,
    /// Select the bytes `start..end`, the first location's range.
    Select { start: usize, end: usize },
}

/// The byte offset of position `p` in text `s`.
pub open spec fn offset_of(s: Seq<char>, p: Position) -> usize {
    position_offset(s, p.line as int, p.character as int) as usize
}

impl HoverDefinition {
    pub closed spec fn spec_symbol_range(&self) -> Range<usize> {
        self.symbol_range
    }

    pub closed spec fn spec_locations(&self) -> Seq<DefinitionLocation> {
        self.locations@
    }

    pub fn new(symbol_range: Range<usize>, locations: Vec<DefinitionLocation>) -> (h: Self)
        ensures
            h.spec_symbol_range() == symbol_range,
            h.spec_locations() == locations@,
    {
        HoverDefinition { symbol_range, locations }
    }

    /// Whether `offset` is on the symbol of this hover.
    pub fn is_same(&self, offset: usize) -> (b: bool)
        ensures
            b == (self.spec_symbol_range().start <= offset < self.spec_symbol_range().end),
    {
        self.symbol_range.start <= offset && offset < self.symbol_range.end
    }

    pub fn symbol_range(&self) -> (r: Range<usize>)
        ensures
            r == self.spec_symbol_range(),
    {
        self.symbol_range.start..self.symbol_range.end
    }

    pub fn locations(&self) -> (l: &Vec<DefinitionLocation>)
        ensures
            l@ == self.spec_locations(),
    {
        &self.locations
    }
}

/// Whether a hover at `offset` asks the provider for definitions: there is a
/// provider, and the offset is not on the symbol already shown.
pub fn hover_request_needed(has_provider: bool, current: Option<&HoverDefinition>, offset: usize) -> (b:
    bool)
    ensures
        b == (has_provider && match current {
            Some(h) => !(h.spec_symbol_range().start <= offset < h.spec_symbol_range().end),
            None => true,
        }),
{
    if !has_provider {
        return false;
    }
    match current {
        Some(h) => !h.is_same(offset),
        None => true,
    }
}

/// The hover for the definitions found: none when there are none; else the
/// symbol is the first location's origin span when it has one, and
/// `fallback` (the word under the mouse) otherwise.
pub fn hover_from_locations(text: &Rope, locations: Vec<DefinitionLocation>, fallback: Range<usize>) -> (h:
    Option<HoverDefinition>)
    ensures
        locations@.len() == 0 ==> h is None,
        locations@.len() > 0 ==> (h matches Some(h) && h.spec_locations() == locations@
            && h.spec_symbol_range() == match locations@[0].origin_selection {
            Some(r) => Range {
                start: offset_of(rope_text(*text), r.start),
                end: offset_of(rope_text(*text), r.end),
            },
            None => fallback,
        }),
{
    if locations.len() == 0 {
        return None;
    }
    let symbol_range = match locations[0].origin_selection {
        Some(r) => {
            let start = text.position_to_offset(&r.start);
            let end = text.position_to_offset(&r.end);
            start..end
        },
        None => fallback,
    };
    Some(HoverDefinition::new(symbol_range, locations))
}

/// A click at `offset`: with the secondary modifier on the hovered symbol,
/// it opens the first location's web page or selects its range; any other
/// click is not about definitions.
pub fn click_hover_definition(text: &Rope, secondary: bool, hover: Option<&HoverDefinition>, offset: usize) -> (c:
    DefinitionClick)
    ensures
        c == match hover {
            Some(h) => if secondary && h.spec_symbol_range().start <= offset < h.spec_symbol_range().end
                && h.spec_locations().len() > 0 {
                let l = h.spec_locations()[0];
                if l.target_is_web {
                    DefinitionClick::OpenUrl
                } else {
                    DefinitionClick::Select {
                        start: offset_of(rope_text(*text), l.target_start),
                        end: offset_of(rope_text(*text), l.target_end),
                    }
                }
            } else {
                DefinitionClick::NotHandled
            },
            None => DefinitionClick::NotHandled,
        },
{
    if !secondary {
        return DefinitionClick::NotHandled;
    }
    let h = match hover {
        Some(h) => h,
        None => {
            return DefinitionClick::NotHandled;
        },
    };
    if !h.is_same(offset) {
        return DefinitionClick::NotHandled;
    }
    if h.locations.len() == 0 {
        return DefinitionClick::NotHandled;
    }
    let location = h.locations[0];
    if location.target_is_web {
        DefinitionClick::OpenUrl
    } else {
        let start = text.position_to_offset(&location.target_start);
        let end = text.position_to_offset(&location.target_end);
        DefinitionClick::Select { start, end }
    }
}

} // verus!
