use vstd::prelude::*;

use crate::text::str_eq;

verus! {

/// How a wallpaper image is scaled and placed on a monitor.
#[derive(Clone, Copy, Debug, PartialEq, Eq, Structural)]
pub enum PositionMode {
    Center,
    Tile,
    Stretch,
    Fit,
    Fill,
    Span,
}

/// The command-line token that names a position mode.
pub open spec fn token_of(m: PositionMode) -> Seq<char> {
    match m {
        PositionMode::Center => "center"@,
        PositionMode::Tile => "tile"@,
        PositionMode::Stretch => "stretch"@,
        PositionMode::Fit => "fit"@,
        PositionMode::Fill => "fill"@,
        PositionMode::Span => "span"@,
    }
}

/// The position mode named by a token, if any. Tokens must match exactly:
/// no synonyms, no case folding.
pub open spec fn parse_token(s: Seq<char>) -> Option<PositionMode> {
    if s == "center"@ {
        Some(PositionMode::Center)
    } else if s == "tile"@ {
        Some(PositionMode::Tile)
    } else if s == "stretch"@ {
        Some(PositionMode::Stretch)
    } else if s == "fit"@ {
        Some(PositionMode::Fit)
    } else if s == "fill"@ {
        Some(PositionMode::Fill)
    } else if s == "span"@ {
        Some(PositionMode::Span)
    } else {
        None
    }
}

impl PositionMode {
    /// Writes the mode as its command-line token.
    pub fn token(self) -> (r: &'static str)
        ensures
            r@ == token_of(self),
    {
        match self {
            PositionMode::Center => "center",
            PositionMode::Tile => "tile",
            PositionMode::Stretch => "stretch",
            PositionMode::Fit => "fit",
            PositionMode::Fill => "fill",
            PositionMode::Span => "span",
        }
    }

    /// Reads a command-line token as a position mode; any unrecognized
    /// token is refused.
    pub fn parse(s: &str) -> (r: Option<PositionMode>)
        ensures
            r == parse_token(s@),
    {
        if str_eq(s, "center") {
            Some(PositionMode::Center)
        } else if str_eq(s, "tile") {
            Some(PositionMode::Tile)
        } else if str_eq(s, "stretch") {
            Some(PositionMode::Stretch)
        } else if str_eq(s, "fit") {
            Some(PositionMode::Fit)
        } else if str_eq(s, "fill") {
            Some(PositionMode::Fill)
        } else if str_eq(s, "span") {
            Some(PositionMode::Span)
        } else {
            None
        }
    }
}

/// When no mode is requested, a wallpaper spans all monitors.
impl Default for PositionMode {
    fn default() -> (r: Self)
        ensures
            r == PositionMode::Span,
    {
        PositionMode::Span
    }
}

/// Tokens and position modes correspond one to one: every mode's token
/// parses back to that mode, and a token that parses to a mode is that
/// mode's own token. Everything else parses to nothing.
pub proof fn lemma_token_bijection()
    ensures
        forall|m: PositionMode| #[trigger] parse_token(token_of(m)) == Some(m),
        forall|s: Seq<char>, m: PositionMode| parse_token(s) == Some(m) ==> s == token_of(m),
{
    reveal_strlit("center");
    reveal_strlit("tile");
    reveal_strlit("stretch");
    reveal_strlit("fit");
    reveal_strlit("fill");
    reveal_strlit("span");
    assert("center"@.len() == 6);
    assert("tile"@.len() == 4);
    assert("stretch"@.len() == 7);
    assert("fit"@.len() == 3);
    assert("fill"@.len() == 4);
    assert("span"@.len() == 4);
    assert("tile"@[0] == 't');
    assert("fill"@[0] == 'f');
    assert("span"@[0] == 's');
    assert forall|m: PositionMode| #[trigger] parse_token(token_of(m)) == Some(m) by {
        match m {
            PositionMode::Center => assert(parse_token("center"@) == Some(PositionMode::Center)),
            PositionMode::Tile => assert(parse_token("tile"@) == Some(PositionMode::Tile)),
            PositionMode::Stretch => assert(parse_token("stretch"@) == Some(PositionMode::Stretch)),
            PositionMode::Fit => assert(parse_token("fit"@) == Some(PositionMode::Fit)),
            PositionMode::Fill => assert(parse_token("fill"@) == Some(PositionMode::Fill)),
            PositionMode::Span => assert(parse_token("span"@) == Some(PositionMode::Span)),
        }
    }
}

} // verus!
