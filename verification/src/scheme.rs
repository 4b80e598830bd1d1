//! The tile scheme: the direction in which the Y coordinate of a tile grows.

use vstd::prelude::*;

verus! {

/// The convention a tile set follows for the Y coordinate of its tiles.
#[derive(Clone, Copy, Debug, PartialEq, Eq, Structural)]
pub enum Scheme {
    /// Y grows from north to south.
    XYZ,
    /// Y grows from south to north.
    TMS,
}

impl Scheme {
    /// The text that stands for this scheme in a JSON document.
    pub open spec fn label_spec(self) -> Seq<char> {
        match self {
            Scheme::XYZ => "xyz"@,
            Scheme::TMS => "tms"@,
        }
    }

    /// The scheme that a text names, if it names one.
    pub open spec fn from_label_spec(text: Seq<char>) -> Option<Scheme> {
        if text == "xyz"@ {
            Some(Scheme::XYZ)
        } else if text == "tms"@ {
            Some(Scheme::TMS)
        } else {
            None
        }
    }

    /// Returns the lower-case text that stands for this scheme in a JSON document.
    pub fn label(&self) -> (text: &'static str)
        ensures
            text@ == self.label_spec(),
    {
        match self {
            Scheme::XYZ => "xyz",
            Scheme::TMS => "tms",
        }
    }

    /// Reads a scheme from its JSON text: `"xyz"` or `"tms"`, and nothing else.
    pub fn from_label(text: &str) -> (scheme: Option<Scheme>)
        ensures
            scheme == Self::from_label_spec(text@),
    {
        let owned = text.to_owned();
        if owned == "xyz".to_owned() {
            Some(Scheme::XYZ)
        } else if owned == "tms".to_owned() {
            Some(Scheme::TMS)
        } else {
            None
        }
    }

    /// Reading back the label of a scheme gives that scheme.
    pub proof fn lemma_label_round_trip(self)
        ensures
            Self::from_label_spec(self.label_spec()) == Some(self),
    {
        reveal_strlit("xyz");
        reveal_strlit("tms");
        assert("xyz"@[0] != "tms"@[0]);
    }
}

impl Default for Scheme {
    /// The default scheme is XYZ.
    fn default() -> (scheme: Scheme)
        ensures
            scheme == Scheme::XYZ,
    {
        Scheme::XYZ
    }
}

} // verus!
