//! Content rating of a post.
use vstd::prelude::*;
use vstd::string::StringExecFns;

verus! {

/// How sensitive a post's content is.
#[derive(Debug, Copy, Clone, PartialEq, Eq, Structural, Hash)]
pub enum Rating {
    Safe,
    Questionable,
    Explicit,
    Unknown,
}

/// Whether two strings hold the same characters.
pub fn same_text(a: &str, b: &str) -> (r: bool)
    ensures
        r == (a@ == b@),
{
    String::from_str(a) == String::from_str(b)
}

impl Rating {
    /// The rating that a site's rating word names.
    pub open spec fn from_spec(s: Seq<char>) -> Rating {
        if s == "s"@ || s == "safe"@ || s == "g"@ || s == "general"@ {
            Rating::Safe
        } else if s == "q"@ || s == "questionable"@ {
            Rating::Questionable
        } else if s == "e"@ || s == "explicit"@ {
            Rating::Explicit
        } else {
            Rating::Unknown
        }
    }

    pub open spec fn name_spec(self) -> Seq<char> {
        match self {
            Rating::Safe => "Safe"@,
            Rating::Questionable => "Questionable"@,
            Rating::Explicit => "Explicit"@,
            Rating::Unknown => "Unknown"@,
        }
    }

    /// Reads a site's rating word: a short or a long form of safe (or
    /// general), questionable and explicit; anything else is unknown.
    pub fn from_str(s: &str) -> (r: Rating)
        ensures
            r == Rating::from_spec(s@),
    {
        if same_text(s, "s") || same_text(s, "safe") || same_text(s, "g") || same_text(s, "general") {
            Rating::Safe
        } else if same_text(s, "q") || same_text(s, "questionable") {
            Rating::Questionable
        } else if same_text(s, "e") || same_text(s, "explicit") {
            Rating::Explicit
        } else {
            Rating::Unknown
        }
    }

    /// The rating's name, which also names its directory inside an archive.
    pub fn to_string(&self) -> (r: String)
        ensures
            r@ == self.name_spec(),
    {
        let s = match self {
            Rating::Safe => "Safe",
            Rating::Questionable => "Questionable",
            Rating::Explicit => "Explicit",
            Rating::Unknown => "Unknown",
        };
        String::from_str(s)
    }
}

} // verus!
