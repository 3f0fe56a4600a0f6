//! The language tags the pipeline recognizes, and the one lookup that maps a
//! tag to its artifact file extension and its interpreter binary. Both the
//! artifact naming and the execution planning consult this single mapping, so
//! the two can never drift apart.

use vstd::prelude::*;

verus! {

/// A recognized language. Any tag other than `"javascript"` falls back to
/// Python; an unrecognized tag is not an error.
#[derive(Clone, Copy, PartialEq, Eq, Structural, Debug)]
pub enum Lang {
    Python,
    Javascript,
}

/// The language a request tag selects: `"javascript"` and nothing else selects
/// JavaScript; every other tag falls back to Python.
pub open spec fn lang_of(tag: Seq<char>) -> Lang {
    if tag == "javascript"@ {
        Lang::Javascript
    } else {
        Lang::Python
    }
}

/// The artifact file extension of a language, dot included.
pub open spec fn spec_extension(lang: Lang) -> Seq<char> {
    match lang {
        Lang::Javascript => ".js"@,
        Lang::Python => ".py"@,
    }
}

/// The interpreter binary that runs a language's artifacts.
pub open spec fn spec_interpreter(lang: Lang) -> Seq<char> {
    match lang {
        Lang::Javascript => "node"@,
        Lang::Python => "python3"@,
    }
}

impl Lang {
    /// Classify a request's language tag.
    pub fn of_tag(tag: &str) -> (r: Lang)
        ensures
            r == lang_of(tag@),
    {
        let owned: String = tag.to_owned();
        let js: String = "javascript".to_owned();
        if owned == js {
            Lang::Javascript
        } else {
            Lang::Python
        }
    }

    /// The artifact file extension for this language, dot included.
    pub fn extension(&self) -> (r: &'static str)
        ensures
            r@ == spec_extension(*self),
    {
        match self {
            Lang::Javascript => ".js",
            Lang::Python => ".py",
        }
    }

    /// The interpreter binary for this language.
    pub fn interpreter(&self) -> (r: &'static str)
        ensures
            r@ == spec_interpreter(*self),
    {
        match self {
            Lang::Javascript => "node",
            Lang::Python => "python3",
        }
    }
}

} // verus!
