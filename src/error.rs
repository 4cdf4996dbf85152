//! The one error of loading settings, with the failure underneath it kept.

use vstd::prelude::*;
use vstd::string::StringExecFns;
use crate::field::DecodeError;

verus! {

/// The failure beneath a load error.
#[derive(Debug)]
pub enum LoadCause {
    /// A source could not be read; the reader's own message.
    Io(String),
    /// A document is not well formed; the parser's own message.
    Parse(String),
    /// The merged document does not describe settings.
    Decode(DecodeError),
    /// An error of a lower layer, with its own chain of causes, outermost
    /// first.
    Domain(Vec<String>),
}

/// Settings could not be loaded: a fixed message over the failure that
/// caused it.
#[derive(Debug)]
pub struct LoadSettingsError {
    cause: LoadCause,
}

impl DecodeError {
    /// What went wrong, naming the field's path.
    pub open spec fn description(self) -> Seq<char> {
        match self {
            DecodeError::Missing(f) => "missing field `"@ + f.dotted() + "`"@,
            DecodeError::InvalidType(f) => "invalid type for field `"@ + f.dotted() + "`"@,
        }
    }

    /// What went wrong, naming the field's path.
    pub fn describe(&self) -> (r: String)
        ensures
            r@ == self.description(),
    {
        match self {
            DecodeError::Missing(f) => {
                "missing field `".to_owned().concat(f.dotted_name().as_str()).concat("`")
            },
            DecodeError::InvalidType(f) => {
                "invalid type for field `".to_owned().concat(f.dotted_name().as_str()).concat("`")
            },
        }
    }
}

impl LoadSettingsError {
    /// A load error over `cause`.
    pub fn from_cause(cause: LoadCause) -> (r: LoadSettingsError)
        ensures
            r.cause() == cause,
    {
        LoadSettingsError { cause }
    }

    pub closed spec fn cause(&self) -> LoadCause {
        self.cause
    }

    /// The failure beneath this error.
    pub fn source(&self) -> (r: &LoadCause)
        ensures
            *r == self.cause(),
    {
        &self.cause
    }

    /// The error's own message, the same whatever the cause.
    pub fn message(&self) -> (r: String)
        ensures
            r@ == "Could not load settings"@,
    {
        "Could not load settings".to_owned()
    }

    /// The messages of the failures beneath this error, outermost first:
    /// the reader's or parser's message, the decode error's description, or
    /// a lower layer's own chain, each word for word.
    pub fn cause_chain(&self) -> (r: Vec<String>)
        ensures
            r@.map_values(|m: String| m@) == chain_of(self.cause()),
    {
        let mut r: Vec<String> = Vec::new();
        match &self.cause {
            LoadCause::Io(m) => r.push(m.clone()),
            LoadCause::Parse(m) => r.push(m.clone()),
            LoadCause::Decode(e) => r.push(e.describe()),
            LoadCause::Domain(c) => {
                let mut i: usize = 0;
                while i < c.len()
                    invariant
                        i <= c.len(),
                        r@.map_values(|m: String| m@) =~= c@.subrange(0, i as int).map_values(|m: String| m@),
                    decreases c.len() - i,
                {
                    let ghost prev = r@;
                    let m = c[i].clone();
                    r.push(m);
                    assert(r@ =~= prev.push(m));
                    assert(c@.subrange(0, i + 1) =~= c@.subrange(0, i as int).push(c@[i as int]));
                    assert(r@.map_values(|m: String| m@) =~= prev.map_values(|m: String| m@).push(m@));
                    i = i + 1;
                }
                assert(c@.subrange(0, c.len() as int) =~= c@);
            },
        }
        proof {
            if !(self.cause() is Domain) {
                assert(r@.map_values(|m: String| m@) =~= chain_of(self.cause()));
            }
        }
        r
    }

    /// The message of the failure right beneath this error, word for word;
    /// empty for a lower layer's error with no message.
    pub fn cause_message(&self) -> (r: String)
        ensures
            self.cause() matches LoadCause::Io(m) ==> r@ == m@,
            self.cause() matches LoadCause::Parse(m) ==> r@ == m@,
            self.cause() matches LoadCause::Decode(e) ==> r@ == e.description(),
            self.cause() matches LoadCause::Domain(c) ==> r@ == (if c@.len() > 0 {
                c@[0]@
            } else {
                Seq::<char>::empty()
            }),
    {
        match &self.cause {
            LoadCause::Io(m) => m.clone(),
            LoadCause::Parse(m) => m.clone(),
            LoadCause::Decode(e) => e.describe(),
            LoadCause::Domain(c) => if c.len() > 0 {
                c[0].clone()
            } else {
                String::new()
            },
        }
    }
}

/// The messages beneath a load error, outermost first.
pub open spec fn chain_of(c: LoadCause) -> Seq<Seq<char>> {
    match c {
        LoadCause::Io(m) => seq![m@],
        LoadCause::Parse(m) => seq![m@],
        LoadCause::Decode(e) => seq![e.description()],
        LoadCause::Domain(c) => c@.map_values(|m: String| m@),
    }
}

impl From<DecodeError> for LoadSettingsError {
    fn from(e: DecodeError) -> (r: LoadSettingsError) {
        LoadSettingsError { cause: LoadCause::Decode(e) }
    }
}

impl vstd::std_specs::convert::FromSpecImpl<DecodeError> for LoadSettingsError {
    open spec fn obeys_from_spec() -> bool {
        true
    }

    closed spec fn from_spec(e: DecodeError) -> LoadSettingsError {
        LoadSettingsError { cause: LoadCause::Decode(e) }
    }
}

} // verus!
