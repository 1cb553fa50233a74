//! State of the multisig actor.
//!
//! No version of the actor's code is known to this library, so the state has
//! no variant and loading one always reports the code it was asked for.

use vstd::prelude::*;
use vstd::string::*;

verus! {

/// Multisig actor state, one variant for each supported version of the actor.
///
/// At present no version is supported. A datatype needs a variant to be
/// reasoned about, so the enum has one, which holds a value of a type that has
/// none: no `State` can be built.
pub enum State {
    /// Stands in for the versions to come.
    Unsupported(core::convert::Infallible),
}

/// The actor's code names no multisig actor that the library can decode.
#[derive(Debug, Clone, PartialEq, Eq)]
pub struct UnknownActorCode {
    /// The code that was looked up, in its text form.
    pub code: String,
}

impl UnknownActorCode {
    /// The text shown to a user.
    pub fn message(&self) -> (r: String)
        ensures
            r@ == "Unknown multisig actor code "@ + self.code@,
    {
        let mut text = String::from_str("Unknown multisig actor code ");
        text.append(self.code.as_str());
        text
    }
}

impl State {
    /// Decodes the state of the actor whose code is `actor_code`. With no
    /// known version of the actor this fails for every code, and the error
    /// holds the code.
    pub fn load(actor_code: &str) -> (r: Result<State, UnknownActorCode>)
        ensures
            r is Err,
            r->Err_0.code@ == actor_code@,
    {
        Err(UnknownActorCode { code: String::from_str(actor_code) })
    }
}

} // verus!
