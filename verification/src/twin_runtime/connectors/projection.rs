//! What a projection between vocabularies is.
use vstd::prelude::*;

verus! {

#[derive(Clone, Copy, Debug, PartialEq, Eq)]
pub enum ProjectionError {
    InvalidPayload(&'static str),
}

/// Maps one vocabulary to another.
pub trait Projector<In, Out> {
    fn project(&self, input: In) -> (output: Result<Out, ProjectionError>);
}

} // verus!
