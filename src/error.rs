use vstd::prelude::*;

verus! {

/// The three ways in which an operation can fail.
#[derive(Clone, Copy, Debug, PartialEq, Eq, Structural)]
pub enum ErrorKind {
    /// The connection could not be made, or the body could not be read.
    Transport,
    /// The body is not JSON, or does not have the shape the operation expects.
    Decode,
    /// A well-formed envelope whose `status` is not `"success"`.
    Api,
}

/// The single error type of every operation: a kind and a readable message.
#[derive(Clone, Debug)]
pub struct DogAPIError {
    pub kind: ErrorKind,
    pub message: String,
}

impl View for DogAPIError {
    type V = (ErrorKind, Seq<char>);

    open spec fn view(&self) -> (ErrorKind, Seq<char>) {
        (self.kind, self.message@)
    }
}

impl DogAPIError {
    pub fn new(kind: ErrorKind, message: String) -> (r: DogAPIError)
        ensures
            r@ == (kind, message@),
    {
        DogAPIError { kind, message }
    }

    /// The readable message of the error.
    pub fn to_string(&self) -> (r: String)
        ensures
            r@ == self.message@,
    {
        self.message.clone()
    }
}

} // verus!
