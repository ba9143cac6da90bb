//! What can go wrong once a diagram is drawn: writing it out.

use vstd::prelude::*;

verus! {

/// `std::io::Error`, carried as an opaque type.
#[verifier::external_type_specification]
#[verifier::external_body]
pub struct ExIoError(std::io::Error);

/// The text that `{:?}` formatting gives for a string: the string between
/// double quotes, with escapes.
pub uninterp spec fn quoted(text: Seq<char>) -> Seq<char>;

/// `format!` with `{:?}` on a `str`: the quoted form of the text.
#[verifier::external_body]
fn quote(text: &str) -> (shown: String)
    ensures
        shown@ == quoted(text@),
{
    format!("{:?}", text)
}

/// The failure of writing a rendered diagram.
#[derive(Debug)]
pub enum Error {
    /// The file at `path` could not be written, for the reason in `err`.
    FileWrite { path: String, err: std::io::Error },
}

impl Error {
    /// What failed, for a reader: the path, quoted.
    pub fn message(&self) -> (text: String)
        ensures
            text@ == "Failed to write to file "@ + quoted(self->path@),
    {
        match self {
            Error::FileWrite { path, .. } => {
                let mut text = String::from_str("Failed to write to file ");
                let shown = quote(path.as_str());
                text.append(shown.as_str());
                text
            },
        }
    }

    /// The failure underneath.
    pub fn source(&self) -> (cause: &std::io::Error)
        ensures
            *cause == self->err,
    {
        match self {
            Error::FileWrite { err, .. } => err,
        }
    }

    /// Turns the outcome of writing the file at `path` into the outcome of
    /// the whole operation: success stays success, a failure is kept with
    /// the path it belongs to.
    pub fn from_write(path: String, written: Result<(), std::io::Error>) -> (outcome: Result<
        (),
        Error,
    >)
        ensures
            match outcome {
                Ok(_) => written is Ok,
                Err(Error::FileWrite { path: at, err }) => at@ == path@ && written == Err::<
                    (),
                    std::io::Error,
                >(err),
            },
    {
        match written {
            Ok(_) => Ok(()),
            Err(err) => Err(Error::FileWrite { path, err }),
        }
    }
}

} // verus!
