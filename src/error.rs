use vstd::prelude::*;

verus! {

/// The text carried by [`CommandError::UnsupportedPlatform`].
pub open spec fn unsupported_platform_text() -> Seq<char> {
    "This function is only supported on Windows"@
}

/// The two ways a command can fail.
#[derive(Debug, Clone, PartialEq, Eq)]
pub enum CommandError {
    /// The filesystem or the subprocess failed; the platform's own description.
    IoError(String),
    /// Setting a persistent environment variable is not offered on this platform.
    UnsupportedPlatform,
}

impl CommandError {
    /// The text that the front end receives for this error.
    pub open spec fn text(&self) -> Seq<char> {
        match self {
            CommandError::IoError(m) => m@,
            CommandError::UnsupportedPlatform => unsupported_platform_text(),
        }
    }

    pub fn message(&self) -> (r: String)
        ensures
            r@ == self.text(),
    {
        match self {
            CommandError::IoError(m) => m.clone(),
            CommandError::UnsupportedPlatform => "This function is only supported on Windows".to_owned(),
        }
    }
}

/// Turns a command's result into the reply the front end receives, where a
/// failure travels as its text.
pub fn into_reply<T>(result: Result<T, CommandError>) -> (r: Result<T, String>)
    ensures
        match result {
            Ok(v) => r == Ok::<T, String>(v),
            Err(e) => r matches Err(m) && m@ == e.text(),
        },
{
    match result {
        Ok(v) => Ok(v),
        Err(e) => Err(e.message()),
    }
}

} // verus!
