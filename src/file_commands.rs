use vstd::prelude::*;

use crate::error::CommandError;

verus! {

/// What reading a whole file as text answers, given what the filesystem
/// returned: the content exactly as read, or an `IoError` with the
/// platform's description.
pub fn read_file_outcome(read: Result<String, String>) -> (r: Result<String, CommandError>)
    ensures
        match read {
            Ok(content) => r == Ok::<String, CommandError>(content),
            Err(m) => r == Err::<String, CommandError>(CommandError::IoError(m)),
        },
{
    match read {
        Ok(content) => Ok(content),
        Err(m) => Err(CommandError::IoError(m)),
    }
}

/// What saving a file answers, given whether the write went through:
/// `true` once written, or an `IoError` with the platform's description.
pub fn save_file_outcome(written: Result<(), String>) -> (r: Result<bool, CommandError>)
    ensures
        match written {
            Ok(_) => r == Ok::<bool, CommandError>(true),
            Err(m) => r == Err::<bool, CommandError>(CommandError::IoError(m)),
        },
{
    match written {
        Ok(_) => Ok(true),
        Err(m) => Err(CommandError::IoError(m)),
    }
}

/// Whether a path exists, given what probing the filesystem returned. A
/// probe that failed (a permission error, say) counts as absent.
pub fn file_exists_outcome(probe: Result<bool, String>) -> (r: bool)
    ensures
        r == (probe == Ok::<bool, String>(true)),
{
    match probe {
        Ok(present) => present,
        Err(_) => false,
    }
}

} // verus!
