use vstd::prelude::*;
use vstd::utf8::{encode_utf8, valid_utf8};

use crate::error::CommandError;

verus! {

/// Whether the platform can set a persistent environment variable.
#[derive(Debug, Clone, Copy, PartialEq, Eq, Structural)]
pub enum EnvVarCapability {
    Supported,
    Unsupported,
}

/// A program and its arguments, to be started as a subprocess.
pub struct Invocation {
    pub program: String,
    pub args: Vec<String>,
}

/// `inv` runs `cmd /c setx <name> <value>`, which stores `name = value` in
/// the user's persistent environment.
pub open spec fn is_setx_invocation(inv: Invocation, name: Seq<char>, value: Seq<char>) -> bool {
    &&& inv.program@ == "cmd"@
    &&& inv.args@.len() == 4
    &&& inv.args@[0]@ == "/c"@
    &&& inv.args@[1]@ == "setx"@
    &&& inv.args@[2]@ == name
    &&& inv.args@[3]@ == value
}

/// The invocation that stores `name = value` in the persistent environment.
pub fn setx_invocation(name: &str, value: &str) -> (r: Invocation)
    ensures
        is_setx_invocation(r, name@, value@),
{
    let mut args: Vec<String> = Vec::new();
    args.push("/c".to_owned());
    args.push("setx".to_owned());
    args.push(name.to_owned());
    args.push(value.to_owned());
    Invocation { program: "cmd".to_owned(), args }
}

/// The first step of setting a persistent environment variable: where the
/// platform cannot, an `UnsupportedPlatform` error and nothing to run;
/// otherwise the `setx` invocation to run.
pub fn plan_set_env_var(capability: EnvVarCapability, name: &str, value: &str) -> (r: Result<
    Invocation,
    CommandError,
>)
    ensures
        capability == EnvVarCapability::Unsupported ==> (r matches Err(
            CommandError::UnsupportedPlatform,
        )),
        capability == EnvVarCapability::Supported ==> (r matches Ok(inv) && is_setx_invocation(
            inv,
            name@,
            value@,
        )),
{
    match capability {
        EnvVarCapability::Supported => Ok(setx_invocation(name, value)),
        EnvVarCapability::Unsupported => Err(CommandError::UnsupportedPlatform),
    }
}

/// What a finished subprocess left behind.
pub struct ProcessOutput {
    /// The subprocess exited with status zero.
    pub success: bool,
    pub stdout: Vec<u8>,
    pub stderr: Vec<u8>,
}

/// The text that `String::from_utf8_lossy` makes of `bytes`.
pub uninterp spec fn lossy_text(bytes: Seq<u8>) -> Seq<char>;

/// Relies on `String::from_utf8_lossy`: the text depends on the bytes alone,
/// and bytes that are valid UTF-8 decode to the text they encode.
#[verifier::external_body]
fn text_from_bytes(bytes: &[u8]) -> (r: String)
    ensures
        r@ == lossy_text(bytes@),
        valid_utf8(bytes@) ==> encode_utf8(r@) == bytes@,
{
    String::from_utf8_lossy(bytes).into_owned()
}

/// What setting the variable answers once the subprocess has exited, given
/// its exit status and the text of its two output streams: the standard
/// output on status zero, else the standard error as an `IoError`.
pub fn exit_outcome(success: bool, stdout_text: String, stderr_text: String) -> (r: Result<
    String,
    CommandError,
>)
    ensures
        success ==> r == Ok::<String, CommandError>(stdout_text),
        !success ==> r == Err::<String, CommandError>(CommandError::IoError(stderr_text)),
{
    if success {
        Ok(stdout_text)
    } else {
        Err(CommandError::IoError(stderr_text))
    }
}

/// What setting the variable answers, given how running the `setx`
/// invocation went: an `IoError` with the platform's description where the
/// subprocess could not be started, else the outcome of its exit.
pub fn set_env_var_outcome(launched: Result<ProcessOutput, String>) -> (r: Result<
    String,
    CommandError,
>)
    ensures
        match launched {
            Err(m) => r == Err::<String, CommandError>(CommandError::IoError(m)),
            Ok(out) => if out.success {
                r matches Ok(t) && t@ == lossy_text(out.stdout@)
            } else {
                r matches Err(CommandError::IoError(t)) && t@ == lossy_text(out.stderr@)
            },
        },
{
    match launched {
        Err(m) => Err(CommandError::IoError(m)),
        Ok(out) => {
            let stdout_text = text_from_bytes(out.stdout.as_slice());
            let stderr_text = text_from_bytes(out.stderr.as_slice());
            exit_outcome(out.success, stdout_text, stderr_text)
        },
    }
}

} // verus!
