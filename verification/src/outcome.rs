use vstd::prelude::*;
use vstd::string::*;

use crate::error::Error;

verus! {

/// The placeholder line a freshly provisioned key file holds before
/// the editor opens it: `# ` followed by the given comment.
pub fn comment_content(comment: &str) -> (r: String)
    ensures
        r@ == "# "@ + comment@,
{
    let mut s = String::from_str("# ");
    s.append(comment);
    s
}

/// Classify an editor launch. Only a launch that could not happen at
/// all fails, with `EditorUnavailable`; the editor's own exit status
/// is not checked, since content correctness is the user's
/// responsibility.
pub fn interpret_editor_launch(spawned: bool) -> (r: Result<(), Error>)
    ensures
        r == if spawned {
            Ok::<(), Error>(())
        } else {
            Err::<(), Error>(Error::EditorUnavailable)
        },
{
    if spawned {
        Ok(())
    } else {
        Err(Error::EditorUnavailable)
    }
}

/// Classify the non-clobbering move of a provisioned file into its
/// final place: it fails with `AlreadyExists` exactly when a file was
/// already at the target, and never overwrites one.
pub fn interpret_persist(target_existed: bool) -> (r: Result<(), Error>)
    ensures
        r == if target_existed {
            Err::<(), Error>(Error::AlreadyExists)
        } else {
            Ok::<(), Error>(())
        },
{
    if target_existed {
        Err(Error::AlreadyExists)
    } else {
        Ok(())
    }
}

/// Classify the deletion of a key file: deleting a file that is absent
/// fails with `FileNotFound`.
pub fn interpret_delete(existed: bool) -> (r: Result<(), Error>)
    ensures
        r == if existed {
            Ok::<(), Error>(())
        } else {
            Err::<(), Error>(Error::FileNotFound)
        },
{
    if existed {
        Ok(())
    } else {
        Err(Error::FileNotFound)
    }
}

/// Classify a run of the agent add/remove tool: a non-zero exit is a
/// `RegistrationError` carrying the tool's standard-error output.
pub fn interpret_registration(success: bool, stderr: Vec<u8>) -> (r: Result<(), Error>)
    ensures
        r == if success {
            Ok::<(), Error>(())
        } else {
            Err::<(), Error>(Error::RegistrationError(stderr))
        },
{
    if success {
        Ok(())
    } else {
        Err(Error::RegistrationError(stderr))
    }
}

/// Classify a run of the public-key derivation tool: on success the
/// result is exactly the bytes the tool wrote to standard output, and
/// a non-zero exit is a `DerivationError` carrying its standard-error
/// output.
pub fn interpret_derivation(success: bool, stdout: Vec<u8>, stderr: Vec<u8>) -> (r: Result<
    Vec<u8>,
    Error,
>)
    ensures
        r == if success {
            Ok::<Vec<u8>, Error>(stdout)
        } else {
            Err::<Vec<u8>, Error>(Error::DerivationError(stderr))
        },
{
    if success {
        Ok(stdout)
    } else {
        Err(Error::DerivationError(stderr))
    }
}

/// Classify a run of the passphrase-change flow: a non-zero exit is a
/// `PasswordError` carrying the tool's standard-error output.
pub fn interpret_password(success: bool, stderr: Vec<u8>) -> (r: Result<(), Error>)
    ensures
        r == if success {
            Ok::<(), Error>(())
        } else {
            Err::<(), Error>(Error::PasswordError(stderr))
        },
{
    if success {
        Ok(())
    } else {
        Err(Error::PasswordError(stderr))
    }
}

} // verus!
