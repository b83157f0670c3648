use vstd::prelude::*;
use vstd::string::*;

verus! {

/// The editor used when neither an explicit override nor a usable
/// environment choice exists.
pub fn fallback_editor() -> (r: String)
    ensures
        r@ == "vim"@,
{
    String::from_str("vim")
}

/// The editor configured in the environment, when it is usable: the
/// value of the preferred-editor setting, except that `nano` is
/// rejected even when configured, because it is known to corrupt key
/// files.
pub fn get_env_editor(configured: Option<String>) -> (r: Option<String>)
    ensures
        match configured {
            Some(e) => if e@ == "nano"@ {
                r is None
            } else {
                r == Some(e)
            },
            None => r is None,
        },
{
    match configured {
        Some(e) => if e == String::from_str("nano") {
            None
        } else {
            Some(e)
        },
        None => None,
    }
}

/// Which editor an edit step launches: an explicit override wins, then
/// the environment choice with `nano` rejected, then the fallback.
pub fn choose_editor(explicit: Option<String>, configured: Option<String>) -> (r: String)
    ensures
        match explicit {
            Some(e) => r == e,
            None => match configured {
                Some(c) => if c@ == "nano"@ {
                    r@ == "vim"@
                } else {
                    r == c
                },
                None => r@ == "vim"@,
            },
        },
{
    match explicit {
        Some(e) => e,
        None => match get_env_editor(configured) {
            Some(c) => c,
            None => fallback_editor(),
        },
    }
}

} // verus!
