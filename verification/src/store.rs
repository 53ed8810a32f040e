//! Where decoded attachments are persisted: the default directory is
//! `<home>/.codex/attachments`, falling back to the current directory
//! when no home directory can be determined.

use vstd::prelude::*;
use vstd::string::StringExecFns;
use crate::strutil::{join_path, spec_join_path};

verus! {

/// Relies on dirs::home_dir: the caller's home directory, if the
/// platform can name one. The result depends on the environment, so
/// nothing is promised of it; a home directory that is not valid
/// Unicode is treated as absent.
#[verifier::external_body]
pub(crate) fn home_dir_string() -> (r: Option<String>)
{
    dirs::home_dir().and_then(|p| p.into_os_string().into_string().ok())
}

/// The attachment directory under a given home directory, or under `.`
/// when none is available.
pub open spec fn spec_attachment_dir(home: Option<Seq<char>>) -> Seq<char> {
    match home {
        Some(h) => spec_join_path(spec_join_path(h, ".codex"@), "attachments"@),
        None => spec_join_path(spec_join_path("."@, ".codex"@), "attachments"@),
    }
}

/// The directory `<base>/.codex/attachments` for the supplied home
/// directory, with `.` standing in when the home directory is unknown.
pub fn attachment_dir_for_home(home: &Option<String>) -> (r: String)
    ensures
        r@ == spec_attachment_dir(match *home {
            Some(h) => Some(h@),
            None => None,
        }),
{
    let base: String = match home {
        Some(h) => h.clone(),
        None => String::from_str("."),
    };
    let with_codex = join_path(base.as_str(), ".codex");
    join_path(with_codex.as_str(), "attachments")
}

/// The default directory that decoded attachments are saved under:
/// `<home>/.codex/attachments`, or `./.codex/attachments` when the home
/// directory cannot be determined.
pub fn default_attachment_dir() -> (r: String)
    ensures
        exists|home: Option<Seq<char>>| r@ == spec_attachment_dir(home),
{
    let home = home_dir_string();
    let ghost hv: Option<Seq<char>> = match &home {
        Some(h) => Some(h@),
        None => None,
    };
    let r = attachment_dir_for_home(&home);
    proof {
        assert(r@ == spec_attachment_dir(hv));
    }
    r
}

} // verus!
