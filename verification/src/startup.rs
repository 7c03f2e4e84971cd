//! The startup-file payload.
//!
//! When the process is handed a file path at launch, the path is made
//! absolute against the working directory and the file is read; the pair of
//! path and text is then delivered once to the presentation layer.  A failed
//! read yields no payload and startup goes on.  The read itself is the
//! surrounding application's, which hands its outcome in here.

use vstd::prelude::*;
use crate::paths::is_abs;
use crate::paths::is_absolute_path;
use crate::paths::join_of;
use crate::paths::join_paths;

verus! {

/// The pair delivered to the presentation layer at most once, at startup:
/// the absolute path of the startup file and its full text.
#[derive(Clone)]
pub struct InitialFilePayload {
    pub path: String,
    pub content: String,
}

/// The absolute form of the startup argument `arg`: an absolute `arg`
/// stands as given; a relative one is joined onto the working directory
/// `cwd`, or stands as given when no working directory could be told.
pub fn absolute_startup_path(arg: String, cwd: Option<&str>) -> (r: String)
    ensures
        is_abs(arg@) ==> r@ == arg@,
        !is_abs(arg@) ==> match cwd {
            Some(c) => r@ == join_of(c@, arg@),
            None => r@ == arg@,
        },
{
    if is_absolute_path(arg.as_str()) {
        arg
    } else {
        match cwd {
            Some(c) => join_paths(c, arg.as_str()),
            None => arg,
        }
    }
}

/// The startup payload: `Some` exactly when the startup file could be read,
/// carrying `path` and the text that was read; on a failed read there is no
/// payload.
pub fn initial_payload(path: String, read: Result<String, String>) -> (r: Option<
    InitialFilePayload,
>)
    ensures
        match read {
            Ok(content) => r matches Some(p) && p.path@ == path@ && p.content@ == content@,
            Err(_) => r is None,
        },
{
    match read {
        Ok(content) => Some(InitialFilePayload { path, content }),
        Err(_) => None,
    }
}

} // verus!
