//! Choice of the directory the scratch file is created in.

use vstd::prelude::*;

verus! {

/// Where the scratch file lives: beside the target (the default), in the
/// process's current working directory, in the system temporary directory,
/// or in a directory the caller named.  Exactly one applies to a run.
#[derive(Debug, PartialEq, Eq)]
pub enum DirMode {
    Sibling,
    CurrentDir,
    SystemTemp,
    Explicit(String),
}

/// Resolve the mutually exclusive directory flags into the single mode that
/// wins, with documented precedence: an explicitly named directory first,
/// then the system temporary directory, then the current working directory,
/// and beside the target by default.
pub fn choose_dir_mode(explicit: Option<String>, system_temp: bool, current_dir: bool) -> (mode:
    DirMode)
    ensures
        mode == (match explicit {
            Some(dir) => DirMode::Explicit(dir),
            None => if system_temp {
                DirMode::SystemTemp
            } else if current_dir {
                DirMode::CurrentDir
            } else {
                DirMode::Sibling
            },
        }),
{
    match explicit {
        Some(dir) => DirMode::Explicit(dir),
        None => if system_temp {
            DirMode::SystemTemp
        } else if current_dir {
            DirMode::CurrentDir
        } else {
            DirMode::Sibling
        },
    }
}

} // verus!
