//! Where a configured path leads.

use crate::config::{below_home, expanded, shown_home};
use crate::dirs::FilePath;
use crate::text::utf8_lossy;
use vstd::prelude::*;

verus! {

/// A path that starts with `~/` leads below the home directory, with all that
/// follows kept; where no home is known it stays as it is.
pub proof fn law_tilde_leads_home(rest: Seq<char>, home: Seq<char>)
    ensures
        below_home(seq!['~', '/'] + rest),
        expanded(seq!['~', '/'] + rest, Some(home)) == home + seq!['/'] + rest,
        expanded(seq!['~', '/'] + rest, None) == seq!['~', '/'] + rest,
{
    reveal_strlit("/");
    let path = seq!['~', '/'] + rest;
    assert(path.skip(2) =~= rest);
    assert("/"@ =~= seq!['/']);
}

/// Every other path stays as it is, whatever the home directory.
pub proof fn law_other_paths_stay(path: Seq<char>, home: Option<Seq<char>>)
    requires
        !(path.len() >= 2 && path[0] == '~' && path[1] == '/'),
    ensures
        !below_home(path),
        expanded(path, home) == path,
{
}

/// The home directory that is written into a path is all of its path, as text.
pub proof fn law_home_is_written_whole(home: FilePath)
    ensures
        shown_home(Some(home)) == Some(utf8_lossy(home.bytes@)),
        shown_home(None) is None,
{
}

} // verus!
