use vstd::prelude::*;
use crate::error::Error;
use crate::text::{
    join_with, lemma_join_split_on, lemma_split_on_concat, lemma_split_on_pieces_without_separator,
    lemma_split_on_without_separator, split, split_on, str_eq,
};

verus! {

/// The path of a dynamic-secret lease: `<mount>/creds/<role>`.
#[derive(Debug, Clone)]
pub struct LeasePath {
    /// Where the secrets engine is mounted.
    pub mount_point: String,
    /// The role whose credentials are asked for.
    pub role: String,
}

/// What a lease path holds, as plain sequences of characters.
pub struct LeasePathView {
    pub mount_point: Seq<char>,
    pub role: Seq<char>,
}

impl View for LeasePath {
    type V = LeasePathView;

    open spec fn view(&self) -> LeasePathView {
        LeasePathView { mount_point: self.mount_point@, role: self.role@ }
    }
}

/// The word that stands between mount point and role.
pub open spec fn creds_marker() -> Seq<char> {
    "creds"@
}

/// The mount point and role that a path names, if it is a lease path: cut at
/// every `/` it has exactly three pieces, none of them empty, and the middle
/// one is `creds`. Nothing is trimmed and no letter changes case.
pub open spec fn lease_path_of(path: Seq<char>) -> Option<LeasePathView> {
    let pieces = split_on(path, '/');
    if pieces.len() == 3 && pieces[0].len() > 0 && pieces[1] == creds_marker() && pieces[2].len()
        > 0 {
        Some(LeasePathView { mount_point: pieces[0], role: pieces[2] })
    } else {
        None
    }
}

/// The path that names a mount point and a role.
pub open spec fn lease_path_text(parts: LeasePathView) -> Seq<char> {
    parts.mount_point + seq!['/'] + creds_marker() + seq!['/'] + parts.role
}

/// Whether mount point and role can stand in a lease path: neither is empty
/// and neither holds a `/`.
pub open spec fn lease_path_parts_ok(parts: LeasePathView) -> bool {
    &&& parts.mount_point.len() > 0
    &&& parts.role.len() > 0
    &&& !parts.mount_point.contains('/')
    &&& !parts.role.contains('/')
}

/// Every accepted path is its mount point, `/creds/` and its role, written
/// verbatim, and neither of the two is empty or holds a `/`.
pub proof fn lemma_lease_path_shape(path: Seq<char>)
    requires
        lease_path_of(path) is Some,
    ensures
        lease_path_parts_ok(lease_path_of(path)->0),
        lease_path_text(lease_path_of(path)->0) == path,
{
    let pieces = split_on(path, '/');
    lemma_join_split_on(path, '/');
    lemma_split_on_pieces_without_separator(path, '/');
    assert(!pieces[0].contains('/'));
    assert(!pieces[2].contains('/'));
    let front = pieces.drop_last();
    assert(front.drop_last() =~= seq![pieces[0]]);
    assert(join_with(front.drop_last(), '/') == pieces[0]);
    assert(join_with(front, '/') == pieces[0] + seq!['/'] + pieces[1]);
    assert(join_with(pieces, '/') == join_with(front, '/') + seq!['/'] + pieces[2]);
}

/// Every path written as a mount point, `/creds/` and a role is accepted, and
/// names that mount point and that role.
pub proof fn lemma_lease_path_accepted(parts: LeasePathView)
    requires
        lease_path_parts_ok(parts),
    ensures
        lease_path_of(lease_path_text(parts)) == Some(parts),
{
    reveal_strlit("creds");
    let marker = creds_marker();
    assert(!marker.contains('/')) by {
        assert forall|i: int| 0 <= i < marker.len() implies marker[i] != '/' by {}
    }
    let tail = marker + seq!['/'] + parts.role;
    assert(lease_path_text(parts) =~= parts.mount_point + seq!['/'] + tail);
    lemma_split_on_concat(parts.mount_point, tail, '/');
    lemma_split_on_concat(marker, parts.role, '/');
    lemma_split_on_without_separator(parts.mount_point, '/');
    lemma_split_on_without_separator(marker, '/');
    lemma_split_on_without_separator(parts.role, '/');
    assert(split_on(lease_path_text(parts), '/') =~= seq![parts.mount_point, marker, parts.role]);
}

/// Checks a lease path and takes it apart.
///
/// Succeeds exactly on the paths that `lease_path_of` accepts; every other
/// path is refused with `InvalidVaultPath`.
pub fn validate(path: &str) -> (checked: Result<LeasePath, Error>)
    ensures
        match lease_path_of(path@) {
            Some(parts) => checked matches Ok(lease) && lease@ == parts,
            None => checked matches Err(Error::InvalidVaultPath),
        },
{
    let mut pieces = split(path, '/');
    if pieces.len() != 3 {
        return Err(Error::InvalidVaultPath);
    }
    let ghost cut = split_on(path@, '/');
    assert(forall|i: int| 0 <= i < 3 ==> (#[trigger] pieces@[i])@ == cut[i]);
    if !str_eq(pieces[1].as_str(), "creds") {
        return Err(Error::InvalidVaultPath);
    }
    if pieces[0].as_str().is_empty() || pieces[2].as_str().is_empty() {
        return Err(Error::InvalidVaultPath);
    }
    let role = pieces.pop();
    let _marker = pieces.pop();
    let mount_point = pieces.pop();
    match (mount_point, role) {
        (Some(mount_point), Some(role)) => Ok(LeasePath { mount_point, role }),
        _ => Err(Error::InvalidVaultPath),
    }
}

} // verus!
