//! What has to hold of the files of a store before it is opened, and while it is.
use vstd::prelude::*;
use crate::work::model::FailureCode;
use crate::work::model::WorkResult;
use crate::work::store::records::refuse;
use crate::work::store::records::refused;

verus! {

/// The newest layout of the tables that this store reads.
pub const LAYOUT_VERSION: i64 = 2;

/// What the file system says of a file or a directory.
#[derive(Debug, Clone, Copy, PartialEq, Eq, Structural)]
pub struct FileIdentity {
    pub regular: bool,
    pub directory: bool,
    pub device: u64,
    pub inode: u64,
    pub links: u64,
    pub owner: u32,
    /// The permission bits.
    pub mode: u32,
}

/// Whether tables of a layout can be read: older ones are brought up to date, newer ones are not
/// touched.
pub fn admit_layout(version: i64) -> (res: WorkResult<()>)
    ensures
        res == (if version > LAYOUT_VERSION {
            refused(FailureCode::StorageUnavailable)
        } else {
            Ok(())
        }),
{
    if version > LAYOUT_VERSION {
        return refuse(FailureCode::StorageUnavailable);
    }
    Ok(())
}

/// A directory that belongs to the user.
pub open spec fn own_directory(identity: FileIdentity, owner: u32) -> bool {
    identity.directory && identity.owner == owner
}

/// Whether the directory of a store may be used: it is no link and belongs to the user.
pub fn admit_directory(link: bool, identity: &FileIdentity, owner: u32) -> (res: WorkResult<()>)
    ensures
        res == (if !link && own_directory(*identity, owner) {
            Ok(())
        } else {
            refused(FailureCode::InvalidInput)
        }),
{
    if link || !identity.directory || identity.owner != owner {
        return refuse(FailureCode::InvalidInput);
    }
    Ok(())
}

/// A plain file under one name that belongs to the user.
pub open spec fn own_file(identity: FileIdentity, owner: u32) -> bool {
    identity.regular && identity.links == 1 && identity.owner == owner
}

/// Whether the file of a store may be used: a special file must not block, and a second name must
/// not let another file be changed.
pub fn admit_file(identity: &FileIdentity, owner: u32) -> (res: WorkResult<()>)
    ensures
        res == (if own_file(*identity, owner) {
            Ok(())
        } else {
            refused(FailureCode::InvalidInput)
        }),
{
    if !identity.regular || identity.links != 1 || identity.owner != owner {
        return refuse(FailureCode::InvalidInput);
    }
    Ok(())
}

/// The same file on the same device.
pub open spec fn same_file(a: FileIdentity, b: FileIdentity) -> bool {
    a.device == b.device && a.inode == b.inode
}

/// The directory and the file are still the ones that were checked, and private to the user.
pub open spec fn undisturbed(
    parent: FileIdentity,
    parent_now: FileIdentity,
    file: FileIdentity,
    file_now: FileIdentity,
    held: FileIdentity,
    owner: u32,
) -> bool {
    &&& own_directory(parent_now, owner)
    &&& same_file(parent_now, parent)
    &&& parent_now.mode == 0o700
    &&& own_file(file_now, owner)
    &&& same_file(file_now, file)
    &&& file_now.mode == 0o600
    &&& held.links == 1
}

/// Whether nothing was exchanged between the checks and the opening.
pub fn confirm_identity(
    parent: &FileIdentity,
    parent_now: &FileIdentity,
    file: &FileIdentity,
    file_now: &FileIdentity,
    held: &FileIdentity,
    owner: u32,
) -> (res: WorkResult<()>)
    ensures
        res == (if undisturbed(*parent, *parent_now, *file, *file_now, *held, owner) {
            Ok(())
        } else {
            refused(FailureCode::InvalidInput)
        }),
{
    if !parent_now.directory || parent_now.device != parent.device || parent_now.inode
        != parent.inode || parent_now.owner != owner || parent_now.mode != 0o700
        || !file_now.regular || file_now.device != file.device || file_now.inode != file.inode
        || file_now.links != 1 || file_now.owner != owner || file_now.mode != 0o600 || held.links
        != 1 {
        return refuse(FailureCode::InvalidInput);
    }
    Ok(())
}

} // verus!
