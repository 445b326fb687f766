//! The command lines of the programs that do the work.
//!
//! The process runs as root, so each program is started directly, with
//! nothing put before its name.

use crate::text::views;
use vstd::prelude::*;
use vstd::string::*;

verus! {

/// `cryptsetup luksFormat <device>`: lay out a new encrypted volume.
pub open spec fn initialize_argv(device: Seq<char>) -> Seq<Seq<char>> {
    seq!["cryptsetup"@, "luksFormat"@, device]
}

/// `cryptsetup open <device> <label>`: unlock a volume.
pub open spec fn unlock_argv(device: Seq<char>, label: Seq<char>) -> Seq<Seq<char>> {
    seq!["cryptsetup"@, "open"@, device, label]
}

/// `cryptsetup close <label>`: lock a volume.
pub open spec fn lock_argv(label: Seq<char>) -> Seq<Seq<char>> {
    seq!["cryptsetup"@, "close"@, label]
}

/// `<formatter> <mapper>`: make a file system on an unlocked volume.
pub open spec fn mkfs_argv(formatter: Seq<char>, mapper: Seq<char>) -> Seq<Seq<char>> {
    seq![formatter, mapper]
}

/// `mount <mapper> <target>`.
pub open spec fn mount_argv(mapper: Seq<char>, target: Seq<char>) -> Seq<Seq<char>> {
    seq!["mount"@, mapper, target]
}

/// `umount <target>`.
pub open spec fn umount_argv(target: Seq<char>) -> Seq<Seq<char>> {
    seq!["umount"@, target]
}

/// Returns the command line that lays out a new encrypted volume.
pub fn initialize(device: &str) -> (r: Vec<String>)
    ensures
        views(r@) == initialize_argv(device@),
{
    let mut v: Vec<String> = Vec::new();
    v.push(String::from_str("cryptsetup"));
    v.push(String::from_str("luksFormat"));
    v.push(String::from_str(device));
    assert(views(v@) =~= initialize_argv(device@));
    v
}

/// Returns the command line that unlocks `device` as `label`.
pub fn unlock(device: &str, label: &str) -> (r: Vec<String>)
    ensures
        views(r@) == unlock_argv(device@, label@),
{
    let mut v: Vec<String> = Vec::new();
    v.push(String::from_str("cryptsetup"));
    v.push(String::from_str("open"));
    v.push(String::from_str(device));
    v.push(String::from_str(label));
    assert(views(v@) =~= unlock_argv(device@, label@));
    v
}

/// Returns the command line that locks the volume `label`.
pub fn lock(label: &str) -> (r: Vec<String>)
    ensures
        views(r@) == lock_argv(label@),
{
    let mut v: Vec<String> = Vec::new();
    v.push(String::from_str("cryptsetup"));
    v.push(String::from_str("close"));
    v.push(String::from_str(label));
    assert(views(v@) =~= lock_argv(label@));
    v
}

/// Returns the command line that makes a file system on `mapper`.
pub fn mkfs(formatter: &str, mapper: &str) -> (r: Vec<String>)
    ensures
        views(r@) == mkfs_argv(formatter@, mapper@),
{
    let mut v: Vec<String> = Vec::new();
    v.push(String::from_str(formatter));
    v.push(String::from_str(mapper));
    assert(views(v@) =~= mkfs_argv(formatter@, mapper@));
    v
}

/// Returns the command line that mounts `mapper` on `target`.
pub fn mount(mapper: &str, target: &str) -> (r: Vec<String>)
    ensures
        views(r@) == mount_argv(mapper@, target@),
{
    let mut v: Vec<String> = Vec::new();
    v.push(String::from_str("mount"));
    v.push(String::from_str(mapper));
    v.push(String::from_str(target));
    assert(views(v@) =~= mount_argv(mapper@, target@));
    v
}

/// Returns the command line that unmounts `target`.
pub fn umount(target: &str) -> (r: Vec<String>)
    ensures
        views(r@) == umount_argv(target@),
{
    let mut v: Vec<String> = Vec::new();
    v.push(String::from_str("umount"));
    v.push(String::from_str(target));
    assert(views(v@) =~= umount_argv(target@));
    v
}

} // verus!
