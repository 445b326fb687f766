//! Where things live: the encryption tool, mount points, mapper devices
//! and formatters.

use vstd::prelude::*;
use vstd::string::*;

verus! {

/// How the mount point of a volume is derived from its mapper label.
#[derive(Clone, Debug, PartialEq, Eq)]
pub enum PathConvention {
    /// `/mnt/<label>`.
    Fixed,
    /// `/run/media/<user>/<label>`, for the user who invoked the tool.
    PerUser { user: String },
}

/// The mathematical value of a [`PathConvention`].
pub enum PathConventionView {
    Fixed,
    PerUser { user: Seq<char> },
}

impl View for PathConvention {
    type V = PathConventionView;

    open spec fn view(&self) -> PathConventionView {
        match self {
            PathConvention::Fixed => PathConventionView::Fixed,
            PathConvention::PerUser { user } => PathConventionView::PerUser { user: user@ },
        }
    }
}

/// The directory on which the volume `label` is mounted.
pub open spec fn mount_point(paths: PathConventionView, label: Seq<char>) -> Seq<char> {
    match paths {
        PathConventionView::Fixed => "/mnt/"@ + label,
        PathConventionView::PerUser { user } => "/run/media/"@ + user + "/"@ + label,
    }
}

/// The place where `cryptsetup` is expected.
pub open spec fn tool_location() -> Seq<char> {
    "/usr/bin/cryptsetup"@
}

/// The device node of the unlocked volume `label`.
pub open spec fn mapper_device(label: Seq<char>) -> Seq<char> {
    "/dev/mapper/"@ + label
}

/// The program that makes a file system of type `fs`.
pub open spec fn formatter_path(fs: Seq<char>) -> Seq<char> {
    "/usr/bin/mkfs."@ + fs
}

impl PathConvention {
    /// Returns the directory on which the volume `label` is mounted.
    pub fn mount_point(&self, label: &str) -> (r: String)
        ensures
            r@ == mount_point(self@, label@),
    {
        match self {
            PathConvention::Fixed => String::from_str("/mnt/").concat(label),
            PathConvention::PerUser { user } => String::from_str("/run/media/").concat(
                user.as_str(),
            ).concat("/").concat(label),
        }
    }
}

/// Returns the path at which `cryptsetup` is looked for.
pub fn tool_path() -> (r: String)
    ensures
        r@ == tool_location(),
{
    String::from_str("/usr/bin/cryptsetup")
}

/// Returns the device node of the unlocked volume `label`.
pub fn mapper_path(label: &str) -> (r: String)
    ensures
        r@ == mapper_device(label@),
{
    String::from_str("/dev/mapper/").concat(label)
}

/// Returns the program that makes a file system of type `fs`.
pub fn formatter(fs: &str) -> (r: String)
    ensures
        r@ == formatter_path(fs@),
{
    String::from_str("/usr/bin/mkfs.").concat(fs)
}

} // verus!
