//! The systems that define partition types of their own.

use vstd::prelude::*;

verus! {

/// An operating system or project that reserves partition-type GUIDs.
///
/// A group of the registry belongs to one of these, or to none: the group
/// without an owner is written `None` wherever an `Option<System>` selects a
/// group.
#[derive(Clone, Copy, Debug, PartialEq, Eq, Hash, Structural)]
pub enum System {
    Windows,
    Linux,
    FreeBSD,
    Apple,
    Solaris,
    NetBSD,
    ChromeOS,
    CoreOS,
    Haiku,
    MidnightBSD,
    Ceph,
    OpenBSD,
    QNX,
    VMware,
    AndroidIA,
    AndroidARM,
    ONIE,
    AtariTOS,
}

/// Whether two group selectors name the same group.
pub fn same_group(a: Option<System>, b: Option<System>) -> (r: bool)
    ensures
        r == (a == b),
{
    match (a, b) {
        (None, None) => true,
        (Some(x), Some(y)) => x == y,
        _ => false,
    }
}

} // verus!
