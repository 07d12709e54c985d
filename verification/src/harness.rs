//! What the process harness decides before it spawns a child and when it
//! signals one.

use vstd::prelude::*;

verus! {

/// The descriptor on which a child reads the request descriptor.
pub const REQUEST_META_FD: i32 = 3;

/// The descriptor on which a child writes the response descriptor.
pub const RESPONSE_META_FD: i32 = 4;

/// One descriptor of the server that a child is to have under a number of
/// its own.
#[derive(Debug, Clone, Copy, PartialEq, Eq, Structural)]
pub struct FdMapping {
    pub parent_fd: i32,
    pub child_fd: i32,
}

/// The descriptors that a child inherits besides its standard ones: the read
/// end of the request descriptor's pipe as 3, the write end of the response
/// descriptor's pipe as 4.
pub open spec fn child_fds(request_meta_read: i32, response_meta_write: i32) -> Seq<FdMapping> {
    seq![
        FdMapping { parent_fd: request_meta_read, child_fd: REQUEST_META_FD },
        FdMapping { parent_fd: response_meta_write, child_fd: RESPONSE_META_FD },
    ]
}

/// The descriptors that a child inherits besides its standard ones. No two
/// of them come under one number in the child.
pub fn fd_mappings(request_meta_read: i32, response_meta_write: i32) -> (mappings: Vec<FdMapping>)
    ensures
        mappings@ == child_fds(request_meta_read, response_meta_write),
        forall|i: int, j: int|
            0 <= i < j < mappings@.len() ==> mappings@[i].child_fd != mappings@[j].child_fd,
{
    let mut mappings: Vec<FdMapping> = Vec::new();
    mappings.push(FdMapping { parent_fd: request_meta_read, child_fd: REQUEST_META_FD });
    mappings.push(FdMapping { parent_fd: response_meta_write, child_fd: RESPONSE_META_FD });
    assert(mappings@ =~= child_fds(request_meta_read, response_meta_write));
    mappings
}

/// The process group to send `SIGTERM` to, for a child that leads a group
/// of its own and has this process id, if it still has one: the id, where it
/// is a positive number that a signal can be sent to.
pub open spec fn signal_target_of(pid: Option<u32>) -> Option<i32> {
    match pid {
        Some(p) => if 0 < p <= i32::MAX {
            Some(p as i32)
        } else {
            None
        },
        None => None,
    }
}

/// The process group to send `SIGTERM` to. It is never zero or negative,
/// which would address the server's own group or every process.
pub fn signal_target(pid: Option<u32>) -> (target: Option<i32>)
    ensures
        target == signal_target_of(pid),
        target matches Some(t) ==> t > 0,
{
    match pid {
        Some(p) => {
            if 0 < p && p <= 2147483647 {
                Some(p as i32)
            } else {
                None
            }
        },
        None => None,
    }
}

} // verus!
