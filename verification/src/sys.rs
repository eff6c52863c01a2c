//! The numbers that the kernel interface is written in, as `libc` gives
//! them for the platform that the crate is built for.
//!
//! Each function below hands out one constant of `libc`. Its contract is
//! not proved: it states the value that `libc` defines on Linux.

use vstd::prelude::*;

verus! {

/// The mask bit by which the kernel reports, and is asked for, readable data.
pub open spec fn readable() -> u32 {
    0x001
}

/// The mask bit for room to write.
pub open spec fn writable() -> u32 {
    0x004
}

/// The mask bit for an error condition on the descriptor.
pub open spec fn errored() -> u32 {
    0x008
}

/// The control operation that registers a descriptor.
pub open spec fn ctl_add() -> i32 {
    1
}

/// The control operation that takes a descriptor out.
pub open spec fn ctl_del() -> i32 {
    2
}

/// The error code for "no such entry".
pub open spec fn no_entry() -> i32 {
    2
}

/// The error code for a descriptor that is not an open one.
pub open spec fn bad_descriptor() -> i32 {
    9
}

/// The error code for "already there".
pub open spec fn exists_already() -> i32 {
    17
}

/// The error code for an argument out of range.
pub open spec fn invalid() -> i32 {
    22
}

/// The number of descriptors that a set of `select` has room for: the
/// descriptors that it can hold are those below this number.
pub open spec fn set_size() -> int {
    1024
}

/// `libc::EPOLLIN`, which `libc` defines as 0x1 for Linux.
#[verifier::external_body]
pub(crate) fn epollin() -> (r: u32)
    ensures
        r == readable(),
{
    libc::EPOLLIN as u32
}

/// `libc::EPOLLOUT`, which `libc` defines as 0x4 for Linux.
#[verifier::external_body]
pub(crate) fn epollout() -> (r: u32)
    ensures
        r == writable(),
{
    libc::EPOLLOUT as u32
}

/// `libc::EPOLLERR`, which `libc` defines as 0x8 for Linux.
#[verifier::external_body]
pub(crate) fn epollerr() -> (r: u32)
    ensures
        r == errored(),
{
    libc::EPOLLERR as u32
}

/// `libc::EPOLL_CTL_ADD`, which `libc` defines as 1.
#[verifier::external_body]
pub(crate) fn epoll_ctl_add() -> (r: i32)
    ensures
        r == ctl_add(),
{
    libc::EPOLL_CTL_ADD
}

/// `libc::EPOLL_CTL_DEL`, which `libc` defines as 2.
#[verifier::external_body]
pub(crate) fn epoll_ctl_del() -> (r: i32)
    ensures
        r == ctl_del(),
{
    libc::EPOLL_CTL_DEL
}

/// `libc::ENOENT`, which `libc` defines as 2 for Linux.
#[verifier::external_body]
pub(crate) fn enoent() -> (r: i32)
    ensures
        r == no_entry(),
{
    libc::ENOENT
}

/// `libc::EBADF`, which `libc` defines as 9 for Linux.
#[verifier::external_body]
pub(crate) fn ebadf() -> (r: i32)
    ensures
        r == bad_descriptor(),
{
    libc::EBADF
}

/// `libc::EEXIST`, which `libc` defines as 17 for Linux.
#[verifier::external_body]
pub(crate) fn eexist() -> (r: i32)
    ensures
        r == exists_already(),
{
    libc::EEXIST
}

/// `libc::EINVAL`, which `libc` defines as 22 for Linux.
#[verifier::external_body]
pub(crate) fn einval() -> (r: i32)
    ensures
        r == invalid(),
{
    libc::EINVAL
}

/// `libc::FD_SETSIZE`, which `libc` defines as 1024 for Linux.
#[verifier::external_body]
pub(crate) fn fd_setsize() -> (r: usize)
    ensures
        r == set_size(),
{
    libc::FD_SETSIZE
}

} // verus!
