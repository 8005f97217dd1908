use vstd::prelude::*;

verus! {

/// Relies on libc::O_RDONLY: the read-only access mode, 0 on Linux.
#[verifier::external_body]
fn o_rdonly() -> (r: i32)
    ensures
        r == 0,
{
    libc::O_RDONLY
}

/// Relies on libc::O_WRONLY: the write-only access mode, 1 on Linux.
#[verifier::external_body]
fn o_wronly() -> (r: i32)
    ensures
        r == 1,
{
    libc::O_WRONLY
}

/// Relies on libc::O_RDWR: the read-write access mode, 2 on Linux.
#[verifier::external_body]
fn o_rdwr() -> (r: i32)
    ensures
        r == 2,
{
    libc::O_RDWR
}

/// Opens and closes input devices on behalf of the input library.
pub struct Interface;

/// How a device file is to be opened.
#[derive(Debug, Clone, Copy, PartialEq, Eq, Structural)]
pub struct Access {
    pub read: bool,
    pub write: bool,
}

impl Interface {
    /// The access that the open flags ask for: reading where they hold the
    /// read-only or the read-write bit, writing where they hold the write-only
    /// or the read-write bit. The read-only mode is 0, so only read-write opens
    /// for reading.
    pub fn access(flags: i32) -> (r: Access)
        ensures
            r.read == (flags & 0 != 0 || flags & 2 != 0),
            r.write == (flags & 1 != 0 || flags & 2 != 0),
    {
        let rdonly = o_rdonly();
        let wronly = o_wronly();
        let rdwr = o_rdwr();
        Access {
            read: (flags & rdonly != 0) || (flags & rdwr != 0),
            write: (flags & wronly != 0) || (flags & rdwr != 0),
        }
    }
}

} // verus!
