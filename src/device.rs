use vstd::prelude::*;

verus! {

/// Relies on libc::O_WRONLY, the open flag that asks for write-only access
/// (1 on Linux).
#[verifier::external_body]
fn write_only_flag() -> (r: i32)
    ensures
        r == 1,
{
    libc::O_WRONLY
}

/// Relies on libc::O_RDWR, the open flag that asks for read and write access
/// (2 on Linux).
#[verifier::external_body]
fn read_write_flag() -> (r: i32)
    ensures
        r == 2,
{
    libc::O_RDWR
}

/// The access with which a device node is opened for the input library.
#[derive(Debug, Clone, Copy, PartialEq, Eq, Structural)]
pub struct Access {
    pub read: bool,
    pub write: bool,
}

/// The open flags ask for write access when they hold `O_WRONLY` or `O_RDWR`.
pub open spec fn wants_write(flags: i32) -> bool {
    flags & 1 != 0 || flags & 2 != 0
}

/// Read access is always requested; write access only when `flags` ask for it.
pub fn open_access(flags: i32) -> (r: Access)
    ensures
        r.read,
        r.write == wants_write(flags),
{
    let wronly = write_only_flag();
    let rdwr = read_write_flag();
    Access { read: true, write: flags & wronly != 0 || flags & rdwr != 0 }
}

} // verus!
