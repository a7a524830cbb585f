//! Numbers that the host's C library gives a meaning.

use vstd::prelude::*;

verus! {

/// The error numbers that are told apart.
#[derive(Clone, Copy, Debug, PartialEq, Eq, Structural)]
pub struct Errnos {
    pub again: i32,
    pub would_block: i32,
    pub intr: i32,
    pub inval: i32,
    pub busy: i32,
    pub fault: i32,
    pub nxio: i32,
    pub badf: i32,
    pub opnotsupp: i32,
    pub exist: i32,
}

/// The values that hold on every Linux. `EOPNOTSUPP` varies with the processor.
pub open spec fn linux_errnos(e: Errnos) -> bool {
    &&& e.again == 11
    &&& e.would_block == 11
    &&& e.intr == 4
    &&& e.inval == 22
    &&& e.busy == 16
    &&& e.fault == 14
    &&& e.nxio == 6
    &&& e.badf == 9
    &&& e.exist == 17
    &&& (e.opnotsupp == 95 || e.opnotsupp == 122 || e.opnotsupp == 45)
}

/// The constants `libc::EAGAIN`, `EWOULDBLOCK`, `EINTR`, `EINVAL`, `EBUSY`,
/// `EFAULT`, `ENXIO`, `EBADF`, `EOPNOTSUPP` and `EEXIST` as the `libc` crate
/// defines them for Linux, the only system with the event descriptors and
/// rings that this crate is about.
#[verifier::external_body]
pub(crate) fn errnos() -> (e: Errnos)
    ensures
        linux_errnos(e),
{
    Errnos {
        again: libc::EAGAIN,
        would_block: libc::EWOULDBLOCK,
        intr: libc::EINTR,
        inval: libc::EINVAL,
        busy: libc::EBUSY,
        fault: libc::EFAULT,
        nxio: libc::ENXIO,
        badf: libc::EBADF,
        opnotsupp: libc::EOPNOTSUPP,
        exist: libc::EEXIST,
    }
}

/// What a failed socket operation calls for.
#[derive(Clone, Copy, Debug, PartialEq, Eq, Structural)]
pub enum SocketFailure {
    /// Wait until the socket is ready.
    WouldBlock,
    /// Do the same again at once.
    Interrupted,
    /// Give up.
    Fatal,
}

/// What the error number of a socket operation calls for.
pub open spec fn socket_failure(errno: i32) -> SocketFailure {
    if errno == 11 {
        SocketFailure::WouldBlock
    } else if errno == 4 {
        SocketFailure::Interrupted
    } else {
        SocketFailure::Fatal
    }
}

/// Tells what the error number of a socket operation calls for: `EAGAIN` to wait,
/// `EINTR` to repeat, anything else to give up.
pub fn classify_socket_errno(errno: i32) -> (failure: SocketFailure)
    ensures
        failure == socket_failure(errno),
{
    let e = errnos();
    if errno == e.again || errno == e.would_block {
        SocketFailure::WouldBlock
    } else if errno == e.intr {
        SocketFailure::Interrupted
    } else {
        SocketFailure::Fatal
    }
}

/// The numbers that describe how a file was opened.
#[derive(Clone, Copy, Debug, PartialEq, Eq, Structural)]
pub struct OpenFlags {
    pub accmode: i32,
    pub rdonly: i32,
    pub wronly: i32,
    pub rdwr: i32,
}

/// The values of the access modes on Linux. The mask that singles them out holds
/// one more bit with some C libraries.
pub open spec fn linux_open_flags(f: OpenFlags) -> bool {
    &&& (f.accmode == 3 || f.accmode == 0x20_0003)
    &&& f.rdonly == 0
    &&& f.wronly == 1
    &&& f.rdwr == 2
}

/// The constants `libc::O_ACCMODE`, `O_RDONLY`, `O_WRONLY` and `O_RDWR` as the
/// `libc` crate defines them for Linux: `O_ACCMODE` is 3 with the GNU library and
/// 0o10000003 with musl.
#[verifier::external_body]
fn open_flags() -> (f: OpenFlags)
    ensures
        linux_open_flags(f),
{
    OpenFlags {
        accmode: libc::O_ACCMODE,
        rdonly: libc::O_RDONLY,
        wronly: libc::O_WRONLY,
        rdwr: libc::O_RDWR,
    }
}

/// The ways in which a file can be used.
#[derive(Clone, Copy, Debug, PartialEq, Eq, Structural)]
pub struct FileAccess {
    pub readable: bool,
    pub writable: bool,
}

/// What the status flags of a file allow, given the numbers of the host.
pub open spec fn file_access(f: OpenFlags, flags: i32) -> FileAccess {
    let mode = flags & f.accmode;
    FileAccess { readable: mode == f.rdonly || mode == f.rdwr, writable: mode == f.wronly || mode == f.rdwr }
}

/// Tells what the status flags of a file allow, given the numbers of the host.
pub fn access_with(f: OpenFlags, flags: i32) -> (access: FileAccess)
    ensures
        access == file_access(f, flags),
{
    let mode: i32 = flags & f.accmode;
    FileAccess { readable: mode == f.rdonly || mode == f.rdwr, writable: mode == f.wronly || mode == f.rdwr }
}

/// Tells what the status flags of a file allow on this host. The access mode is
/// in the two lowest bits; a host whose mask is wider also wants the bit that
/// marks a bare path to be clear.
pub fn classify_file_flags(flags: i32) -> (access: FileAccess)
    ensures
        exists|f: OpenFlags| linux_open_flags(f) && access == #[trigger] file_access(f, flags),
        flags & 0x20_0000 == 0 ==> access.readable == (flags & 3 == 0 || flags & 3 == 2),
        flags & 0x20_0000 == 0 ==> access.writable == (flags & 3 == 1 || flags & 3 == 2),
{
    let f = open_flags();
    assert(flags & 0x20_0000 == 0 ==> flags & 0x20_0003 == flags & 3) by (bit_vector);
    access_with(f, flags)
}

/// The mode flags of an operation on the space that a file takes up.
#[derive(Clone, Copy, Debug, PartialEq, Eq, Structural)]
pub struct FallocateFlags {
    pub keep_size: i32,
    pub punch_hole: i32,
    pub zero_range: i32,
}

/// The constants `libc::FALLOC_FL_KEEP_SIZE`, `FALLOC_FL_PUNCH_HOLE` and
/// `FALLOC_FL_ZERO_RANGE` as the `libc` crate defines them for Linux.
#[verifier::external_body]
pub(crate) fn fallocate_flags() -> (f: FallocateFlags)
    ensures
        f == (FallocateFlags { keep_size: 1, punch_hole: 2, zero_range: 0x10 }),
{
    FallocateFlags {
        keep_size: libc::FALLOC_FL_KEEP_SIZE,
        punch_hole: libc::FALLOC_FL_PUNCH_HOLE,
        zero_range: libc::FALLOC_FL_ZERO_RANGE,
    }
}

/// Only two error numbers of a socket do not end the work: 11 asks to wait, and 4 to
/// repeat.
pub proof fn law_two_errors_are_passing(errno: i32)
    ensures
        socket_failure(errno) == SocketFailure::WouldBlock <==> errno == 11,
        socket_failure(errno) == SocketFailure::Interrupted <==> errno == 4,
        socket_failure(errno) == SocketFailure::Fatal <==> errno != 11 && errno != 4,
{
}

/// A file can be used both ways exactly if it was opened so, and in no way exactly if
/// its access mode is none of the three.
pub proof fn law_access_follows_the_mode(f: OpenFlags, flags: i32)
    requires
        linux_open_flags(f),
    ensures
        ({
            let access = file_access(f, flags);
            let mode = flags & f.accmode;
            &&& access.readable && !access.writable <==> mode == 0
            &&& access.writable && !access.readable <==> mode == 1
            &&& access.readable && access.writable <==> mode == 2
        }),
{
}

} // verus!
