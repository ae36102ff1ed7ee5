//! Opening and releasing a mapping on Unix.

use vstd::prelude::*;
use crate::cstr::c_string;
use crate::error::{Error, ErrorKind};

verus! {

/// Pages may be read.
pub const PROT_READ: i32 = 1;

/// The mapping is shared with other processes.
pub const MAP_SHARED: i32 = 1;

/// The file is opened for reading only.
pub const O_RDONLY: i32 = 0;

/// The address that `mmap` returns when it fails.
pub const MAP_FAILED: usize = usize::MAX;

/// A system call that the library asks its caller to make.
#[derive(Debug)]
pub enum Call<'s> {
    /// `open`, on a zero-terminated path.
    Open { c_path: &'s Vec<u8>, flags: i32, mode: u32 },
    /// The error of the last system call that failed.
    LastError,
    /// The size in bytes of the file at `path`.
    Metadata { path: &'s [u8] },
    /// `mmap`.
    MapFile { addr: usize, len: usize, prot: i32, flags: i32, fd: i32, offset: i64 },
    /// `close`.
    Close { fd: i32 },
    /// `munmap`.
    Unmap { addr: usize, len: usize },
}

/// What came back from a [`Call`].
#[derive(Debug)]
pub enum Reply<'m> {
    /// The descriptor that `open` returned, negative if it failed.
    Opened(i32),
    /// The error that was asked for.
    LastError(std::io::Error),
    /// The size of the file.
    Metadata(Result<u64, std::io::Error>),
    /// The address that `mmap` returned and, unless it failed, the memory mapped there.
    Mapped { addr: usize, bytes: &'m [u8] },
    /// `close` or `munmap` returned.
    Closed,
}

/// How far the opening of a mapping has come.
#[derive(Debug)]
pub enum Opening<'p, 'm> {
    /// The file is to be opened.
    Open { path: &'p [u8], c_path: Vec<u8> },
    /// `open` failed: the reason is to be read.
    OpenFailed,
    /// The file is open: its size is to be read.
    Stat { path: &'p [u8], fd: i32 },
    /// The file is empty: the descriptor is to be closed.
    CloseEmpty { fd: i32 },
    /// `len` bytes are to be mapped.
    MapFile { fd: i32, len: usize },
    /// `mmap` failed: the descriptor is to be closed.
    CloseUnmapped { fd: i32 },
    /// `mmap` failed and the descriptor is closed: the reason is to be read.
    MapFailed,
    /// The file is mapped: the descriptor is to be closed.
    CloseMapped { fd: i32, addr: usize, bytes: &'m [u8] },
    /// Over: there was nothing to map.
    Empty,
    /// Over: the file is mapped.
    Mapped { addr: usize, bytes: &'m [u8] },
    /// Over: the file cannot be mapped.
    Failed(Error),
}

/// The error for a path that no C string can hold.
pub open spec fn nul_error() -> Error {
    Error::Simple { kind: ErrorKind::InvalidInput, message: "path contains NUL" }
}

impl<'p, 'm> Opening<'p, 'm> {
    /// Whether nothing is left to be done.
    pub open spec fn is_over(self) -> bool {
        self is Empty || self is Mapped || self is Failed
    }

    /// The call to be made next.
    pub open spec fn pending(&self) -> Option<Call<'_>> {
        match *self {
            Opening::Open { c_path, .. } => Some(Call::Open {
                c_path: &c_path,
                flags: O_RDONLY,
                mode: 0,
            }),
            Opening::OpenFailed => Some(Call::LastError),
            Opening::Stat { path, .. } => Some(Call::Metadata { path }),
            Opening::CloseEmpty { fd } => Some(Call::Close { fd }),
            Opening::MapFile { fd, len } => Some(Call::MapFile {
                addr: 0,
                len,
                prot: PROT_READ,
                flags: MAP_SHARED,
                fd,
                offset: 0,
            }),
            Opening::CloseUnmapped { fd } => Some(Call::Close { fd }),
            Opening::MapFailed => Some(Call::LastError),
            Opening::CloseMapped { fd, .. } => Some(Call::Close { fd }),
            Opening::Empty => None,
            Opening::Mapped { .. } => None,
            Opening::Failed(_) => None,
        }
    }

    /// The state after `reply` to the pending call. A reply to any other call changes nothing,
    /// nor does a mapping that is not as long as the file.
    pub open spec fn after(self, reply: Reply<'m>) -> Opening<'p, 'm> {
        match (self, reply) {
            (Opening::Open { path, .. }, Reply::Opened(fd)) => if fd < 0 {
                Opening::OpenFailed
            } else {
                Opening::Stat { path, fd }
            },
            (Opening::OpenFailed, Reply::LastError(e)) => Opening::Failed(Error::Io(e)),
            (Opening::Stat { .. }, Reply::Metadata(Err(e))) => Opening::Failed(Error::Io(e)),
            (Opening::Stat { fd, .. }, Reply::Metadata(Ok(size))) => if size as usize == 0 {
                Opening::CloseEmpty { fd }
            } else {
                Opening::MapFile { fd, len: size as usize }
            },
            (Opening::CloseEmpty { .. }, Reply::Closed) => Opening::Empty,
            (Opening::MapFile { fd, len }, Reply::Mapped { addr, bytes }) => if addr == MAP_FAILED {
                Opening::CloseUnmapped { fd }
            } else if bytes@.len() == len {
                Opening::CloseMapped { fd, addr, bytes }
            } else {
                self
            },
            (Opening::CloseUnmapped { .. }, Reply::Closed) => Opening::MapFailed,
            (Opening::MapFailed, Reply::LastError(e)) => Opening::Failed(Error::Io(e)),
            (Opening::CloseMapped { addr, bytes, .. }, Reply::Closed) => Opening::Mapped {
                addr,
                bytes,
            },
            _ => self,
        }
    }

    /// The call to be made next, or `None` once the opening is over.
    pub fn call(&self) -> (r: Option<Call<'_>>)
        ensures
            r == self.pending(),
            r is None <==> self.is_over(),
    {
        match self {
            Opening::Open { c_path, .. } => Some(
                Call::Open { c_path, flags: O_RDONLY, mode: 0 },
            ),
            Opening::OpenFailed => Some(Call::LastError),
            Opening::Stat { path, .. } => Some(Call::Metadata { path: *path }),
            Opening::CloseEmpty { fd } => Some(Call::Close { fd: *fd }),
            Opening::MapFile { fd, len } => Some(
                Call::MapFile {
                    addr: 0,
                    len: *len,
                    prot: PROT_READ,
                    flags: MAP_SHARED,
                    fd: *fd,
                    offset: 0,
                },
            ),
            Opening::CloseUnmapped { fd } => Some(Call::Close { fd: *fd }),
            Opening::MapFailed => Some(Call::LastError),
            Opening::CloseMapped { fd, .. } => Some(Call::Close { fd: *fd }),
            Opening::Empty => None,
            Opening::Mapped { .. } => None,
            Opening::Failed(_) => None,
        }
    }

    /// Takes the reply to the pending call.
    pub fn resume(self, reply: Reply<'m>) -> (r: Opening<'p, 'm>)
        ensures
            r == self.after(reply),
    {
        match (self, reply) {
            (Opening::Open { path, .. }, Reply::Opened(fd)) => if fd < 0 {
                Opening::OpenFailed
            } else {
                Opening::Stat { path, fd }
            },
            (Opening::OpenFailed, Reply::LastError(e)) => Opening::Failed(Error::Io(e)),
            (Opening::Stat { .. }, Reply::Metadata(Err(e))) => Opening::Failed(Error::Io(e)),
            (Opening::Stat { fd, .. }, Reply::Metadata(Ok(size))) => {
                let len: usize = size as usize;
                if len == 0 {
                    Opening::CloseEmpty { fd }
                } else {
                    Opening::MapFile { fd, len }
                }
            },
            (Opening::CloseEmpty { .. }, Reply::Closed) => Opening::Empty,
            (Opening::MapFile { fd, len }, Reply::Mapped { addr, bytes }) => if addr == MAP_FAILED {
                Opening::CloseUnmapped { fd }
            } else if bytes.len() == len {
                Opening::CloseMapped { fd, addr, bytes }
            } else {
                Opening::MapFile { fd, len }
            },
            (Opening::CloseUnmapped { .. }, Reply::Closed) => Opening::MapFailed,
            (Opening::MapFailed, Reply::LastError(e)) => Opening::Failed(Error::Io(e)),
            (Opening::CloseMapped { addr, bytes, .. }, Reply::Closed) => Opening::Mapped {
                addr,
                bytes,
            },
            (state, _) => state,
        }
    }
}

/// Whether `start` is how the opening of `path` begins: with the file to be opened, or, where no
/// C string can hold the path, over at once.
pub open spec fn begins(path: &[u8], start: Opening<'_, '_>) -> bool {
    if path@.contains(0u8) {
        start == Opening::Failed(nul_error())
    } else {
        &&& start matches Opening::Open { path: p, c_path }
        &&& p == path
        &&& c_path@ == path@.push(0u8)
    }
}

/// Starts to open and map the file at `path`.
pub fn open<'p, 'm>(path: &'p [u8]) -> (r: Opening<'p, 'm>)
    ensures
        begins(path, r),
{
    match c_string(path) {
        Some(c_path) => Opening::Open { path, c_path },
        None => Opening::Failed(
            Error::Simple { kind: ErrorKind::InvalidInput, message: "path contains NUL" },
        ),
    }
}

/// The call that releases the `len` bytes mapped at `addr`.
pub fn unmap<'s>(addr: usize, len: usize) -> (r: Call<'s>)
    ensures
        r == (Call::Unmap { addr, len }),
{
    Call::Unmap { addr, len }
}

/// The descriptor that is open in `state`.
pub open spec fn held(state: Opening<'_, '_>) -> Option<i32> {
    match state {
        Opening::Stat { fd, .. } => Some(fd),
        Opening::CloseEmpty { fd } => Some(fd),
        Opening::MapFile { fd, .. } => Some(fd),
        Opening::CloseUnmapped { fd } => Some(fd),
        Opening::CloseMapped { fd, .. } => Some(fd),
        _ => None,
    }
}

/// Whatever is replied in whatever state, a descriptor comes to be held only when `open` returned
/// it, and is held until it was closed or the size of the file could not be read.
pub proof fn law_held<'m>(state: Opening<'_, 'm>, reply: Reply<'m>)
    ensures
        held(state) is None ==> (held(state.after(reply)) matches Some(fd) ==> fd >= 0 && state
            is Open && reply == Reply::<'m>::Opened(fd)),
        held(state) matches Some(fd) ==> {
            ||| held(state.after(reply)) == Some(fd)
            ||| held(state.after(reply)) is None && state.pending() == Some(Call::Close { fd })
                && reply is Closed
            ||| held(state.after(reply)) is None && state is Stat && (reply matches Reply::Metadata(
                size,
            ) && size is Err)
        },
{
}

/// A file is only ever opened and mapped for reading.
pub proof fn law_read_only(state: Opening<'_, '_>)
    ensures
        state.pending() matches Some(Call::Open { flags, .. }) ==> flags == O_RDONLY,
        state.pending() matches Some(Call::MapFile { prot, .. }) ==> prot == PROT_READ,
{
}

/// What the system does with each call that opening a file may make.
pub struct System<'m> {
    /// What `open` returns.
    pub fd: i32,
    /// The size of the file.
    pub size: Result<u64, std::io::Error>,
    /// What `mmap` returns.
    pub addr: usize,
    /// The memory mapped there.
    pub bytes: &'m [u8],
    /// The error that is read once `open` or `mmap` has failed.
    pub error: std::io::Error,
}

impl<'m> System<'m> {
    /// The reply to the call that `state` asks for.
    pub open spec fn answer(self, state: Opening<'_, 'm>) -> Reply<'m> {
        match state {
            Opening::Open { .. } => Reply::Opened(self.fd),
            Opening::Stat { .. } => Reply::Metadata(self.size),
            Opening::MapFile { .. } => Reply::Mapped { addr: self.addr, bytes: self.bytes },
            Opening::OpenFailed => Reply::LastError(self.error),
            Opening::MapFailed => Reply::LastError(self.error),
            _ => Reply::Closed,
        }
    }

    /// A mapping, where there is one, is as long as the file.
    pub open spec fn is_coherent(self) -> bool {
        self.addr != MAP_FAILED && self.size is Ok && self.size->Ok_0 as usize != 0
            ==> self.bytes@.len() == self.size->Ok_0 as usize
    }
}

/// The state in which the system leaves `state` after at most `steps` calls.
pub open spec fn run<'p, 'm>(state: Opening<'p, 'm>, system: System<'m>, steps: nat) -> Opening<
    'p,
    'm,
>
    decreases steps,
{
    if steps == 0 || state.is_over() {
        state
    } else {
        run(state.after(system.answer(state)), system, (steps - 1) as nat)
    }
}

/// The descriptors closed on the way, in order.
pub open spec fn closed(state: Opening<'_, '_>, system: System<'_>, steps: nat) -> Seq<i32>
    decreases steps,
{
    if steps == 0 || state.is_over() {
        seq![]
    } else {
        let rest = closed(state.after(system.answer(state)), system, (steps - 1) as nat);
        match state.pending() {
            Some(Call::Close { fd }) => seq![fd] + rest,
            _ => rest,
        }
    }
}

/// No opening takes more calls than this.
pub open spec fn max_calls() -> nat {
    5
}

/// Opening a file ends, and gives what the system's answers amount to: its error where a call
/// failed, nothing to map where the file is empty, and otherwise the mapping. A path with a zero
/// byte in it is refused without any call.
pub proof fn law_outcome<'p, 'm>(path: &'p [u8], start: Opening<'p, 'm>, system: System<'m>)
    requires
        begins(path, start),
        system.is_coherent(),
    ensures
        run(start, system, max_calls()) == if path@.contains(0u8) {
            Opening::Failed(nul_error())
        } else if system.fd < 0 {
            Opening::Failed(Error::Io(system.error))
        } else {
            match system.size {
                Err(e) => Opening::Failed(Error::Io(e)),
                Ok(size) => if size as usize == 0 {
                    Opening::Empty
                } else if system.addr == MAP_FAILED {
                    Opening::Failed(Error::Io(system.error))
                } else {
                    Opening::Mapped { addr: system.addr, bytes: system.bytes }
                },
            }
        },
{
    reveal_with_fuel(run, 6);
}

/// Once the size of the file is known, the descriptor that was opened is closed exactly once,
/// whether or not the file could be mapped, and no other descriptor is.
pub proof fn law_descriptor<'p, 'm>(path: &'p [u8], start: Opening<'p, 'm>, system: System<'m>)
    requires
        begins(path, start),
        system.is_coherent(),
        path@.contains(0u8) || system.fd < 0 || system.size is Ok,
    ensures
        closed(start, system, max_calls()) == if path@.contains(0u8) || system.fd < 0 {
            seq![]
        } else {
            seq![system.fd]
        },
{
    reveal_with_fuel(closed, 6);
    assert(seq![system.fd] + Seq::<i32>::empty() == seq![system.fd]);
}

/// Whether `reply` is one to `call`; a mapping has to be as long as was asked.
pub open spec fn fits(call: Call<'_>, reply: Reply<'_>) -> bool {
    match (call, reply) {
        (Call::Open { .. }, Reply::Opened(_)) => true,
        (Call::LastError, Reply::LastError(_)) => true,
        (Call::Metadata { .. }, Reply::Metadata(_)) => true,
        (Call::MapFile { len, .. }, Reply::Mapped { addr, bytes }) => addr == usize::MAX
            || bytes@.len() == len,
        (Call::Close { .. }, Reply::Closed) => true,
        _ => false,
    }
}

/// What was not asked for changes nothing.
pub proof fn law_unasked<'m>(state: Opening<'_, 'm>, reply: Reply<'m>)
    requires
        state.pending() matches Some(call) ==> !fits(call, reply),
    ensures
        state.after(reply) == state,
{
}

/// A mapping is asked for only of the file that is open, and of all of it: from its first byte, at
/// any address, and as many bytes as the size says that was read just before.
pub proof fn law_maps_all<'m>(state: Opening<'_, 'm>, reply: Reply<'m>)
    ensures
        state.pending() matches Some(Call::MapFile { addr, len, prot, flags, fd, offset }) ==> addr
            == 0 && prot == 1 && flags == 1 && offset == 0 && held(state) == Some(fd),
        state.after(reply).pending() matches Some(Call::MapFile { len, fd, .. }) ==> {
            ||| state.after(reply) == state
            ||| state.pending() is Some && state.pending()->0 is Metadata && held(state) == Some(fd)
                && (reply matches Reply::Metadata(Ok(size)) && size as usize == len)
        },
{
}

} // verus!
