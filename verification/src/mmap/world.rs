//! Opening a file in a world that has it.
//!
//! A [`World`] says how calls are answered from what is asked in them, not from how far an
//! opening is. A call that asks for anything but the file in question may be answered in any way,
//! so what is proved here holds only because the right calls are made, in the right order.

use vstd::prelude::*;
#[allow(unused_imports)]
use super::{unix, win, Call, MmapFile, Opening, OsPath, Reply};
#[allow(unused_imports)]
use crate::error::{Error, ErrorKind};

verus! {

/// A Unix system and a file on it.
pub struct UnixWorld {
    /// Where the file is.
    pub path: Seq<u8>,
    /// Its bytes.
    pub file: Seq<u8>,
    /// The descriptor that it gets when it is opened; negative if it cannot be.
    pub fd: i32,
    /// Its size, or why that cannot be read.
    pub size: Result<u64, std::io::Error>,
    /// The address at which it is mapped; the last one if it cannot be.
    pub addr: usize,
    /// The error that the system keeps for whoever asks.
    pub error: std::io::Error,
}

/// A Windows system and a file on it.
pub struct WindowsWorld {
    /// Where the file is.
    pub path: Seq<u16>,
    /// Its bytes.
    pub file: Seq<u8>,
    /// Its size, or why that cannot be read.
    pub size: Result<u64, std::io::Error>,
    /// The handle that it gets when it is opened, or zero.
    pub handle: usize,
    /// The handle of its mapping object, or zero.
    pub mapping: usize,
    /// The address at which it is mapped, or zero.
    pub addr: usize,
    /// The error that the system keeps for whoever asks.
    pub error: std::io::Error,
}

/// A system and a file on it.
pub enum World {
    Unix(UnixWorld),
    Windows(WindowsWorld),
    /// One that cannot map files, with the path of the file and what reading it gives.
    Other(Seq<u8>, Result<Vec<u8>, std::io::Error>),
}

impl UnixWorld {
    /// Whether `reply` may come back from `call` while the descriptors `open` are open.
    pub open spec fn answers(self, open: Seq<int>, call: unix::Call<'_>, reply: unix::Reply<'_>)
        -> bool {
        match call {
            unix::Call::Open { c_path, flags, mode } => reply matches unix::Reply::Opened(fd) && (
            c_path@ == self.path.push(0u8) && flags == 0 && mode == 0 ==> fd == self.fd),
            unix::Call::LastError => reply matches unix::Reply::LastError(e) && e == self.error,
            unix::Call::Metadata { path } => reply matches unix::Reply::Metadata(size) && (path@
                == self.path ==> size == self.size),
            unix::Call::MapFile { addr: hint, len, prot, flags, fd, offset } => {
                &&& reply matches unix::Reply::Mapped { addr, bytes }
                &&& addr != usize::MAX ==> bytes@.len() == len
                &&& (hint == 0 && prot == 1 && flags == 1 && open == seq![fd as int] && fd
                    == self.fd && 0 <= offset && offset + len <= self.file.len()) ==> addr
                    == self.addr && (addr != usize::MAX ==> bytes@ == self.file.subrange(
                    offset as int,
                    offset + len,
                ))
            },
            unix::Call::Close { .. } => reply is Closed,
            unix::Call::Unmap { .. } => reply is Closed,
        }
    }
}

impl WindowsWorld {
    /// Whether `reply` may come back from `call` while the handles `open` are open.
    pub open spec fn answers(self, open: Seq<int>, call: win::Call<'_>, reply: win::Reply<'_>)
        -> bool {
        match call {
            win::Call::Metadata { path } => reply matches win::Reply::Metadata(size) && (path@
                == self.path ==> size == self.size),
            win::Call::CreateFile {
                name,
                access,
                share,
                security,
                disposition,
                flags,
                template,
            } => reply matches win::Reply::Handle(handle) && (name@ == self.path.push(0u16)
                && access == 0x8000_0000 && share == 1 && security == 0 && disposition == 3
                && flags == 0 && template == 0 ==> handle == self.handle),
            win::Call::CreateFileMapping { file, security, protect, size_high, size_low } => reply
                matches win::Reply::Handle(handle) && (open == seq![file as int] && file
                == self.handle && security == 0 && protect == 2 && size_high == 0 && size_low == 0
                ==> handle == self.mapping),
            win::Call::MapViewOfFile { mapping, access, offset_high, offset_low, len } => {
                &&& reply matches win::Reply::Viewed { addr, bytes }
                &&& (open == seq![self.handle as int, mapping as int] && mapping == self.mapping
                    && access == 4 && offset_high == 0 && offset_low == 0 && len == 0) ==> addr
                    == self.addr && (addr != 0 ==> bytes@ == self.file)
            },
            win::Call::LastError => reply matches win::Reply::LastError(e) && e == self.error,
            win::Call::CloseHandle { .. } => reply is Closed,
            win::Call::UnmapViewOfFile { .. } => reply is Unmapped,
        }
    }
}

impl World {
    /// Whether `reply` may come back from `call` while `open` is open.
    pub open spec fn answers(self, open: Seq<int>, call: Call<'_>, reply: Reply<'_>) -> bool {
        match (self, call) {
            (World::Unix(w), Call::Unix(c)) => reply matches Reply::Unix(r) && w.answers(
                open,
                c,
                r,
            ),
            (World::Windows(w), Call::Windows(c)) => reply matches Reply::Windows(r) && w.answers(
                open,
                c,
                r,
            ),
            (World::Other(at, data), Call::Read { path }) => reply matches Reply::Read(r) && (path@
                == at ==> r == data),
            _ => true,
        }
    }
}

/// What is open once `h` was closed. Closing anything but what was opened last, or what is not
/// open, leaves something that can never be closed.
pub open spec fn close(open: Seq<int>, h: int) -> Seq<int> {
    if open.len() > 0 && open.last() == h {
        open.drop_last()
    } else {
        open.push(-1).push(-1)
    }
}

/// What is open once `reply` came back from `call`.
pub open spec fn open_after(open: Seq<int>, call: Call<'_>, reply: Reply<'_>) -> Seq<int> {
    match (call, reply) {
        (
            Call::Unix(unix::Call::Open { .. }),
            Reply::Unix(unix::Reply::Opened(fd)),
        ) => if fd >= 0 {
            open.push(fd as int)
        } else {
            open
        },
        (Call::Unix(unix::Call::Close { fd }), _) => close(open, fd as int),
        (
            Call::Windows(win::Call::CreateFile { .. }),
            Reply::Windows(win::Reply::Handle(handle)),
        ) => if handle != 0 {
            open.push(handle as int)
        } else {
            open
        },
        (
            Call::Windows(win::Call::CreateFileMapping { .. }),
            Reply::Windows(win::Reply::Handle(handle)),
        ) => if handle != 0 {
            open.push(handle as int)
        } else {
            open
        },
        (Call::Windows(win::Call::CloseHandle { handle }), _) => close(open, handle as int),
        _ => open,
    }
}

/// What is open once `calls` were made on drop.
pub open spec fn open_after_drop(open: Seq<int>, calls: Seq<Call<'_>>) -> Seq<int>
    decreases calls.len(),
{
    if calls.len() == 0 {
        open
    } else {
        let next = match calls[0] {
            Call::Unix(unix::Call::Close { fd }) => close(open, fd as int),
            Call::Windows(win::Call::CloseHandle { handle }) => close(open, handle as int),
            _ => open,
        };
        open_after_drop(next, calls.drop_first())
    }
}

/// What opening a file comes to.
pub enum Outcome {
    /// A mapping with these bytes, for which these calls are made on drop.
    File { bytes: Seq<u8>, on_drop: Seq<Call<'static>> },
    /// An error.
    Error(Error),
}

/// Whether `result`, with `open` still open, is `outcome`, and leaves `leak` open in the end.
pub open spec fn is_outcome(
    result: Option<Result<MmapFile<'_>, Error>>,
    open: Seq<int>,
    outcome: Outcome,
    leak: Seq<int>,
) -> bool {
    match outcome {
        Outcome::File { bytes, on_drop } => {
            &&& result matches Some(Ok(f))
            &&& f@ == bytes
            &&& f.on_drop() == on_drop
            &&& open_after_drop(open, f.on_drop()) == leak
        },
        Outcome::Error(e) => {
            &&& result matches Some(Err(got))
            &&& got == e
            &&& open == leak
        },
    }
}

/// Whether, however the world answers, `state` comes to `outcome` within `calls` calls, and leaves
/// `leak` open once the file is dropped.
pub open spec fn always_comes_to<'p, 'm>(
    world: World,
    state: Opening<'p, 'm>,
    open: Seq<int>,
    calls: nat,
    outcome: Outcome,
    leak: Seq<int>,
) -> bool
    decreases calls,
{
    if state.is_over() {
        forall|result: Option<Result<MmapFile<'m>, Error>>| #[trigger]
            state.comes_to(result) ==> is_outcome(result, open, outcome, leak)
    } else {
        &&& calls > 0
        &&& state.pending() is Some
        &&& forall|reply: Reply<'m>| #[trigger]
            world.answers(open, state.pending()->0, reply) ==> always_comes_to(
                world,
                state.after(reply),
                open_after(open, state.pending()->0, reply),
                (calls - 1) as nat,
                outcome,
                leak,
            )
    }
}

/// On Unix, opening the file at a path maps the whole of it, from its first byte, and nothing
/// else: the mapping holds exactly the bytes of the file, whatever its length, and on drop exactly
/// that region is unmapped. Where a call fails, the result is the error of the system; a path with
/// a zero byte in it is refused. The descriptor is closed, except where the size of the file could
/// not be read.
pub proof fn law_unix_file<'p, 'm>(path: &'p [u8], start: Opening<'p, 'm>, world: UnixWorld)
    requires
        super::begins(OsPath::Unix(path), start),
        world.path == path@,
        world.size matches Ok(size) ==> size == world.file.len() && size <= usize::MAX,
    ensures
        always_comes_to(
            World::Unix(world),
            start,
            seq![],
            5,
            if path@.contains(0u8) {
                Outcome::Error(
                    Error::Simple { kind: ErrorKind::InvalidInput, message: "path contains NUL" },
                )
            } else if world.fd < 0 {
                Outcome::Error(Error::Io(world.error))
            } else if world.size is Err {
                Outcome::Error(Error::Io(world.size->Err_0))
            } else if world.file.len() == 0 {
                Outcome::File { bytes: seq![], on_drop: seq![] }
            } else if world.addr == usize::MAX {
                Outcome::Error(Error::Io(world.error))
            } else {
                Outcome::File {
                    bytes: world.file,
                    on_drop: seq![
                        Call::Unix(
                            unix::Call::Unmap { addr: world.addr, len: world.file.len() as usize },
                        ),
                    ],
                }
            },
            if !path@.contains(0u8) && world.fd >= 0 && world.size is Err {
                seq![world.fd as int]
            } else {
                seq![]
            },
        ),
{
    reveal_with_fuel(always_comes_to, 6);
    reveal_with_fuel(open_after_drop, 2);
    let fd = world.fd as int;
    assert(Seq::<int>::empty().push(fd) =~= seq![fd]);
    assert(seq![fd].drop_last() =~= Seq::<int>::empty());
    assert(world.file.subrange(0, world.file.len() as int) =~= world.file);
}

/// On Windows, opening the file at a path maps the whole of it, and nothing else: the mapping
/// holds exactly the bytes of the file, whatever its length. Where a call fails, the result is the
/// error of the system. Nothing that was opened is open any more once the file is dropped, or once
/// opening it failed.
pub proof fn law_windows_file<'p, 'm>(path: &'p [u16], start: Opening<'p, 'm>, world: WindowsWorld)
    requires
        super::begins(OsPath::Windows(path), start),
        world.path == path@,
        world.size matches Ok(size) ==> size == world.file.len() && size <= usize::MAX,
    ensures
        always_comes_to(
            World::Windows(world),
            start,
            seq![],
            7,
            if world.size is Err {
                Outcome::Error(Error::Io(world.size->Err_0))
            } else if world.file.len() == 0 {
                Outcome::File { bytes: seq![], on_drop: seq![] }
            } else if world.handle == 0 || world.mapping == 0 || world.addr == 0 {
                Outcome::Error(Error::Io(world.error))
            } else {
                Outcome::File {
                    bytes: world.file,
                    on_drop: seq![
                        Call::Windows(win::Call::UnmapViewOfFile { addr: world.addr }),
                        Call::Windows(win::Call::CloseHandle { handle: world.mapping }),
                        Call::Windows(win::Call::CloseHandle { handle: world.handle }),
                    ],
                }
            },
            seq![],
        ),
{
    reveal_with_fuel(always_comes_to, 8);
    reveal_with_fuel(open_after_drop, 4);
    let file = world.handle as int;
    let mapping = world.mapping as int;
    assert(Seq::<int>::empty().push(file) =~= seq![file]);
    assert(seq![file].push(mapping) =~= seq![file, mapping]);
    assert(seq![file, mapping].drop_last() =~= seq![file]);
    assert(seq![file].drop_last() =~= Seq::<int>::empty());
}

/// Elsewhere, opening the file at a path reads it, and gives exactly what was read.
pub proof fn law_other_file<'p, 'm>(
    path: &'p [u8],
    start: Opening<'p, 'm>,
    data: Result<Vec<u8>, std::io::Error>,
)
    requires
        super::begins(OsPath::Other(path), start),
    ensures
        always_comes_to(
            World::Other(path@, data),
            start,
            seq![],
            1,
            match data {
                Ok(bytes) => Outcome::File { bytes: bytes@, on_drop: seq![] },
                Err(e) => Outcome::Error(Error::Io(e)),
            },
            seq![],
        ),
{
    reveal_with_fuel(always_comes_to, 2);
    reveal_with_fuel(open_after_drop, 1);
}

/// A reply of one platform changes nothing in an opening on another, nor does any reply once the
/// opening is over.
pub proof fn law_foreign_reply<'p, 'm>(state: Opening<'p, 'm>, reply: Reply<'m>)
    ensures
        state is Unix && !(reply is Unix) ==> state.after(reply) == state,
        state is Windows && !(reply is Windows) ==> state.after(reply) == state,
        !(state is Unix) && !(state is Windows) && !(reply is Read) ==> state.after(reply) == state,
        state.is_over() ==> state.after(reply) == state,
{
}

} // verus!
