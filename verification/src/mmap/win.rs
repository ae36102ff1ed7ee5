//! Opening and releasing a mapping on Windows.

use vstd::prelude::*;
use crate::cstr::wide_string;
use crate::error::Error;

verus! {

/// A handle of the system. Zero is taken for none; any other value is passed on as it is, also
/// the one by which `CreateFileW` reports a failure, which the call that gets it then refuses.
pub type WinHandle = usize;

/// The file may be read.
pub const GENERIC_READ: u32 = 0x8000_0000;

/// Others may open the file for reading meanwhile.
pub const FILE_SHARE_READ: u32 = 1;

/// The file must exist.
pub const OPEN_EXISTING: u32 = 3;

/// Pages may be read.
pub const PAGE_READONLY: u32 = 2;

/// The view may be read.
pub const FILE_MAP_READ: u32 = 4;

/// A call of the system that the library asks its caller to make.
#[derive(Debug)]
pub enum Call<'s> {
    /// The size in bytes of the file at `path`, given in UTF-16 code units.
    Metadata { path: &'s [u16] },
    /// `CreateFileW`, on a zero-terminated name.
    CreateFile {
        name: &'s Vec<u16>,
        access: u32,
        share: u32,
        security: usize,
        disposition: u32,
        flags: u32,
        template: WinHandle,
    },
    /// `CreateFileMappingW`, of an unnamed mapping object.
    CreateFileMapping {
        file: WinHandle,
        security: usize,
        protect: u32,
        size_high: u32,
        size_low: u32,
    },
    /// `MapViewOfFile`.
    MapViewOfFile {
        mapping: WinHandle,
        access: u32,
        offset_high: u32,
        offset_low: u32,
        len: usize,
    },
    /// The error of the last call that failed.
    LastError,
    /// `CloseHandle`.
    CloseHandle { handle: WinHandle },
    /// `UnmapViewOfFile`.
    UnmapViewOfFile { addr: usize },
}

/// What came back from a [`Call`].
#[derive(Debug)]
pub enum Reply<'m> {
    /// The size of the file.
    Metadata(Result<u64, std::io::Error>),
    /// The handle that `CreateFileW` or `CreateFileMappingW` returned.
    Handle(WinHandle),
    /// The address that `MapViewOfFile` returned and, unless it is zero, the memory mapped there.
    Viewed { addr: usize, bytes: &'m [u8] },
    /// The error that was asked for.
    LastError(std::io::Error),
    /// `CloseHandle` returned.
    Closed,
    /// The status that `UnmapViewOfFile` returned.
    Unmapped(i32),
}

/// How far the opening of a mapping has come.
#[derive(Debug)]
pub enum Opening<'p, 'm> {
    /// The size of the file is to be read.
    Stat { path: &'p [u16], name: Vec<u16> },
    /// The file is to be opened.
    CreateFile { name: Vec<u16>, len: usize },
    /// `CreateFileW` failed: the reason is to be read.
    CreateFailed,
    /// The file is open: a mapping object is to be made.
    CreateMapping { file: WinHandle, len: usize },
    /// `CreateFileMappingW` failed: the reason is to be read.
    MappingFailed { file: WinHandle },
    /// The file is to be mapped.
    MapView { file: WinHandle, mapping: WinHandle, len: usize },
    /// `MapViewOfFile` failed: the reason is to be read.
    ViewFailed { file: WinHandle, mapping: WinHandle },
    /// Opening failed for a known reason: the mapping object is to be closed, then the file.
    CloseMapping { file: WinHandle, mapping: WinHandle, error: Error },
    /// Opening failed for a known reason: the file is to be closed.
    CloseFile { file: WinHandle, error: Error },
    /// Over: there was nothing to map.
    Empty,
    /// Over: the file is mapped.
    Mapped { file: WinHandle, mapping: WinHandle, addr: usize, bytes: &'m [u8] },
    /// Over: the file cannot be mapped.
    Failed(Error),
}

impl<'p, 'm> Opening<'p, 'm> {
    /// Whether nothing is left to be done.
    pub open spec fn is_over(self) -> bool {
        self is Empty || self is Mapped || self is Failed
    }

    /// The call to be made next.
    pub open spec fn pending(&self) -> Option<Call<'_>> {
        match *self {
            Opening::Stat { path, .. } => Some(Call::Metadata { path }),
            Opening::CreateFile { name, .. } => Some(Call::CreateFile {
                name: &name,
                access: GENERIC_READ,
                share: FILE_SHARE_READ,
                security: 0,
                disposition: OPEN_EXISTING,
                flags: 0,
                template: 0,
            }),
            Opening::CreateFailed => Some(Call::LastError),
            Opening::CreateMapping { file, .. } => Some(Call::CreateFileMapping {
                file,
                security: 0,
                protect: PAGE_READONLY,
                size_high: 0,
                size_low: 0,
            }),
            Opening::MappingFailed { .. } => Some(Call::LastError),
            Opening::MapView { mapping, .. } => Some(Call::MapViewOfFile {
                mapping,
                access: FILE_MAP_READ,
                offset_high: 0,
                offset_low: 0,
                len: 0,
            }),
            Opening::ViewFailed { .. } => Some(Call::LastError),
            Opening::CloseMapping { mapping, .. } => Some(Call::CloseHandle { handle: mapping }),
            Opening::CloseFile { file, .. } => Some(Call::CloseHandle { handle: file }),
            Opening::Empty => None,
            Opening::Mapped { .. } => None,
            Opening::Failed(_) => None,
        }
    }

    /// The state after `reply` to the pending call. A reply to any other call changes nothing,
    /// nor does a view that is not as long as the file.
    pub open spec fn after(self, reply: Reply<'m>) -> Opening<'p, 'm> {
        match (self, reply) {
            (Opening::Stat { .. }, Reply::Metadata(Err(e))) => Opening::Failed(Error::Io(e)),
            (Opening::Stat { name, .. }, Reply::Metadata(Ok(size))) => if size as usize == 0 {
                Opening::Empty
            } else {
                Opening::CreateFile { name, len: size as usize }
            },
            (Opening::CreateFile { len, .. }, Reply::Handle(file)) => if file == 0 {
                Opening::CreateFailed
            } else {
                Opening::CreateMapping { file, len }
            },
            (Opening::CreateFailed, Reply::LastError(e)) => Opening::Failed(Error::Io(e)),
            (Opening::CreateMapping { file, len }, Reply::Handle(mapping)) => if mapping == 0 {
                Opening::MappingFailed { file }
            } else {
                Opening::MapView { file, mapping, len }
            },
            (Opening::MappingFailed { file }, Reply::LastError(e)) => Opening::CloseFile {
                file,
                error: Error::Io(e),
            },
            (Opening::MapView { file, mapping, len }, Reply::Viewed { addr, bytes }) => if addr
                == 0 {
                Opening::ViewFailed { file, mapping }
            } else if bytes@.len() == len {
                Opening::Mapped { file, mapping, addr, bytes }
            } else {
                self
            },
            (Opening::ViewFailed { file, mapping }, Reply::LastError(e)) => Opening::CloseMapping {
                file,
                mapping,
                error: Error::Io(e),
            },
            (Opening::CloseMapping { file, error, .. }, Reply::Closed) => Opening::CloseFile {
                file,
                error,
            },
            (Opening::CloseFile { error, .. }, Reply::Closed) => Opening::Failed(error),
            _ => self,
        }
    }

    /// The call to be made next, or `None` once the opening is over.
    pub fn call(&self) -> (r: Option<Call<'_>>)
        ensures
            r == self.pending(),
            r is None <==> self.is_over(),
    {
        match self {
            Opening::Stat { path, .. } => Some(Call::Metadata { path: *path }),
            Opening::CreateFile { name, .. } => Some(
                Call::CreateFile {
                    name,
                    access: GENERIC_READ,
                    share: FILE_SHARE_READ,
                    security: 0,
                    disposition: OPEN_EXISTING,
                    flags: 0,
                    template: 0,
                },
            ),
            Opening::CreateFailed => Some(Call::LastError),
            Opening::CreateMapping { file, .. } => Some(
                Call::CreateFileMapping {
                    file: *file,
                    security: 0,
                    protect: PAGE_READONLY,
                    size_high: 0,
                    size_low: 0,
                },
            ),
            Opening::MappingFailed { .. } => Some(Call::LastError),
            Opening::MapView { mapping, .. } => Some(
                Call::MapViewOfFile {
                    mapping: *mapping,
                    access: FILE_MAP_READ,
                    offset_high: 0,
                    offset_low: 0,
                    len: 0,
                },
            ),
            Opening::ViewFailed { .. } => Some(Call::LastError),
            Opening::CloseMapping { mapping, .. } => Some(Call::CloseHandle { handle: *mapping }),
            Opening::CloseFile { file, .. } => Some(Call::CloseHandle { handle: *file }),
            Opening::Empty => None,
            Opening::Mapped { .. } => None,
            Opening::Failed(_) => None,
        }
    }

    /// Takes the reply to the pending call.
    pub fn resume(self, reply: Reply<'m>) -> (r: Opening<'p, 'm>)
        ensures
            r == self.after(reply),
    {
        match (self, reply) {
            (Opening::Stat { .. }, Reply::Metadata(Err(e))) => Opening::Failed(Error::Io(e)),
            (Opening::Stat { name, .. }, Reply::Metadata(Ok(size))) => {
                let len: usize = size as usize;
                if len == 0 {
                    // An empty file cannot be mapped.
                    Opening::Empty
                } else {
                    Opening::CreateFile { name, len }
                }
            },
            (Opening::CreateFile { len, .. }, Reply::Handle(file)) => if file == 0 {
                Opening::CreateFailed
            } else {
                Opening::CreateMapping { file, len }
            },
            (Opening::CreateFailed, Reply::LastError(e)) => Opening::Failed(Error::Io(e)),
            (Opening::CreateMapping { file, len }, Reply::Handle(mapping)) => if mapping == 0 {
                Opening::MappingFailed { file }
            } else {
                Opening::MapView { file, mapping, len }
            },
            (Opening::MappingFailed { file }, Reply::LastError(e)) => Opening::CloseFile {
                file,
                error: Error::Io(e),
            },
            (Opening::MapView { file, mapping, len }, Reply::Viewed { addr, bytes }) => if addr
                == 0 {
                Opening::ViewFailed { file, mapping }
            } else if bytes.len() == len {
                Opening::Mapped { file, mapping, addr, bytes }
            } else {
                Opening::MapView { file, mapping, len }
            },
            (Opening::ViewFailed { file, mapping }, Reply::LastError(e)) => Opening::CloseMapping {
                file,
                mapping,
                error: Error::Io(e),
            },
            (Opening::CloseMapping { file, error, .. }, Reply::Closed) => Opening::CloseFile {
                file,
                error,
            },
            (Opening::CloseFile { error, .. }, Reply::Closed) => Opening::Failed(error),
            (state, _) => state,
        }
    }
}

/// Whether `start` is how the opening of `path` begins: with its size to be read, and with its
/// name ready for `CreateFileW`.
pub open spec fn begins(path: &[u16], start: Opening<'_, '_>) -> bool {
    &&& start matches Opening::Stat { path: p, name }
    &&& p == path
    &&& name@ == path@.push(0u16)
}

/// Starts to open and map the file at `path`, given in UTF-16 code units.
pub fn open<'p, 'm>(path: &'p [u16]) -> (r: Opening<'p, 'm>)
    ensures
        begins(path, r),
{
    Opening::Stat { path, name: wide_string(path) }
}

/// How far the release of a view has come.
#[derive(Debug)]
pub enum Unmapping {
    /// The view at `addr` is to be released.
    Unmap { addr: usize },
    /// Over: this is the status of the call.
    Status(i32),
}

impl Unmapping {
    /// The call to be made next.
    pub open spec fn pending(self) -> Option<Call<'static>> {
        match self {
            Unmapping::Unmap { addr } => Some(Call::UnmapViewOfFile { addr }),
            Unmapping::Status(_) => None,
        }
    }

    /// The state after `reply` to the pending call. A reply to any other call changes nothing.
    pub open spec fn after(self, reply: Reply<'_>) -> Unmapping {
        match (self, reply) {
            (Unmapping::Unmap { .. }, Reply::Unmapped(status)) => Unmapping::Status(status),
            _ => self,
        }
    }

    /// The call to be made next, or `None` once the view is released.
    pub fn call(&self) -> (r: Option<Call<'static>>)
        ensures
            r == self.pending(),
    {
        match self {
            Unmapping::Unmap { addr } => Some(Call::UnmapViewOfFile { addr: *addr }),
            Unmapping::Status(_) => None,
        }
    }

    /// Takes the reply to the pending call.
    pub fn resume(self, reply: Reply<'_>) -> (r: Unmapping)
        ensures
            r == self.after(reply),
    {
        match (self, reply) {
            (Unmapping::Unmap { .. }, Reply::Unmapped(status)) => Unmapping::Status(status),
            (state, _) => state,
        }
    }

    /// The status of the call, or `None` while it is pending.
    pub fn finish(self) -> (r: Option<i32>)
        ensures
            r == match self {
                Unmapping::Unmap { .. } => None::<i32>,
                Unmapping::Status(status) => Some(status),
            },
    {
        match self {
            Unmapping::Unmap { .. } => None,
            Unmapping::Status(status) => Some(status),
        }
    }
}

/// How the release of the view at `addr` begins.
pub open spec fn unmaps(addr: usize, _len: usize) -> Unmapping {
    Unmapping::Unmap { addr }
}

/// Starts to release the view at `addr`. The system knows how long the view is.
pub fn unmap(addr: usize, _len: usize) -> (r: Unmapping)
    ensures
        r == unmaps(addr, _len),
{
    Unmapping::Unmap { addr }
}

/// Releasing a view is one call on its address, whatever length is given, and comes to the status
/// of that call.
pub proof fn law_unmap(addr: usize, len: usize, other_len: usize, status: i32)
    ensures
        unmaps(addr, len) == unmaps(addr, other_len),
        unmaps(addr, len).pending() == Some(Call::UnmapViewOfFile { addr }),
        unmaps(addr, len).after(Reply::Unmapped(status)) == Unmapping::Status(status),
        Unmapping::Status(status).pending() is None,
{
}

/// The handles that are open in `state`, the newest last.
pub open spec fn held(state: Opening<'_, '_>) -> Seq<WinHandle> {
    match state {
        Opening::CreateMapping { file, .. } => seq![file],
        Opening::MappingFailed { file } => seq![file],
        Opening::MapView { file, mapping, .. } => seq![file, mapping],
        Opening::ViewFailed { file, mapping } => seq![file, mapping],
        Opening::CloseMapping { file, mapping, .. } => seq![file, mapping],
        Opening::CloseFile { file, .. } => seq![file],
        Opening::Mapped { file, mapping, .. } => seq![file, mapping],
        _ => seq![],
    }
}

/// Whatever is replied in whatever state, a handle comes to be held only when a call returned it,
/// and is held until it was closed; the newest is closed first.
pub proof fn law_held<'m>(state: Opening<'_, 'm>, reply: Reply<'m>)
    ensures
        ({
            ||| held(state.after(reply)) == held(state)
            ||| reply matches Reply::Handle(handle) && handle != 0 && held(state.after(reply))
                == held(state).push(handle)
            ||| reply is Closed && held(state).len() > 0 && state.pending() == Some(
                Call::CloseHandle { handle: held(state).last() },
            ) && held(state.after(reply)) == held(state).drop_last()
        }),
{
    if let Reply::Handle(handle) = reply {
        assert(Seq::<WinHandle>::empty().push(handle) =~= seq![handle]);
        if let Opening::CreateMapping { file, .. } = state {
            assert(seq![file].push(handle) =~= seq![file, handle]);
        }
    }
    if reply is Closed {
        if let Opening::CloseMapping { file, mapping, .. } = state {
            assert(seq![file, mapping].drop_last() =~= seq![file]);
        }
        if let Opening::CloseFile { file, .. } = state {
            assert(seq![file].drop_last() =~= Seq::<WinHandle>::empty());
        }
    }
}

/// A file is only ever opened and mapped for reading, and only if it exists.
pub proof fn law_read_only(state: Opening<'_, '_>)
    ensures
        state.pending() matches Some(Call::CreateFile { access, disposition, .. }) ==> access
            == GENERIC_READ && disposition == OPEN_EXISTING,
        state.pending() matches Some(Call::CreateFileMapping { protect, .. }) ==> protect
            == PAGE_READONLY,
        state.pending() matches Some(Call::MapViewOfFile { access, .. }) ==> access
            == FILE_MAP_READ,
{
}

/// What the system does with each call that opening a file may make.
pub struct System<'m> {
    /// The size of the file.
    pub size: Result<u64, std::io::Error>,
    /// What `CreateFileW` returns.
    pub file: WinHandle,
    /// What `CreateFileMappingW` returns.
    pub mapping: WinHandle,
    /// What `MapViewOfFile` returns.
    pub addr: usize,
    /// The memory mapped there.
    pub bytes: &'m [u8],
    /// The reason why the first of these calls to fail did.
    pub error: std::io::Error,
}

impl<'m> System<'m> {
    /// The reply to the call that `state` asks for.
    pub open spec fn answer(self, state: Opening<'_, 'm>) -> Reply<'m> {
        match state {
            Opening::Stat { .. } => Reply::Metadata(self.size),
            Opening::CreateFile { .. } => Reply::Handle(self.file),
            Opening::CreateMapping { .. } => Reply::Handle(self.mapping),
            Opening::MapView { .. } => Reply::Viewed { addr: self.addr, bytes: self.bytes },
            Opening::CloseMapping { .. } => Reply::Closed,
            Opening::CloseFile { .. } => Reply::Closed,
            _ => Reply::LastError(self.error),
        }
    }

    /// A view, where there is one, is as long as the file.
    pub open spec fn is_coherent(self) -> bool {
        self.addr != 0 && self.size is Ok && self.size->Ok_0 as usize != 0 ==> self.bytes@.len()
            == self.size->Ok_0 as usize
    }
}

/// The state in which the system leaves `state` after at most `steps` calls.
pub open spec fn run<'p, 'm>(state: Opening<'p, 'm>, system: System<'m>, steps: nat) -> Opening<
    'p,
    'm,
>
    decreases steps,
{
    if steps == 0 || state.is_over() {
        state
    } else {
        run(state.after(system.answer(state)), system, (steps - 1) as nat)
    }
}

/// The handles closed on the way, in order.
pub open spec fn closed(state: Opening<'_, '_>, system: System<'_>, steps: nat) -> Seq<WinHandle>
    decreases steps,
{
    if steps == 0 || state.is_over() {
        seq![]
    } else {
        let rest = closed(state.after(system.answer(state)), system, (steps - 1) as nat);
        match state.pending() {
            Some(Call::CloseHandle { handle }) => seq![handle] + rest,
            _ => rest,
        }
    }
}

/// No opening takes more calls than this.
pub open spec fn max_calls() -> nat {
    7
}

/// Opening a file ends, and gives what the system's answers amount to: its error where a call
/// failed, nothing to map where the file is empty, and otherwise the view with both handles.
pub proof fn law_outcome<'p, 'm>(path: &'p [u16], start: Opening<'p, 'm>, system: System<'m>)
    requires
        begins(path, start),
        system.is_coherent(),
    ensures
        run(start, system, max_calls()) == match system.size {
            Err(e) => Opening::Failed(Error::Io(e)),
            Ok(size) => if size as usize == 0 {
                Opening::Empty
            } else if system.file == 0 || system.mapping == 0 || system.addr == 0 {
                Opening::Failed(Error::Io(system.error))
            } else {
                Opening::Mapped {
                    file: system.file,
                    mapping: system.mapping,
                    addr: system.addr,
                    bytes: system.bytes,
                }
            },
        },
{
    reveal_with_fuel(run, 8);
}

/// Handles that were obtained before a call failed are closed, each once and the newer first;
/// no other handle is ever closed.
pub proof fn law_handles<'p, 'm>(path: &'p [u16], start: Opening<'p, 'm>, system: System<'m>)
    requires
        begins(path, start),
        system.is_coherent(),
    ensures
        closed(start, system, max_calls()) == if system.size is Err || system.size->Ok_0 as usize == 0
            || system.file == 0 {
            seq![]
        } else if system.mapping == 0 {
            seq![system.file]
        } else if system.addr == 0 {
            seq![system.mapping, system.file]
        } else {
            seq![]
        },
{
    reveal_with_fuel(closed, 8);
    assert(seq![system.file] + Seq::<WinHandle>::empty() == seq![system.file]);
    assert(seq![system.mapping] + seq![system.file] == seq![system.mapping, system.file]);
}

/// Whether `reply` is one to `call`.
pub open spec fn fits(call: Call<'_>, reply: Reply<'_>) -> bool {
    match (call, reply) {
        (Call::Metadata { .. }, Reply::Metadata(_)) => true,
        (Call::CreateFile { .. }, Reply::Handle(_)) => true,
        (Call::CreateFileMapping { .. }, Reply::Handle(_)) => true,
        (Call::MapViewOfFile { .. }, Reply::Viewed { .. }) => true,
        (Call::LastError, Reply::LastError(_)) => true,
        (Call::CloseHandle { .. }, Reply::Closed) => true,
        (Call::UnmapViewOfFile { .. }, Reply::Unmapped(_)) => true,
        _ => false,
    }
}

/// What was not asked for changes nothing.
pub proof fn law_unasked<'m>(state: Opening<'_, 'm>, unmapping: Unmapping, reply: Reply<'m>)
    ensures
        (state.pending() matches Some(call) ==> !fits(call, reply)) ==> state.after(reply) == state,
        (unmapping.pending() matches Some(call) ==> !fits(call, reply)) ==> unmapping.after(reply)
            == unmapping,
{
}

/// A view that is not as long as the file changes nothing.
pub proof fn law_view_length<'m>(state: Opening<'_, 'm>, addr: usize, bytes: &'m [u8])
    requires
        addr != 0,
    ensures
        state matches Opening::MapView { len, .. } ==> (bytes@.len() != len <==> state.after(
            Reply::Viewed { addr, bytes },
        ) == state),
        state.after(Reply::Viewed { addr, bytes }) matches Opening::Mapped {
            addr: at,
            bytes: mapped,
            ..
        } ==> state is Mapped || (at == addr && mapped == bytes),
{
}

} // verus!
