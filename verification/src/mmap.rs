//! Read-only file mappings.
//!
//! [`MmapFile::open`] starts to map a file. The [`Opening`] that it returns says which call of
//! the system comes next and takes the reply, until [`Opening::finish`] gives the mapping.

use vstd::prelude::*;
use crate::error::Error;

pub mod unix;
pub mod win;
pub mod world;

verus! {

/// A path in the encoding of the platform that opens it.
#[derive(Clone, Copy, Debug)]
pub enum OsPath<'p> {
    /// UTF-16 code units.
    Windows(&'p [u16]),
    /// Bytes.
    Unix(&'p [u8]),
    /// Bytes, on a platform that cannot map files.
    Other(&'p [u8]),
}

/// A call of the system that the library asks its caller to make.
#[derive(Debug)]
pub enum Call<'s> {
    /// One of Windows.
    Windows(win::Call<'s>),
    /// One of Unix.
    Unix(unix::Call<'s>),
    /// All bytes of the file at `path`.
    Read { path: &'s [u8] },
}

/// What came back from a [`Call`].
#[derive(Debug)]
pub enum Reply<'m> {
    /// From one of Windows.
    Windows(win::Reply<'m>),
    /// From one of Unix.
    Unix(unix::Reply<'m>),
    /// The bytes of the file.
    Read(Result<Vec<u8>, std::io::Error>),
}

/// How far the opening of a mapping has come.
#[derive(Debug)]
pub enum Opening<'p, 'm> {
    /// On Windows.
    Windows(win::Opening<'p, 'm>),
    /// On Unix.
    Unix(unix::Opening<'p, 'm>),
    /// The file is to be read.
    Read { path: &'p [u8] },
    /// Over: the file was read.
    Contents(Vec<u8>),
    /// Over: the file could not be read.
    Failed(Error),
}

impl<'p, 'm> Opening<'p, 'm> {
    /// Whether nothing is left to be done.
    pub open spec fn is_over(self) -> bool {
        match self {
            Opening::Windows(o) => o.is_over(),
            Opening::Unix(o) => o.is_over(),
            Opening::Read { .. } => false,
            Opening::Contents(_) => true,
            Opening::Failed(_) => true,
        }
    }

    /// The call to be made next.
    pub open spec fn pending(&self) -> Option<Call<'_>> {
        match *self {
            Opening::Windows(o) => match o.pending() {
                Some(c) => Some(Call::Windows(c)),
                None => None,
            },
            Opening::Unix(o) => match o.pending() {
                Some(c) => Some(Call::Unix(c)),
                None => None,
            },
            Opening::Read { path } => Some(Call::Read { path }),
            Opening::Contents(_) => None,
            Opening::Failed(_) => None,
        }
    }

    /// The state after `reply` to the pending call. A reply to any other call changes nothing.
    pub open spec fn after(self, reply: Reply<'m>) -> Opening<'p, 'm> {
        match (self, reply) {
            (Opening::Windows(o), Reply::Windows(r)) => Opening::Windows(o.after(r)),
            (Opening::Unix(o), Reply::Unix(r)) => Opening::Unix(o.after(r)),
            (Opening::Read { .. }, Reply::Read(Ok(data))) => Opening::Contents(data),
            (Opening::Read { .. }, Reply::Read(Err(e))) => Opening::Failed(Error::Io(e)),
            _ => self,
        }
    }

    /// The call to be made next, or `None` once the opening is over.
    pub fn call(&self) -> (r: Option<Call<'_>>)
        ensures
            r == self.pending(),
            r is None <==> self.is_over(),
    {
        match self {
            Opening::Windows(o) => match o.call() {
                Some(c) => Some(Call::Windows(c)),
                None => None,
            },
            Opening::Unix(o) => match o.call() {
                Some(c) => Some(Call::Unix(c)),
                None => None,
            },
            Opening::Read { path } => Some(Call::Read { path: *path }),
            Opening::Contents(_) => None,
            Opening::Failed(_) => None,
        }
    }

    /// Takes the reply to the pending call.
    pub fn resume(self, reply: Reply<'m>) -> (r: Opening<'p, 'm>)
        ensures
            r == self.after(reply),
    {
        match (self, reply) {
            (Opening::Windows(o), Reply::Windows(r)) => Opening::Windows(o.resume(r)),
            (Opening::Unix(o), Reply::Unix(r)) => Opening::Unix(o.resume(r)),
            (Opening::Read { .. }, Reply::Read(Ok(data))) => Opening::Contents(data),
            (Opening::Read { .. }, Reply::Read(Err(e))) => Opening::Failed(Error::Io(e)),
            (state, _) => state,
        }
    }

    /// Whether `result` is what this opening has come to: nothing while a call is pending, the
    /// error where it failed, and otherwise a mapping with the bytes of the file, which on drop
    /// unmaps what was mapped and closes what was kept open for it.
    pub open spec fn comes_to(self, result: Option<Result<MmapFile<'m>, Error>>) -> bool {
        match self {
            Opening::Windows(win::Opening::Failed(e)) => result == Some(
                Err::<MmapFile<'m>, Error>(e),
            ),
            Opening::Windows(win::Opening::Empty) => {
                &&& result matches Some(Ok(f))
                &&& f@ == Seq::<u8>::empty()
                &&& f.on_drop() == Seq::<Call<'static>>::empty()
            },
            Opening::Windows(win::Opening::Mapped { file, mapping, addr, bytes }) => {
                &&& result matches Some(Ok(f))
                &&& f@ == bytes@
                &&& f.on_drop() == seq![
                    Call::Windows(win::Call::UnmapViewOfFile { addr }),
                    Call::Windows(win::Call::CloseHandle { handle: mapping }),
                    Call::Windows(win::Call::CloseHandle { handle: file }),
                ]
            },
            Opening::Unix(unix::Opening::Failed(e)) => result == Some(
                Err::<MmapFile<'m>, Error>(e),
            ),
            Opening::Unix(unix::Opening::Empty) => {
                &&& result matches Some(Ok(f))
                &&& f@ == Seq::<u8>::empty()
                &&& f.on_drop() == Seq::<Call<'static>>::empty()
            },
            Opening::Unix(unix::Opening::Mapped { addr, bytes, .. }) => {
                &&& result matches Some(Ok(f))
                &&& f@ == bytes@
                &&& f.on_drop() == seq![
                    Call::Unix(unix::Call::Unmap { addr, len: bytes@.len() as usize }),
                ]
            },
            Opening::Contents(data) => {
                &&& result matches Some(Ok(f))
                &&& f@ == data@
                &&& f.on_drop() == Seq::<Call<'static>>::empty()
            },
            Opening::Failed(e) => result == Some(Err::<MmapFile<'m>, Error>(e)),
            _ => result is None,
        }
    }

    /// The mapping or the reason why there is none, or `None` while a call is pending.
    pub fn finish(self) -> (r: Option<Result<MmapFile<'m>, Error>>)
        ensures
            self.comes_to(r),
            r is None <==> !self.is_over(),
    {
        match self {
            Opening::Windows(win::Opening::Failed(e)) => Some(Err(e)),
            Opening::Windows(win::Opening::Empty) => Some(
                Ok(MmapFile { inner: Inner::Read(Vec::new()) }),
            ),
            Opening::Windows(win::Opening::Mapped { file, mapping, addr, bytes }) => Some(
                Ok(
                    MmapFile {
                        inner: Inner::MappedWindows { addr, bytes, file, mapping },
                    },
                ),
            ),
            Opening::Unix(unix::Opening::Failed(e)) => Some(Err(e)),
            Opening::Unix(unix::Opening::Empty) => Some(
                Ok(MmapFile { inner: Inner::Read(Vec::new()) }),
            ),
            Opening::Unix(unix::Opening::Mapped { addr, bytes }) => Some(
                Ok(MmapFile { inner: Inner::MappedUnix { addr, bytes } }),
            ),
            Opening::Contents(data) => Some(Ok(MmapFile { inner: Inner::Read(data) })),
            Opening::Failed(e) => Some(Err(e)),
            _ => None,
        }
    }
}

/// A file mapped for reading, or read into memory where it cannot be mapped.
#[derive(Debug)]
pub struct MmapFile<'m> {
    inner: Inner<'m>,
}

/// Where the bytes of a file are.
#[derive(Debug)]
enum Inner<'m> {
    MappedWindows { addr: usize, bytes: &'m [u8], file: win::WinHandle, mapping: win::WinHandle },
    MappedUnix { addr: usize, bytes: &'m [u8] },
    Read(Vec<u8>),
}

impl<'m> View for MmapFile<'m> {
    type V = Seq<u8>;

    /// The bytes of the file.
    closed spec fn view(&self) -> Seq<u8> {
        match self.inner {
            Inner::MappedWindows { bytes, .. } => bytes@,
            Inner::MappedUnix { bytes, .. } => bytes@,
            Inner::Read(data) => data@,
        }
    }
}

impl<'m> MmapFile<'m> {
    /// The calls that have to be made when the file is dropped, in order.
    pub closed spec fn on_drop(self) -> Seq<Call<'static>> {
        match self.inner {
            Inner::MappedWindows { addr, file, mapping, .. } => seq![
                Call::Windows(win::Call::UnmapViewOfFile { addr }),
                Call::Windows(win::Call::CloseHandle { handle: mapping }),
                Call::Windows(win::Call::CloseHandle { handle: file }),
            ],
            Inner::MappedUnix { addr, bytes } => seq![
                Call::Unix(unix::Call::Unmap { addr, len: bytes@.len() as usize }),
            ],
            Inner::Read(_) => seq![],
        }
    }

    /// Starts to open a file and map it for reading.
    pub fn open<'p>(path: OsPath<'p>) -> (r: Opening<'p, 'm>)
        ensures
            begins(path, r),
    {
        match path {
            OsPath::Windows(p) => Opening::Windows(win::open(p)),
            OsPath::Unix(p) => Opening::Unix(unix::open(p)),
            OsPath::Other(p) => Opening::Read { path: p },
        }
    }

    /// The bytes of the file.
    pub fn as_slice(&self) -> (r: &[u8])
        ensures
            r@ == self@,
    {
        match &self.inner {
            Inner::MappedWindows { bytes, .. } => *bytes,
            Inner::MappedUnix { bytes, .. } => *bytes,
            Inner::Read(data) => data.as_slice(),
        }
    }

    /// The calls that have to be made when the file is dropped, in order: a mapping is released,
    /// with the handles that keep it alive; bytes read into memory need nothing.
    pub fn release(&self) -> (r: Vec<Call<'static>>)
        ensures
            r@ == self.on_drop(),
    {
        let mut calls: Vec<Call<'static>> = Vec::new();
        match &self.inner {
            Inner::MappedWindows { addr, bytes, file, mapping } => {
                if let Some(call) = win::unmap(*addr, bytes.len()).call() {
                    calls.push(Call::Windows(call));
                }
                calls.push(Call::Windows(win::Call::CloseHandle { handle: *mapping }));
                calls.push(Call::Windows(win::Call::CloseHandle { handle: *file }));
            },
            Inner::MappedUnix { addr, bytes } => {
                calls.push(Call::Unix(unix::unmap(*addr, bytes.len())));
            },
            Inner::Read(_) => {},
        }
        assert(calls@ =~= self.on_drop());
        calls
    }
}

/// Whether `start` is how the opening of `path` begins.
pub open spec fn begins(path: OsPath<'_>, start: Opening<'_, '_>) -> bool {
    match path {
        OsPath::Windows(p) => start matches Opening::Windows(o) && win::begins(p, o),
        OsPath::Unix(p) => start matches Opening::Unix(o) && unix::begins(p, o),
        OsPath::Other(p) => start == (Opening::Read { path: p }),
    }
}

/// What the system does with each call that opening a file may make.
pub enum System<'m> {
    /// On Windows.
    Windows(win::System<'m>),
    /// On Unix.
    Unix(unix::System<'m>),
    /// What reading the file gives, where files cannot be mapped.
    Other(Result<Vec<u8>, std::io::Error>),
}

impl<'m> System<'m> {
    /// The reply to the call that `state` asks for.
    pub open spec fn answer(self, state: Opening<'_, 'm>) -> Reply<'m> {
        match (self, state) {
            (System::Windows(s), Opening::Windows(o)) => Reply::Windows(s.answer(o)),
            (System::Unix(s), Opening::Unix(o)) => Reply::Unix(s.answer(o)),
            (System::Other(data), _) => Reply::Read(data),
            _ => arbitrary(),
        }
    }

    /// No opening on this system takes more calls than this.
    pub open spec fn max_calls(self) -> nat {
        match self {
            System::Windows(_) => win::max_calls(),
            System::Unix(_) => unix::max_calls(),
            System::Other(_) => 1,
        }
    }

    /// Whether the system lets a file with the bytes `file` be opened at `path`: every call that
    /// has to be made succeeds, and what is mapped or read are those bytes.
    pub open spec fn serves(self, path: OsPath<'_>, file: Seq<u8>) -> bool {
        &&& file.len() <= usize::MAX
        &&& match (self, path) {
            (System::Windows(s), OsPath::Windows(_)) => {
                &&& s.size == Ok::<u64, std::io::Error>(file.len() as u64)
                &&& file.len() > 0 ==> s.file != 0 && s.mapping != 0 && s.addr != 0 && s.bytes@
                    == file
            },
            (System::Unix(s), OsPath::Unix(p)) => {
                &&& !p@.contains(0u8)
                &&& s.fd >= 0
                &&& s.size == Ok::<u64, std::io::Error>(file.len() as u64)
                &&& file.len() > 0 ==> s.addr != unix::MAP_FAILED && s.bytes@ == file
            },
            (System::Other(data), OsPath::Other(_)) => data matches Ok(d) && d@ == file,
            _ => false,
        }
    }

    /// Whether the first call that concerns the file at `path` fails with `error`.
    pub open spec fn refuses(self, path: OsPath<'_>, error: std::io::Error) -> bool {
        match (self, path) {
            (System::Windows(s), OsPath::Windows(_)) => s.size == Err::<u64, std::io::Error>(error),
            (System::Unix(s), OsPath::Unix(p)) => !p@.contains(0u8) && s.fd < 0 && s.error == error,
            (System::Other(data), OsPath::Other(_)) => data == Err::<Vec<u8>, std::io::Error>(
                error,
            ),
            _ => false,
        }
    }

    /// The calls that release what this system mapped for `file`.
    pub open spec fn unmapping(self, file: Seq<u8>) -> Seq<Call<'static>> {
        match self {
            System::Windows(s) if file.len() > 0 => seq![
                Call::Windows(win::Call::UnmapViewOfFile { addr: s.addr }),
                Call::Windows(win::Call::CloseHandle { handle: s.mapping }),
                Call::Windows(win::Call::CloseHandle { handle: s.file }),
            ],
            System::Unix(s) if file.len() > 0 => seq![
                Call::Unix(unix::Call::Unmap { addr: s.addr, len: file.len() as usize }),
            ],
            _ => seq![],
        }
    }
}

/// The state in which the system leaves `state` after at most `steps` calls.
pub open spec fn run<'p, 'm>(state: Opening<'p, 'm>, system: System<'m>, steps: nat) -> Opening<
    'p,
    'm,
>
    decreases steps,
{
    if steps == 0 || state.is_over() {
        state
    } else {
        run(state.after(system.answer(state)), system, (steps - 1) as nat)
    }
}

proof fn lemma_run_windows<'p, 'm>(o: win::Opening<'p, 'm>, s: win::System<'m>, steps: nat)
    ensures
        run(Opening::Windows(o), System::Windows(s), steps) == Opening::<'p, 'm>::Windows(
            win::run(o, s, steps),
        ),
    decreases steps,
{
    if steps > 0 && !o.is_over() {
        lemma_run_windows(o.after(s.answer(o)), s, (steps - 1) as nat);
    }
}

proof fn lemma_run_unix<'p, 'm>(o: unix::Opening<'p, 'm>, s: unix::System<'m>, steps: nat)
    ensures
        run(Opening::Unix(o), System::Unix(s), steps) == Opening::<'p, 'm>::Unix(
            unix::run(o, s, steps),
        ),
    decreases steps,
{
    if steps > 0 && !o.is_over() {
        lemma_run_unix(o.after(s.answer(o)), s, (steps - 1) as nat);
    }
}

/// A file that the system lets be opened is opened, an empty one too; the mapping then holds
/// exactly the bytes of the file, and on drop releases exactly what was mapped and kept open.
pub proof fn law_reads_back<'p, 'm>(
    path: OsPath<'p>,
    start: Opening<'p, 'm>,
    system: System<'m>,
    file: Seq<u8>,
    result: Option<Result<MmapFile<'m>, Error>>,
)
    requires
        begins(path, start),
        system.serves(path, file),
        run(start, system, system.max_calls()).comes_to(result),
    ensures
        result matches Some(Ok(f)) && f@ == file && f.on_drop() == system.unmapping(file),
{
    match (system, path, start) {
        (System::Windows(s), OsPath::Windows(p), Opening::Windows(o)) => {
            lemma_run_windows(o, s, win::max_calls());
            win::law_outcome(p, o, s);
        },
        (System::Unix(s), OsPath::Unix(p), Opening::Unix(o)) => {
            lemma_run_unix(o, s, unix::max_calls());
            unix::law_outcome(p, o, s);
        },
        _ => {
            reveal_with_fuel(run, 2);
        },
    }
}

/// A file that the system refuses to open gives no mapping but the system's error.
pub proof fn law_refused<'p, 'm>(
    path: OsPath<'p>,
    start: Opening<'p, 'm>,
    system: System<'m>,
    error: std::io::Error,
    result: Option<Result<MmapFile<'m>, Error>>,
)
    requires
        begins(path, start),
        system.refuses(path, error),
        run(start, system, system.max_calls()).comes_to(result),
    ensures
        result == Some(Err::<MmapFile<'m>, Error>(Error::Io(error))),
{
    match (system, path, start) {
        (System::Windows(s), OsPath::Windows(p), Opening::Windows(o)) => {
            lemma_run_windows(o, s, win::max_calls());
            win::law_outcome(p, o, s);
        },
        (System::Unix(s), OsPath::Unix(p), Opening::Unix(o)) => {
            lemma_run_unix(o, s, unix::max_calls());
            reveal_with_fuel(unix::run, 6);
        },
        _ => {
            reveal_with_fuel(run, 2);
        },
    }
}

/// The handles that the calls close, in order.
pub open spec fn closes(calls: Seq<Call<'_>>) -> Seq<win::WinHandle>
    decreases calls.len(),
{
    if calls.len() == 0 {
        seq![]
    } else {
        let rest = closes(calls.drop_first());
        match calls[0] {
            Call::Windows(win::Call::CloseHandle { handle }) => seq![handle] + rest,
            _ => rest,
        }
    }
}

/// On Windows, every handle that opening a file acquired is closed exactly once by the time the
/// file is dropped, the newer first: while opening where that failed, and on drop where it
/// succeeded. No other handle is closed.
pub proof fn law_handles_closed<'p, 'm>(
    path: &'p [u16],
    start: win::Opening<'p, 'm>,
    system: win::System<'m>,
    result: Option<Result<MmapFile<'m>, Error>>,
)
    requires
        win::begins(path, start),
        system.is_coherent(),
        Opening::Windows(win::run(start, system, win::max_calls())).comes_to(result),
    ensures
        win::closed(start, system, win::max_calls()) + match result {
            Some(Ok(f)) => closes(f.on_drop()),
            _ => seq![],
        } == if system.size is Err || system.size->Ok_0 as usize == 0 || system.file == 0 {
            Seq::<win::WinHandle>::empty()
        } else if system.mapping == 0 {
            seq![system.file]
        } else {
            seq![system.mapping, system.file]
        },
{
    win::law_outcome(path, start, system);
    win::law_handles(path, start, system);
    reveal_with_fuel(closes, 4);
    if let Some(Ok(f)) = result {
        if f.on_drop().len() == 3 {
            let rest = f.on_drop().drop_first();
            assert(rest[0] == f.on_drop()[1] && rest.drop_first()[0] == f.on_drop()[2]);
            assert(closes(f.on_drop()) =~= seq![system.mapping, system.file]);
        }
    }
}

/// Once an opening on Windows is over, the handles that are still held are exactly those that
/// dropping the file closes, the newest first; where there is no file, none is held.
pub proof fn law_none_held_after_drop<'p, 'm>(
    state: win::Opening<'p, 'm>,
    result: Option<Result<MmapFile<'m>, Error>>,
)
    requires
        state.is_over(),
        Opening::Windows(state).comes_to(result),
    ensures
        win::held(state) == match result {
            Some(Ok(f)) => closes(f.on_drop()).reverse(),
            _ => Seq::<win::WinHandle>::empty(),
        },
{
    reveal_with_fuel(closes, 4);
    if let Some(Ok(f)) = result {
        if f.on_drop().len() == 3 {
            let rest = f.on_drop().drop_first();
            assert(rest[0] == f.on_drop()[1] && rest.drop_first()[0] == f.on_drop()[2]);
            assert(closes(f.on_drop()).reverse() =~= win::held(state));
        } else {
            assert(closes(f.on_drop()).reverse() =~= Seq::<win::WinHandle>::empty());
        }
    }
}

} // verus!
