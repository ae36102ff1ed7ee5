//! Listing a directory of assets.

use vstd::prelude::*;
#[allow(unused_imports)]
use vstd::utf8::*;
use super::path::{is_utf8, string_from_utf8_lossy, strip_asset_path};
use super::{AAssetDir, Call, ManagerSlot, Reply};
use crate::cstr::c_string;
use crate::error::{Error, ErrorKind};

verus! {

/// How far the listing of a directory has come.
#[derive(Debug)]
pub enum Listing {
    /// The directory is to be opened.
    Open { manager: usize, dirname: Vec<u8> },
    /// The directory is open: another file name is to be read.
    Next { dir: AAssetDir, files: Vec<String> },
    /// All names are read: the directory is to be closed.
    Close { dir: AAssetDir, files: Vec<String> },
    /// Over: these are the names.
    Files(Vec<String>),
    /// Over: the directory cannot be listed.
    Failed(Error),
}

/// A [`Listing`], with the names in it as sequences.
pub enum State {
    Open { manager: usize, dirname: Seq<u8> },
    Next { dir: AAssetDir, files: Seq<Seq<char>> },
    Close { dir: AAssetDir, files: Seq<Seq<char>> },
    Files(Seq<Seq<char>>),
    Failed(Error),
}

/// The characters of each name.
pub open spec fn names(files: Seq<String>) -> Seq<Seq<char>> {
    files.map_values(|f: String| f@)
}

impl View for Listing {
    type V = State;

    open spec fn view(&self) -> State {
        match *self {
            Listing::Open { manager, dirname } => State::Open { manager, dirname: dirname@ },
            Listing::Next { dir, files } => State::Next { dir, files: names(files@) },
            Listing::Close { dir, files } => State::Close { dir, files: names(files@) },
            Listing::Files(files) => State::Files(names(files@)),
            Listing::Failed(e) => State::Failed(e),
        }
    }
}

/// The error of a call that gave nothing usable, or of a request that cannot be met.
pub open spec fn simple(kind: ErrorKind, message: &'static str) -> State {
    State::Failed(Error::Simple { kind, message })
}

/// How the listing of the directory at `path` begins: over at once where there is no manager,
/// where the path is not UTF-8 and where the name holds a zero byte; else with the directory to
/// be opened.
pub open spec fn start(manager: Option<usize>, path: Seq<u8>) -> State {
    match manager {
        None => simple(ErrorKind::Other, "AAssetManager not initialized"),
        Some(manager) => if !valid_utf8(path) {
            simple(ErrorKind::InvalidInput, "non-UTF-8 path for APK asset dir")
        } else if super::path::asset_name(path).contains(0u8) {
            simple(ErrorKind::InvalidInput, "path contains null byte")
        } else {
            State::Open { manager, dirname: super::path::asset_name(path).push(0u8) }
        },
    }
}

impl State {
    /// Whether nothing is left to be done.
    pub open spec fn is_over(self) -> bool {
        self is Files || self is Failed
    }

    /// The call to be made next.
    pub open spec fn pending(self) -> Option<super::Request> {
        match self {
            State::Open { manager, dirname } => Some(super::Request::OpenDir { manager, dirname }),
            State::Next { dir, .. } => Some(super::Request::NextFileName(dir)),
            State::Close { dir, .. } => Some(super::Request::CloseDir(dir)),
            State::Files(_) => None,
            State::Failed(_) => None,
        }
    }

    /// The state after `reply` to the pending call. A reply to any other call changes nothing.
    pub open spec fn after(self, reply: Reply<'_>) -> State {
        match (self, reply) {
            (State::Open { .. }, Reply::Dir(dir)) => if dir.0 == 0 {
                simple(ErrorKind::NotFound, "APK asset directory not found")
            } else {
                State::Next { dir, files: seq![] }
            },
            (State::Next { dir, files }, Reply::FileName(Some(name))) => State::Next {
                dir,
                files: files.push(super::path::file_name(name@)),
            },
            (State::Next { dir, files }, Reply::FileName(None)) => State::Close { dir, files },
            (State::Close { files, .. }, Reply::Closed) => State::Files(files),
            _ => self,
        }
    }
}

/// Starts to list the directory of assets at `path` through the manager in `slot`. The result
/// are the names of the files, not their paths.
///
/// This is for directories that the file system does not know, because they are only inside the
/// package.
pub fn read_asset_dir(slot: &ManagerSlot, path: &[u8]) -> (r: Listing)
    ensures
        r@ == start(slot@, path@),
{
    let manager: usize = match slot.get() {
        Some(manager) => manager,
        None => {
            return Listing::Failed(
                Error::Simple { kind: ErrorKind::Other, message: "AAssetManager not initialized" },
            );
        },
    };
    if !is_utf8(path) {
        return Listing::Failed(
            Error::Simple {
                kind: ErrorKind::InvalidInput,
                message: "non-UTF-8 path for APK asset dir",
            },
        );
    }
    match c_string(strip_asset_path(path)) {
        Some(dirname) => Listing::Open { manager, dirname },
        None => Listing::Failed(
            Error::Simple { kind: ErrorKind::InvalidInput, message: "path contains null byte" },
        ),
    }
}

impl Listing {
    /// The call to be made next, or `None` once the listing is over.
    pub fn call(&self) -> (r: Option<Call<'_>>)
        ensures
            super::asks(r, self@.pending()),
            r is None <==> self@.is_over(),
    {
        match self {
            Listing::Open { manager, dirname } => Some(
                Call::OpenDir { manager: *manager, dirname },
            ),
            Listing::Next { dir, .. } => Some(Call::NextFileName(*dir)),
            Listing::Close { dir, .. } => Some(Call::CloseDir(*dir)),
            Listing::Files(_) => None,
            Listing::Failed(_) => None,
        }
    }

    /// Takes the reply to the pending call.
    pub fn resume(self, reply: Reply<'_>) -> (r: Listing)
        ensures
            r@ == self@.after(reply),
    {
        match (self, reply) {
            (Listing::Open { .. }, Reply::Dir(dir)) => if dir.0 == 0 {
                Listing::Failed(
                    Error::Simple {
                        kind: ErrorKind::NotFound,
                        message: "APK asset directory not found",
                    },
                )
            } else {
                let files: Vec<String> = Vec::new();
                assert(names(files@) == Seq::<Seq<char>>::empty());
                Listing::Next { dir, files }
            },
            (Listing::Next { dir, files }, Reply::FileName(Some(name))) => {
                let mut files = files;
                let ghost before = files@;
                files.push(string_from_utf8_lossy(name));
                assert(names(files@) == names(before).push(super::path::file_name(name@)));
                Listing::Next { dir, files }
            },
            (Listing::Next { dir, files }, Reply::FileName(None)) => Listing::Close { dir, files },
            (Listing::Close { files, .. }, Reply::Closed) => Listing::Files(files),
            (state, _) => state,
        }
    }

    /// The names of the files or the reason why there are none, or `None` while a call is
    /// pending.
    pub fn finish(self) -> (r: Option<Result<Vec<String>, Error>>)
        ensures
            match self@ {
                State::Files(files) => r matches Some(Ok(f)) && names(f@) == files,
                State::Failed(e) => r == Some(Err::<Vec<String>, Error>(e)),
                _ => r is None,
            },
    {
        match self {
            Listing::Files(files) => Some(Ok(files)),
            Listing::Failed(e) => Some(Err(e)),
            _ => None,
        }
    }
}

/// What the NDK does with each call that listing a directory may make.
pub struct System<'b> {
    /// The directory that is opened, or none.
    pub dir: AAssetDir,
    /// The file names in it, in the order in which they are handed out.
    pub files: Seq<&'b [u8]>,
}

impl<'b> System<'b> {
    /// The reply to the call that `state` asks for.
    pub open spec fn answer(self, state: State) -> Reply<'b> {
        match state {
            State::Open { .. } => Reply::Dir(self.dir),
            State::Next { files, .. } => if files.len() < self.files.len() {
                Reply::FileName(Some(self.files[files.len() as int]))
            } else {
                Reply::FileName(None)
            },
            _ => Reply::Closed,
        }
    }

    /// The strings for the first `n` of the names.
    pub open spec fn listed(self, n: int) -> Seq<Seq<char>> {
        self.files.take(n).map_values(|f: &[u8]| super::path::file_name(f@))
    }

    /// No listing takes more calls than this.
    pub open spec fn max_calls(self) -> nat {
        self.files.len() + 3
    }
}

/// The state in which the NDK leaves `state` after at most `steps` calls.
pub open spec fn run(state: State, system: System<'_>, steps: nat) -> State
    decreases steps,
{
    if steps == 0 || state.is_over() {
        state
    } else {
        run(state.after(system.answer(state)), system, (steps - 1) as nat)
    }
}

/// The directories closed on the way, in order.
pub open spec fn closed(state: State, system: System<'_>, steps: nat) -> Seq<AAssetDir>
    decreases steps,
{
    if steps == 0 || state.is_over() {
        seq![]
    } else {
        let rest = closed(state.after(system.answer(state)), system, (steps - 1) as nat);
        match state.pending() {
            Some(super::Request::CloseDir(dir)) => seq![dir] + rest,
            _ => rest,
        }
    }
}

proof fn lemma_run_names(system: System<'_>, dir: AAssetDir, n: int)
    requires
        0 <= n <= system.files.len(),
    ensures
        ({
            let state = State::Next { dir, files: system.listed(n) };
            let steps = (system.files.len() - n + 2) as nat;
            &&& run(state, system, steps) == State::Files(
                system.listed(system.files.len() as int),
            )
            &&& closed(state, system, steps) == seq![dir]
        }),
    decreases system.files.len() - n,
{
    let state = State::Next { dir, files: system.listed(n) };
    if n < system.files.len() {
        assert(system.listed(n).push(super::path::file_name(system.files[n]@)) == system.listed(
            n + 1,
        ));
        assert(state.after(system.answer(state)) == (State::Next {
            dir,
            files: system.listed(n + 1),
        }));
        lemma_run_names(system, dir, n + 1);
    } else {
        reveal_with_fuel(run, 3);
        reveal_with_fuel(closed, 3);
        assert(seq![dir] + Seq::<AAssetDir>::empty() == seq![dir]);
    }
}

/// Listing ends, and gives the name of every file in the directory, in the order in which they
/// were handed out; or an error, if no manager is registered, if the path cannot name a
/// directory, or if there is no such directory.
pub proof fn law_outcome(manager: Option<usize>, path: Seq<u8>, system: System<'_>)
    ensures
        run(start(manager, path), system, system.max_calls()) == if start(
            manager,
            path,
        ) is Failed {
            start(manager, path)
        } else if system.dir.0 == 0 {
            simple(ErrorKind::NotFound, "APK asset directory not found")
        } else {
            State::Files(system.files.map_values(|f: &[u8]| super::path::file_name(f@)))
        },
{
    let s = start(manager, path);
    if s is Open && system.dir.0 != 0 {
        assert(system.listed(0) == Seq::<Seq<char>>::empty());
        lemma_run_names(system, system.dir, 0);
        assert(system.files.take(system.files.len() as int) == system.files);
    } else {
        reveal_with_fuel(run, 2);
    }
}

/// A directory that was opened is closed exactly once, and no other is.
pub proof fn law_closed_once(manager: Option<usize>, path: Seq<u8>, system: System<'_>)
    ensures
        closed(start(manager, path), system, system.max_calls()) == if start(
            manager,
            path,
        ) is Failed || system.dir.0 == 0 {
            seq![]
        } else {
            seq![system.dir]
        },
{
    let s = start(manager, path);
    if s is Open && system.dir.0 != 0 {
        assert(system.listed(0) == Seq::<Seq<char>>::empty());
        lemma_run_names(system, system.dir, 0);
    } else {
        reveal_with_fuel(closed, 2);
    }
}

} // verus!
