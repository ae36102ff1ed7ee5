//! Reading one asset.

use vstd::prelude::*;
#[allow(unused_imports)]
use vstd::utf8::*;
use vstd::slice::slice_to_vec;
use super::path::{is_utf8, strip_asset_path};
use super::{AAsset, Call, ManagerSlot, Reply, AASSET_MODE_BUFFER};
use crate::cstr::c_string;
use crate::error::{Error, ErrorKind};

verus! {

/// How far the reading of an asset has come.
#[derive(Debug)]
pub enum Reading {
    /// The asset is to be opened.
    Open { manager: usize, filename: Vec<u8> },
    /// The asset is open: its length is to be read.
    Length { asset: AAsset },
    /// `len` bytes are to be read.
    Buffer { asset: AAsset, len: usize },
    /// There is no buffer: the asset is to be closed.
    CloseUnread { asset: AAsset },
    /// The bytes are copied: the asset is to be closed.
    Close { asset: AAsset, data: Vec<u8> },
    /// Over: these are the bytes.
    Data(Vec<u8>),
    /// Over: the asset cannot be read.
    Failed(Error),
}

/// A [`Reading`], with the bytes in it as sequences.
pub enum State {
    Open { manager: usize, filename: Seq<u8> },
    Length { asset: AAsset },
    Buffer { asset: AAsset, len: usize },
    CloseUnread { asset: AAsset },
    Close { asset: AAsset, data: Seq<u8> },
    Data(Seq<u8>),
    Failed(Error),
}

impl View for Reading {
    type V = State;

    open spec fn view(&self) -> State {
        match *self {
            Reading::Open { manager, filename } => State::Open { manager, filename: filename@ },
            Reading::Length { asset } => State::Length { asset },
            Reading::Buffer { asset, len } => State::Buffer { asset, len },
            Reading::CloseUnread { asset } => State::CloseUnread { asset },
            Reading::Close { asset, data } => State::Close { asset, data: data@ },
            Reading::Data(data) => State::Data(data@),
            Reading::Failed(e) => State::Failed(e),
        }
    }
}

/// The error of a call that gave nothing usable, or of a request that cannot be met.
pub open spec fn simple(kind: ErrorKind, message: &'static str) -> State {
    State::Failed(Error::Simple { kind, message })
}

/// How the reading of the asset at `path` begins: over at once where there is no manager, where
/// the path is not UTF-8 and where the name holds a zero byte; else with the asset to be opened.
pub open spec fn start(manager: Option<usize>, path: Seq<u8>) -> State {
    match manager {
        None => simple(ErrorKind::Unsupported, "AAssetManager not initialized"),
        Some(manager) => if !valid_utf8(path) {
            simple(ErrorKind::InvalidInput, "non-UTF-8 path for APK asset")
        } else if super::path::asset_name(path).contains(0u8) {
            simple(ErrorKind::InvalidInput, "path contains null byte")
        } else {
            State::Open { manager, filename: super::path::asset_name(path).push(0u8) }
        },
    }
}

impl State {
    /// Whether nothing is left to be done.
    pub open spec fn is_over(self) -> bool {
        self is Data || self is Failed
    }

    /// The call to be made next.
    pub open spec fn pending(self) -> Option<super::Request> {
        match self {
            State::Open { manager, filename } => Some(
                super::Request::OpenAsset { manager, filename, mode: AASSET_MODE_BUFFER },
            ),
            State::Length { asset } => Some(super::Request::GetLength(asset)),
            State::Buffer { asset, .. } => Some(super::Request::GetBuffer(asset)),
            State::CloseUnread { asset } => Some(super::Request::CloseAsset(asset)),
            State::Close { asset, .. } => Some(super::Request::CloseAsset(asset)),
            State::Data(_) => None,
            State::Failed(_) => None,
        }
    }

    /// The state after `reply` to the pending call. A reply to any other call changes nothing,
    /// nor does a buffer that is not as long as the asset.
    pub open spec fn after(self, reply: Reply<'_>) -> State {
        match (self, reply) {
            (State::Open { .. }, Reply::Asset(asset)) => if asset.0 == 0 {
                simple(ErrorKind::NotFound, "APK asset not found")
            } else {
                State::Length { asset }
            },
            (State::Length { asset }, Reply::Length(len)) => State::Buffer { asset, len },
            (State::Buffer { asset, len }, Reply::Buffer { addr, bytes }) => if addr == 0 {
                State::CloseUnread { asset }
            } else if bytes@.len() == len {
                State::Close { asset, data: bytes@ }
            } else {
                self
            },
            (State::CloseUnread { .. }, Reply::Closed) => simple(
                ErrorKind::Other,
                "AAsset_getBuffer returned null",
            ),
            (State::Close { data, .. }, Reply::Closed) => State::Data(data),
            _ => self,
        }
    }
}

/// Starts to read the asset at `path` through the manager in `slot`.
///
/// This is for paths that the file system does not know, because the file is only inside the
/// package. Reading fails if no manager is registered, if there is no such asset and if it has
/// no buffer.
pub fn read_apk_asset(slot: &ManagerSlot, path: &[u8]) -> (r: Reading)
    ensures
        r@ == start(slot@, path@),
{
    let manager: usize = match slot.get() {
        Some(manager) => manager,
        None => {
            return Reading::Failed(
                Error::Simple {
                    kind: ErrorKind::Unsupported,
                    message: "AAssetManager not initialized",
                },
            );
        },
    };
    if !is_utf8(path) {
        return Reading::Failed(
            Error::Simple {
                kind: ErrorKind::InvalidInput,
                message: "non-UTF-8 path for APK asset",
            },
        );
    }
    match c_string(strip_asset_path(path)) {
        Some(filename) => Reading::Open { manager, filename },
        None => Reading::Failed(
            Error::Simple { kind: ErrorKind::InvalidInput, message: "path contains null byte" },
        ),
    }
}

impl Reading {
    /// The call to be made next, or `None` once the reading is over.
    pub fn call(&self) -> (r: Option<Call<'_>>)
        ensures
            super::asks(r, self@.pending()),
            r is None <==> self@.is_over(),
    {
        match self {
            Reading::Open { manager, filename } => Some(
                Call::OpenAsset { manager: *manager, filename, mode: AASSET_MODE_BUFFER },
            ),
            Reading::Length { asset } => Some(Call::GetLength(*asset)),
            Reading::Buffer { asset, .. } => Some(Call::GetBuffer(*asset)),
            Reading::CloseUnread { asset } => Some(Call::CloseAsset(*asset)),
            Reading::Close { asset, .. } => Some(Call::CloseAsset(*asset)),
            Reading::Data(_) => None,
            Reading::Failed(_) => None,
        }
    }

    /// Takes the reply to the pending call. The bytes of a buffer are copied, since closing the
    /// asset frees them.
    pub fn resume(self, reply: Reply<'_>) -> (r: Reading)
        ensures
            r@ == self@.after(reply),
    {
        match (self, reply) {
            (Reading::Open { .. }, Reply::Asset(asset)) => if asset.0 == 0 {
                Reading::Failed(
                    Error::Simple { kind: ErrorKind::NotFound, message: "APK asset not found" },
                )
            } else {
                Reading::Length { asset }
            },
            (Reading::Length { asset }, Reply::Length(len)) => Reading::Buffer { asset, len },
            (Reading::Buffer { asset, len }, Reply::Buffer { addr, bytes }) => if addr == 0 {
                Reading::CloseUnread { asset }
            } else if bytes.len() == len {
                Reading::Close { asset, data: slice_to_vec(bytes) }
            } else {
                Reading::Buffer { asset, len }
            },
            (Reading::CloseUnread { .. }, Reply::Closed) => Reading::Failed(
                Error::Simple {
                    kind: ErrorKind::Other,
                    message: "AAsset_getBuffer returned null",
                },
            ),
            (Reading::Close { data, .. }, Reply::Closed) => Reading::Data(data),
            (state, _) => state,
        }
    }

    /// The bytes of the asset or the reason why there are none, or `None` while a call is
    /// pending.
    pub fn finish(self) -> (r: Option<Result<Vec<u8>, Error>>)
        ensures
            match self@ {
                State::Data(data) => r matches Some(Ok(d)) && d@ == data,
                State::Failed(e) => r == Some(Err::<Vec<u8>, Error>(e)),
                _ => r is None,
            },
    {
        match self {
            Reading::Data(data) => Some(Ok(data)),
            Reading::Failed(e) => Some(Err(e)),
            _ => None,
        }
    }
}

/// What the NDK does with each call that reading an asset may make.
pub struct System<'b> {
    /// The asset that is opened, or none.
    pub asset: AAsset,
    /// Its length.
    pub len: usize,
    /// The address of its buffer, or zero.
    pub addr: usize,
    /// The bytes there.
    pub bytes: &'b [u8],
}

impl<'b> System<'b> {
    /// The reply to the call that `state` asks for.
    pub open spec fn answer(self, state: State) -> Reply<'b> {
        match state {
            State::Open { .. } => Reply::Asset(self.asset),
            State::Length { .. } => Reply::Length(self.len),
            State::Buffer { .. } => Reply::Buffer { addr: self.addr, bytes: self.bytes },
            _ => Reply::Closed,
        }
    }

    /// A buffer, where there is one, is as long as the asset.
    pub open spec fn is_coherent(self) -> bool {
        self.addr != 0 ==> self.bytes@.len() == self.len
    }
}

/// The state in which the NDK leaves `state` after at most `steps` calls.
pub open spec fn run(state: State, system: System<'_>, steps: nat) -> State
    decreases steps,
{
    if steps == 0 || state.is_over() {
        state
    } else {
        run(state.after(system.answer(state)), system, (steps - 1) as nat)
    }
}

/// The assets closed on the way, in order.
pub open spec fn closed(state: State, system: System<'_>, steps: nat) -> Seq<AAsset>
    decreases steps,
{
    if steps == 0 || state.is_over() {
        seq![]
    } else {
        let rest = closed(state.after(system.answer(state)), system, (steps - 1) as nat);
        match state.pending() {
            Some(super::Request::CloseAsset(asset)) => seq![asset] + rest,
            _ => rest,
        }
    }
}

/// No reading takes more calls than this.
pub open spec fn max_calls() -> nat {
    4
}

/// Reading ends, and gives exactly the bytes of the asset; or an error, if no manager is
/// registered, if the path cannot name an asset, if there is no such asset, or if it has no
/// buffer.
pub proof fn law_outcome(manager: Option<usize>, path: Seq<u8>, system: System<'_>)
    requires
        system.is_coherent(),
    ensures
        run(start(manager, path), system, max_calls()) == if start(manager, path) is Failed {
            start(manager, path)
        } else if system.asset.0 == 0 {
            simple(ErrorKind::NotFound, "APK asset not found")
        } else if system.addr == 0 {
            simple(ErrorKind::Other, "AAsset_getBuffer returned null")
        } else {
            State::Data(system.bytes@)
        },
{
    reveal_with_fuel(run, 5);
}

/// An asset that was opened is closed exactly once, whatever came of it, and no other is.
pub proof fn law_closed_once(manager: Option<usize>, path: Seq<u8>, system: System<'_>)
    requires
        system.is_coherent(),
    ensures
        closed(start(manager, path), system, max_calls()) == if start(manager, path) is Failed
            || system.asset.0 == 0 {
            seq![]
        } else {
            seq![system.asset]
        },
{
    reveal_with_fuel(closed, 5);
    assert(seq![system.asset] + Seq::<AAsset>::empty() == seq![system.asset]);
}

} // verus!
