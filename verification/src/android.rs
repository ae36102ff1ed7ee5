//! Files bundled in an Android package, read through the `AAssetManager` of the app.
//!
//! [`read_apk_asset`] and [`read_asset_dir`] start to read; what they return says which call of
//! the NDK comes next and takes the reply, until the bytes or the names are there.

use vstd::prelude::*;

pub mod asset;
pub mod dir;
pub mod package;
pub mod path;

pub use asset::read_apk_asset;
pub use dir::read_asset_dir;

verus! {

/// The mode in which an asset is opened to be read through one buffer.
pub const AASSET_MODE_BUFFER: i32 = 3;

/// An open asset, by the address that the NDK gave it; zero is none.
#[derive(Clone, Copy, Debug, PartialEq, Eq, Structural)]
pub struct AAsset(pub usize);

/// An open directory of assets, by the address that the NDK gave it; zero is none.
#[derive(Clone, Copy, Debug, PartialEq, Eq, Structural)]
pub struct AAssetDir(pub usize);

/// The place of the app's `AAssetManager`, by its address, once it is known.
#[derive(Debug)]
pub struct ManagerSlot {
    manager: Option<usize>,
}

impl View for ManagerSlot {
    type V = Option<usize>;

    closed spec fn view(&self) -> Option<usize> {
        self.manager
    }
}

impl ManagerSlot {
    /// A slot with no manager in it.
    pub fn new() -> (r: ManagerSlot)
        ensures
            r@ is None,
    {
        ManagerSlot { manager: None }
    }

    /// The manager, if one was set.
    pub fn get(&self) -> (r: Option<usize>)
        ensures
            r == self@,
    {
        self.manager
    }
}

/// What a slot holds after `manager` was offered to it: the first one stays.
pub open spec fn registered(slot: Option<usize>, manager: usize) -> Option<usize> {
    if slot is None {
        Some(manager)
    } else {
        slot
    }
}

/// Stores the address of the app's `AAssetManager`, unless one is there already. This comes
/// before anything can be read.
pub fn set_asset_manager(slot: &mut ManagerSlot, manager: usize)
    ensures
        final(slot)@ == registered(old(slot)@, manager),
{
    if slot.manager.is_none() {
        slot.manager = Some(manager);
    }
}

/// A manager that was set stays, whatever is offered later.
pub proof fn law_first_manager_stays(slot: Option<usize>, first: usize, later: usize)
    ensures
        registered(slot, first) is Some,
        registered(registered(slot, first), later) == registered(slot, first),
        slot is None ==> registered(slot, first) == Some(first),
{
}

/// A call of the NDK that the library asks its caller to make.
#[derive(Debug)]
pub enum Call<'s> {
    /// `AAssetManager_open`, on a zero-terminated name.
    OpenAsset { manager: usize, filename: &'s Vec<u8>, mode: i32 },
    /// `AAsset_getLength`.
    GetLength(AAsset),
    /// `AAsset_getBuffer`.
    GetBuffer(AAsset),
    /// `AAsset_close`.
    CloseAsset(AAsset),
    /// `AAssetManager_openDir`, on a zero-terminated name.
    OpenDir { manager: usize, dirname: &'s Vec<u8> },
    /// `AAssetDir_getNextFileName`.
    NextFileName(AAssetDir),
    /// `AAssetDir_close`.
    CloseDir(AAssetDir),
}

/// A [`Call`], with the names in it as sequences.
pub enum Request {
    OpenAsset { manager: usize, filename: Seq<u8>, mode: i32 },
    GetLength(AAsset),
    GetBuffer(AAsset),
    CloseAsset(AAsset),
    OpenDir { manager: usize, dirname: Seq<u8> },
    NextFileName(AAssetDir),
    CloseDir(AAssetDir),
}

impl<'s> View for Call<'s> {
    type V = Request;

    open spec fn view(&self) -> Request {
        match *self {
            Call::OpenAsset { manager, filename, mode } => Request::OpenAsset {
                manager,
                filename: filename@,
                mode,
            },
            Call::GetLength(asset) => Request::GetLength(asset),
            Call::GetBuffer(asset) => Request::GetBuffer(asset),
            Call::CloseAsset(asset) => Request::CloseAsset(asset),
            Call::OpenDir { manager, dirname } => Request::OpenDir { manager, dirname: dirname@ },
            Call::NextFileName(dir) => Request::NextFileName(dir),
            Call::CloseDir(dir) => Request::CloseDir(dir),
        }
    }
}

/// Whether `call` is what is requested.
pub open spec fn asks(call: Option<Call<'_>>, request: Option<Request>) -> bool {
    match call {
        Some(c) => request == Some(c@),
        None => request is None,
    }
}

/// What came back from a [`Call`].
#[derive(Debug)]
pub enum Reply<'b> {
    /// The asset that was opened, or none.
    Asset(AAsset),
    /// The length of the asset in bytes.
    Length(usize),
    /// The address of the buffer and, unless it is zero, the bytes there.
    Buffer { addr: usize, bytes: &'b [u8] },
    /// The directory that was opened, or none.
    Dir(AAssetDir),
    /// The next file name, without the terminating zero, or `None` after the last.
    FileName(Option<&'b [u8]>),
    /// What was to be closed is closed.
    Closed,
}

} // verus!
