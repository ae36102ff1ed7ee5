//! Reading from a package that has the asset.
//!
//! A world says how calls are answered from what is asked in them, not from how far a reading is.
//! A call that asks for anything but the asset in question may be answered in any way, so what is
//! proved here holds only because the right calls are made, in the right order.

use vstd::prelude::*;
#[allow(unused_imports)]
use vstd::utf8::*;
#[allow(unused_imports)]
use super::{asset, dir, path, AAsset, AAssetDir, Call, Reply, Request};
#[allow(unused_imports)]
use crate::error::{Error, ErrorKind};

verus! {

/// Whether `path` is some slashes, then some `android_asset/`, as many as there are, then `name`.
pub open spec fn names_asset(path: Seq<u8>, name: Seq<u8>) -> bool {
    &&& !path::ascii("android_asset/"@).is_prefix_of(name)
    &&& exists|slashes: nat, roots: nat|
        {
            &&& path == #[trigger] path::repeated(path::ascii("/"@), slashes)
                + #[trigger] path::repeated(path::ascii("android_asset/"@), roots) + name
            &&& roots == 0 ==> !path::ascii("/"@).is_prefix_of(name)
        }
}

proof fn lemma_names_asset(path: Seq<u8>, name: Seq<u8>)
    requires
        names_asset(path, name),
    ensures
        path::asset_name(path) == name,
{
    let (slashes, roots) = choose|slashes: nat, roots: nat|
        {
            &&& path == #[trigger] path::repeated(path::ascii("/"@), slashes)
                + #[trigger] path::repeated(path::ascii("android_asset/"@), roots) + name
            &&& roots == 0 ==> !path::ascii("/"@).is_prefix_of(name)
        };
    path::law_name_after_prefixes(path, slashes, roots, name);
}

/// Every path names exactly one asset; one that begins neither with a slash nor with
/// `android_asset/` names the asset of that name.
pub proof fn law_names_one_asset(path: Seq<u8>, name: Seq<u8>, other: Seq<u8>)
    ensures
        exists|n: Seq<u8>| names_asset(path, n),
        names_asset(path, name) && names_asset(path, other) ==> name == other,
        !path::ascii("/"@).is_prefix_of(path) && !path::ascii("android_asset/"@).is_prefix_of(path)
            ==> names_asset(path, path),
{
    path::law_asset_name(path);
    assert(names_asset(path, path::asset_name(path)));
    if names_asset(path, name) && names_asset(path, other) {
        lemma_names_asset(path, name);
        lemma_names_asset(path, other);
    }
    if !path::ascii("/"@).is_prefix_of(path) && !path::ascii("android_asset/"@).is_prefix_of(path) {
        let none = path::repeated(path::ascii("/"@), 0) + path::repeated(
            path::ascii("android_asset/"@),
            0,
        );
        assert(path =~= none + path);
    }
}

/// A call asks for what is in it.
pub proof fn law_call_asks(
    manager: usize,
    name: &Vec<u8>,
    mode: i32,
    asset: AAsset,
    dir: AAssetDir,
    request: Request,
)
    ensures
        super::asks(Some(Call::OpenAsset { manager, filename: name, mode }), Some(request))
            <==> request == (Request::OpenAsset { manager, filename: name@, mode }),
        super::asks(Some(Call::GetLength(asset)), Some(request)) <==> request
            == Request::GetLength(asset),
        super::asks(Some(Call::GetBuffer(asset)), Some(request)) <==> request
            == Request::GetBuffer(asset),
        super::asks(Some(Call::CloseAsset(asset)), Some(request)) <==> request
            == Request::CloseAsset(asset),
        super::asks(Some(Call::OpenDir { manager, dirname: name }), Some(request)) <==> request
            == (Request::OpenDir { manager, dirname: name@ }),
        super::asks(Some(Call::NextFileName(dir)), Some(request)) <==> request
            == Request::NextFileName(dir),
        super::asks(Some(Call::CloseDir(dir)), Some(request)) <==> request == Request::CloseDir(
            dir,
        ),
        !super::asks(None, Some(request)),
        super::asks(None, None),
        forall|call: Call<'_>| !super::asks(Some(call), None),
{
}

/// Reading begins with one request: to open, through the registered manager, the asset that the
/// path names, by its zero-terminated name. A path that begins neither with a slash nor with
/// `android_asset/` is that name as it is.
pub proof fn law_first_request(manager: usize, path: Seq<u8>, name: Seq<u8>)
    requires
        names_asset(path, name),
        valid_utf8(path),
        !path.contains(0u8),
    ensures
        asset::start(Some(manager), path).pending() == Some(
            Request::OpenAsset { manager, filename: name.push(0u8), mode: 3 },
        ),
        dir::start(Some(manager), path).pending() == Some(
            Request::OpenDir { manager, dirname: name.push(0u8) },
        ),
{
    lemma_names_asset(path, name);
    path::law_name_keeps_zero(path);
}

/// What cannot be requested is refused at once: anything, while no manager is registered; a path
/// that is not UTF-8; a path with a zero byte in it.
pub proof fn law_refused(manager: usize, path: Seq<u8>)
    ensures
        asset::start(None, path) == asset::State::Failed(
            Error::Simple {
                kind: ErrorKind::Unsupported,
                message: "AAssetManager not initialized",
            },
        ),
        dir::start(None, path) == dir::State::Failed(
            Error::Simple { kind: ErrorKind::Other, message: "AAssetManager not initialized" },
        ),
        !valid_utf8(path) ==> {
            &&& asset::start(Some(manager), path) == asset::State::Failed(
                Error::Simple {
                    kind: ErrorKind::InvalidInput,
                    message: "non-UTF-8 path for APK asset",
                },
            )
            &&& dir::start(Some(manager), path) == dir::State::Failed(
                Error::Simple {
                    kind: ErrorKind::InvalidInput,
                    message: "non-UTF-8 path for APK asset dir",
                },
            )
        },
        valid_utf8(path) && path.contains(0u8) ==> {
            &&& asset::start(Some(manager), path) == asset::State::Failed(
                Error::Simple { kind: ErrorKind::InvalidInput, message: "path contains null byte" },
            )
            &&& dir::start(Some(manager), path) == dir::State::Failed(
                Error::Simple { kind: ErrorKind::InvalidInput, message: "path contains null byte" },
            )
        },
{
    path::law_name_keeps_zero(path);
}

/// The NDK and an asset in the package.
pub struct AssetWorld {
    /// The manager of the app.
    pub manager: usize,
    /// The name of the asset.
    pub name: Seq<u8>,
    /// What it is once it is open; none if it cannot be opened.
    pub asset: AAsset,
    /// Its bytes.
    pub data: Seq<u8>,
    /// Where they are in memory, or zero.
    pub addr: usize,
}

impl AssetWorld {
    /// Whether `reply` may come back from `request` while the assets `open` are open.
    pub open spec fn answers(self, open: Seq<AAsset>, request: Request, reply: Reply<'_>) -> bool {
        match request {
            Request::OpenAsset { manager, filename, mode } => reply matches Reply::Asset(asset) && (
            manager == self.manager && filename == self.name.push(0u8) && mode == 3 ==> asset
                == self.asset),
            Request::GetLength(asset) => reply matches Reply::Length(len) && (open == seq![asset]
                && asset == self.asset ==> len == self.data.len()),
            Request::GetBuffer(asset) => reply matches Reply::Buffer { addr, bytes } && (open
                == seq![asset] && asset == self.asset ==> addr == self.addr && (addr != 0 ==> bytes@
                == self.data)),
            Request::CloseAsset(_) => reply is Closed,
            _ => true,
        }
    }
}

/// What is open once `reply` came back from `request`. Closing what is not the one open asset
/// leaves something that can never be closed.
pub open spec fn assets_after(open: Seq<AAsset>, request: Request, reply: Reply<'_>) -> Seq<
    AAsset,
> {
    match (request, reply) {
        (Request::OpenAsset { .. }, Reply::Asset(asset)) => if asset.0 != 0 {
            open.push(asset)
        } else {
            open
        },
        (Request::CloseAsset(asset), _) => if open == seq![asset] {
            seq![]
        } else {
            open.push(asset).push(asset)
        },
        _ => open,
    }
}

/// Whether, however the world answers, `state` comes to `end` within `calls` calls, with nothing
/// left open.
pub open spec fn reading_comes_to(
    world: AssetWorld,
    state: asset::State,
    open: Seq<AAsset>,
    calls: nat,
    end: asset::State,
) -> bool
    decreases calls,
{
    if state.is_over() {
        state == end && open.len() == 0
    } else {
        &&& calls > 0
        &&& state.pending() is Some
        &&& forall|reply: Reply<'_>| #[trigger]
            world.answers(open, state.pending()->0, reply) ==> reading_comes_to(
                world,
                state.after(reply),
                assets_after(open, state.pending()->0, reply),
                (calls - 1) as nat,
                end,
            )
    }
}

/// Reading the path of an asset gives exactly the bytes of that asset, whatever its length; an
/// asset that cannot be opened is not found, and one without a buffer cannot be read. The asset is
/// closed in any case.
pub proof fn law_reads_asset(path: Seq<u8>, world: AssetWorld)
    requires
        names_asset(path, world.name),
        valid_utf8(path),
        !path.contains(0u8),
        world.data.len() <= usize::MAX,
    ensures
        reading_comes_to(
            world,
            asset::start(Some(world.manager), path),
            seq![],
            4,
            if world.asset.0 == 0 {
                asset::State::Failed(
                    Error::Simple { kind: ErrorKind::NotFound, message: "APK asset not found" },
                )
            } else if world.addr == 0 {
                asset::State::Failed(
                    Error::Simple {
                        kind: ErrorKind::Other,
                        message: "AAsset_getBuffer returned null",
                    },
                )
            } else {
                asset::State::Data(world.data)
            },
        ),
{
    law_first_request(world.manager, path, world.name);
    reveal_with_fuel(reading_comes_to, 5);
    assert(Seq::<AAsset>::empty().push(world.asset) =~= seq![world.asset]);
}

/// The NDK and a directory in the package.
pub struct DirWorld {
    /// The manager of the app.
    pub manager: usize,
    /// The name of the directory.
    pub name: Seq<u8>,
    /// What it is once it is open; none if it cannot be opened.
    pub dir: AAssetDir,
    /// The names of the files in it, in the order in which they are handed out.
    pub files: Seq<Seq<u8>>,
}

impl DirWorld {
    /// Whether `reply` may come back from `request` while the directories `open` are open and
    /// `pos` names were asked for.
    pub open spec fn answers(
        self,
        open: Seq<AAssetDir>,
        pos: nat,
        request: Request,
        reply: Reply<'_>,
    ) -> bool {
        match request {
            Request::OpenDir { manager, dirname } => reply matches Reply::Dir(dir) && (manager
                == self.manager && dirname == self.name.push(0u8) ==> dir == self.dir),
            Request::NextFileName(dir) => reply matches Reply::FileName(name) && (open == seq![dir]
                && dir == self.dir ==> if pos < self.files.len() {
                name is Some && name->0@ == self.files[pos as int]
            } else {
                name is None
            }),
            Request::CloseDir(_) => reply is Closed,
            _ => true,
        }
    }

    /// Whether `listed` has one string for each file, in order: the one that encodes to the bytes
    /// of its name, where these are well-formed UTF-8.
    pub open spec fn is_listed(self, listed: Seq<Seq<char>>) -> bool {
        &&& listed.len() == self.files.len()
        &&& forall|i: int|
            #![trigger self.files[i]]
            #![trigger listed[i]]
            0 <= i < self.files.len() ==> if valid_utf8(self.files[i]) {
                encode_utf8(listed[i]) == self.files[i]
            } else {
                listed[i] == path::utf8_lossy(self.files[i])
            }
    }
}

/// What is open once `reply` came back from `request`. Closing what is not the one open directory
/// leaves something that can never be closed.
pub open spec fn dirs_after(open: Seq<AAssetDir>, request: Request, reply: Reply<'_>) -> Seq<
    AAssetDir,
> {
    match (request, reply) {
        (Request::OpenDir { .. }, Reply::Dir(dir)) => if dir.0 != 0 {
            open.push(dir)
        } else {
            open
        },
        (Request::CloseDir(dir), _) => if open == seq![dir] {
            seq![]
        } else {
            open.push(dir).push(dir)
        },
        _ => open,
    }
}

/// Whether, however the world answers, `state` comes within `calls` calls to the names of all
/// files or, if the directory cannot be opened, to an error, with nothing left open.
pub open spec fn listing_comes_to_names(
    world: DirWorld,
    state: dir::State,
    open: Seq<AAssetDir>,
    pos: nat,
    calls: nat,
) -> bool
    decreases calls,
{
    if state.is_over() {
        &&& open.len() == 0
        &&& if world.dir.0 == 0 {
            state == dir::State::Failed(
                Error::Simple {
                    kind: ErrorKind::NotFound,
                    message: "APK asset directory not found",
                },
            )
        } else {
            state is Files && world.is_listed(state->Files_0)
        }
    } else {
        &&& calls > 0
        &&& state.pending() is Some
        &&& forall|reply: Reply<'_>| #[trigger]
            world.answers(open, pos, state.pending()->0, reply) ==> listing_comes_to_names(
                world,
                state.after(reply),
                dirs_after(open, state.pending()->0, reply),
                if state.pending()->0 is NextFileName {
                    pos + 1
                } else {
                    pos
                },
                (calls - 1) as nat,
            )
    }
}

proof fn lemma_lists(world: DirWorld, files: Seq<Seq<char>>)
    requires
        world.dir.0 != 0,
        files.len() <= world.files.len(),
        (DirWorld { files: world.files.take(files.len() as int), ..world }).is_listed(files),
    ensures
        listing_comes_to_names(
            world,
            dir::State::Next { dir: world.dir, files },
            seq![world.dir],
            files.len(),
            (world.files.len() - files.len() + 2) as nat,
        ),
    decreases world.files.len() - files.len(),
{
    let state = dir::State::Next { dir: world.dir, files };
    let open = seq![world.dir];
    let pos = files.len();
    let calls = (world.files.len() - files.len() + 2) as nat;
    let taken = DirWorld { files: world.files.take(pos as int), ..world };
    if pos < world.files.len() {
        assert forall|reply: Reply<'_>| #[trigger]
            world.answers(
                open,
                pos,
                state.pending()->0,
                reply,
            ) implies listing_comes_to_names(
            world,
            state.after(reply),
            dirs_after(open, state.pending()->0, reply),
            pos + 1,
            (calls - 1) as nat,
        ) by {
            let name = world.files[pos as int];
            let more = files.push(path::file_name(name));
            path::law_file_name(name);
            let next = DirWorld { files: world.files.take((pos + 1) as int), ..world };
            assert forall|i: int|
                #![trigger next.files[i]]
                0 <= i < next.files.len() implies if valid_utf8(next.files[i]) {
                encode_utf8(more[i]) == next.files[i]
            } else {
                more[i] == path::utf8_lossy(next.files[i])
            } by {
                if i < pos {
                    assert(taken.files[i] == next.files[i]);
                    assert(more[i] == files[i]);
                }
            }
            assert(next.is_listed(more));
            lemma_lists(world, more);
        }
    } else {
        assert(world.files.take(pos as int) =~= world.files);
        assert(world.is_listed(files));
        reveal_with_fuel(listing_comes_to_names, 3);
    }
}

/// Listing the path of a directory gives one string for each file in it, in the order in which
/// the files are handed out: for each name that is well-formed UTF-8, of any length, the string
/// that encodes to exactly that name. A directory that cannot be opened is not found. The
/// directory is closed in any case.
pub proof fn law_lists_directory(path: Seq<u8>, world: DirWorld)
    requires
        names_asset(path, world.name),
        valid_utf8(path),
        !path.contains(0u8),
    ensures
        listing_comes_to_names(
            world,
            dir::start(Some(world.manager), path),
            seq![],
            0,
            world.files.len() + 3,
        ),
{
    law_first_request(world.manager, path, world.name);
    let none = Seq::<Seq<char>>::empty();
    if world.dir.0 != 0 {
        assert((DirWorld { files: world.files.take(0), ..world }).is_listed(none));
        lemma_lists(world, none);
        assert(Seq::<AAssetDir>::empty().push(world.dir) =~= seq![world.dir]);
    }
    reveal_with_fuel(listing_comes_to_names, 2);
}

/// The names of a listing are the strings in it.
pub proof fn law_names(files: Seq<String>)
    ensures
        dir::names(files).len() == files.len(),
        forall|i: int|
            0 <= i < files.len() ==> #[trigger] dir::names(files)[i] == files[i]@,
{
}

/// Whether `reply` is one to `request`.
pub open spec fn fits(request: Request, reply: Reply<'_>) -> bool {
    match (request, reply) {
        (Request::OpenAsset { .. }, Reply::Asset(_)) => true,
        (Request::GetLength(_), Reply::Length(_)) => true,
        (Request::GetBuffer(_), Reply::Buffer { .. }) => true,
        (Request::CloseAsset(_), Reply::Closed) => true,
        (Request::OpenDir { .. }, Reply::Dir(_)) => true,
        (Request::NextFileName(_), Reply::FileName(_)) => true,
        (Request::CloseDir(_), Reply::Closed) => true,
        _ => false,
    }
}

/// What was not asked for changes nothing.
pub proof fn law_unasked(reading: asset::State, listing: dir::State, reply: Reply<'_>)
    ensures
        (reading.pending() matches Some(request) ==> !fits(request, reply)) ==> reading.after(reply)
            == reading,
        (listing.pending() matches Some(request) ==> !fits(request, reply)) ==> listing.after(reply)
            == listing,
{
}

/// A buffer that is not as long as the asset changes nothing.
pub proof fn law_buffer_length(state: asset::State, addr: usize, bytes: &[u8])
    requires
        addr != 0,
    ensures
        state matches asset::State::Buffer { len, .. } ==> (bytes@.len() != len <==> state.after(
            Reply::Buffer { addr, bytes },
        ) == state),
{
}

} // verus!
