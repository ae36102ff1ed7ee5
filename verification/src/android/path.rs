//! The names of assets.

use vstd::prelude::*;
use vstd::slice::slice_subrange;
#[allow(unused_imports)]
use vstd::string::*;
#[allow(unused_imports)]
use vstd::utf8::*;

verus! {

/// The bytes of a text in ASCII.
pub open spec fn ascii(text: Seq<char>) -> Seq<u8> {
    text.map_values(|c: char| c as u8)
}

/// What is left of `s` once it no longer begins with `prefix`.
pub open spec fn trim_start(s: Seq<u8>, prefix: Seq<u8>) -> Seq<u8>
    decreases s.len(),
{
    if 0 < prefix.len() && prefix.is_prefix_of(s) {
        trim_start(s.skip(prefix.len() as int), prefix)
    } else {
        s
    }
}

/// The name by which the asset at `path` is known: without leading slashes and then without
/// leading `android_asset/`.
pub open spec fn asset_name(path: Seq<u8>) -> Seq<u8> {
    trim_start(trim_start(path, ascii("/"@)), ascii("android_asset/"@))
}

fn starts_with_at(s: &[u8], at: usize, prefix: &[u8]) -> (r: bool)
    requires
        at <= s@.len(),
    ensures
        r == prefix@.is_prefix_of(s@.skip(at as int)),
{
    let len: usize = s.len();
    if len - at < prefix.len() {
        return false;
    }
    let mut i: usize = 0;
    while i < prefix.len()
        invariant
            at + prefix@.len() <= s@.len(),
            s@.len() == len,
            i <= prefix@.len(),
            forall|j: int| 0 <= j < i ==> s@[at + j] == #[trigger] prefix@[j],
        decreases prefix@.len() - i,
    {
        if s[at + i] != prefix[i] {
            assert(s@.skip(at as int)[i as int] != prefix@[i as int]);
            return false;
        }
        i = i + 1;
    }
    assert(prefix@ == s@.skip(at as int).take(prefix@.len() as int));
    true
}

fn trim_start_matches<'p>(s: &'p [u8], prefix: &[u8]) -> (r: &'p [u8])
    requires
        0 < prefix@.len(),
    ensures
        r@ == trim_start(s@, prefix@),
{
    let len: usize = s.len();
    let mut at: usize = 0;
    assert(s@.skip(0) == s@);
    while starts_with_at(s, at, prefix)
        invariant
            0 < prefix@.len(),
            at <= s@.len(),
            s@.len() == len,
            trim_start(s@, prefix@) == trim_start(s@.skip(at as int), prefix@),
        ensures
            !prefix@.is_prefix_of(s@.skip(at as int)),
        decreases s@.len() - at,
    {
        assert(s@.skip(at as int).skip(prefix@.len() as int) == s@.skip(at + prefix@.len()));
        at = at + prefix.len();
    }
    let rest = slice_subrange(s, at, len);
    assert(rest@ == s@.skip(at as int));
    rest
}

/// Removes what may precede the name of an asset: leading slashes, then leading
/// `android_asset/`.
pub fn strip_asset_path(path: &[u8]) -> (r: &[u8])
    ensures
        r@ == asset_name(path@),
{
    let slash: &str = "/";
    let root: &str = "android_asset/";
    proof {
        reveal_strlit("/");
        reveal_strlit("android_asset/");
        is_ascii_spec_bytes(slash);
        is_ascii_spec_bytes(root);
        assert(slash.spec_bytes() == ascii(slash@));
        assert(root.spec_bytes() == ascii(root@));
    }
    trim_start_matches(trim_start_matches(path, slash.as_bytes()), root.as_bytes())
}

/// Calls `std::str::from_utf8`, which gives a string exactly for bytes that are well-formed
/// UTF-8. Only whether it does is used.
#[verifier::external_body]
pub(crate) fn is_utf8(bytes: &[u8]) -> (r: bool)
    ensures
        r == valid_utf8(bytes@),
{
    std::str::from_utf8(bytes).is_ok()
}

/// What `String::from_utf8_lossy` makes of bytes that are not well-formed UTF-8.
pub uninterp spec fn utf8_lossy(bytes: Seq<u8>) -> Seq<char>;

/// The string for a file name: the name itself where it is well-formed UTF-8.
pub open spec fn file_name(bytes: Seq<u8>) -> Seq<char> {
    if valid_utf8(bytes) {
        decode_utf8(bytes)
    } else {
        utf8_lossy(bytes)
    }
}

/// Calls `String::from_utf8_lossy`, which decodes well-formed UTF-8, and otherwise puts
/// replacement characters in place of what is ill-formed.
#[verifier::external_body]
pub(crate) fn string_from_utf8_lossy(bytes: &[u8]) -> (r: String)
    ensures
        valid_utf8(bytes@) ==> r@ == decode_utf8(bytes@),
        !valid_utf8(bytes@) ==> r@ == utf8_lossy(bytes@),
{
    String::from_utf8_lossy(bytes).into_owned()
}

/// `n` copies of `s`, one after the other.
pub open spec fn repeated(s: Seq<u8>, n: nat) -> Seq<u8>
    decreases n,
{
    if n == 0 {
        seq![]
    } else {
        s + repeated(s, (n - 1) as nat)
    }
}

proof fn lemma_trim_start(s: Seq<u8>, prefix: Seq<u8>) -> (n: nat)
    requires
        0 < prefix.len(),
    ensures
        s == repeated(prefix, n) + trim_start(s, prefix),
        !prefix.is_prefix_of(trim_start(s, prefix)),
        n == 0 ==> trim_start(s, prefix) == s,
    decreases s.len(),
{
    if prefix.is_prefix_of(s) {
        let rest = s.skip(prefix.len() as int);
        let m = lemma_trim_start(rest, prefix);
        assert(s == prefix + rest);
        assert(prefix + (repeated(prefix, m) + trim_start(rest, prefix)) == (prefix + repeated(
            prefix,
            m,
        )) + trim_start(rest, prefix));
        m + 1
    } else {
        assert(s == repeated(prefix, 0) + s);
        0
    }
}

/// The name of an asset is its path without some leading slashes and then some leading
/// `android_asset/`, as many as there are: the name does not begin with `android_asset/`, nor,
/// where no `android_asset/` was removed, with a slash.
pub proof fn law_asset_name(path: Seq<u8>)
    ensures
        exists|slashes: nat, roots: nat|
            {
                &&& path == #[trigger] repeated(ascii("/"@), slashes) + #[trigger] repeated(
                    ascii("android_asset/"@),
                    roots,
                ) + asset_name(path)
                &&& roots == 0 ==> !ascii("/"@).is_prefix_of(asset_name(path))
            },
        !ascii("android_asset/"@).is_prefix_of(asset_name(path)),
{
    reveal_strlit("/");
    reveal_strlit("android_asset/");
    let slash = ascii("/"@);
    let root = ascii("android_asset/"@);
    let rest = trim_start(path, slash);
    let slashes = lemma_trim_start(path, slash);
    let roots = lemma_trim_start(rest, root);
    assert(repeated(slash, slashes) + (repeated(root, roots) + asset_name(path)) == repeated(
        slash,
        slashes,
    ) + repeated(root, roots) + asset_name(path));
}

/// A path that begins neither with a slash nor with `android_asset/` is a name already.
pub proof fn law_plain_name(path: Seq<u8>)
    requires
        !ascii("/"@).is_prefix_of(path),
        !ascii("android_asset/"@).is_prefix_of(path),
    ensures
        asset_name(path) == path,
{
}

/// An absolute path names the same asset as the path without its first slash.
pub proof fn law_leading_slash(path: Seq<u8>)
    ensures
        asset_name(ascii("/"@) + path) == asset_name(path),
{
    reveal_strlit("/");
    let slash = ascii("/"@);
    assert(slash.is_prefix_of(slash + path));
    assert((slash + path).skip(slash.len() as int) == path);
}

/// A path below `android_asset/` names the same asset as the path below it, unless another
/// slash follows.
pub proof fn law_leading_root(path: Seq<u8>)
    requires
        !ascii("/"@).is_prefix_of(path),
    ensures
        asset_name(ascii("android_asset/"@) + path) == asset_name(path),
{
    reveal_strlit("/");
    reveal_strlit("android_asset/");
    let root = ascii("android_asset/"@);
    assert(!ascii("/"@).is_prefix_of(root + path)) by {
        assert(ascii("/"@)[0] == '/' as u8);
        assert((root + path).subrange(0, 1)[0] == 'a' as u8);
    }
    assert(root.is_prefix_of(root + path));
    assert((root + path).skip(root.len() as int) == path);
}

/// A file name that is well-formed UTF-8 is listed as the string that encodes to exactly its
/// bytes; what stands for any other name is what `String::from_utf8_lossy` makes of all its bytes.
pub proof fn law_file_name(bytes: Seq<u8>)
    ensures
        valid_utf8(bytes) ==> encode_utf8(file_name(bytes)) == bytes,
        !valid_utf8(bytes) ==> file_name(bytes) == utf8_lossy(bytes),
{
    if valid_utf8(bytes) {
        decode_utf8_encode_utf8(bytes);
    }
}

/// The string for the bytes of a string is that string: so different names that are well-formed
/// UTF-8 are listed as different strings.
pub proof fn law_file_name_of_string(name: Seq<char>, bytes: Seq<u8>, other: Seq<u8>)
    ensures
        file_name(encode_utf8(name)) == name,
        valid_utf8(bytes) && valid_utf8(other) && bytes != other ==> file_name(bytes) != file_name(
            other,
        ),
{
    encode_utf8_valid_utf8(name);
    encode_utf8_decode_utf8(name);
    if valid_utf8(bytes) && valid_utf8(other) {
        law_file_name(bytes);
        law_file_name(other);
    }
}

proof fn lemma_trim_repeated(prefix: Seq<u8>, n: nat, rest: Seq<u8>)
    requires
        0 < prefix.len(),
        !prefix.is_prefix_of(rest),
    ensures
        trim_start(repeated(prefix, n) + rest, prefix) == rest,
    decreases n,
{
    let s = repeated(prefix, n) + rest;
    if n > 0 {
        let less = repeated(prefix, (n - 1) as nat) + rest;
        assert(s =~= prefix + less);
        assert(prefix.is_prefix_of(s)) by {
            assert(s.subrange(0, prefix.len() as int) =~= prefix);
        }
        assert(s.skip(prefix.len() as int) =~= less);
        lemma_trim_repeated(prefix, (n - 1) as nat, rest);
    } else {
        assert(s =~= rest);
    }
}

/// Some slashes, then some `android_asset/`, then a name: it is the name of the asset, unless it
/// begins with what might belong to the part before it.
pub proof fn law_name_after_prefixes(path: Seq<u8>, slashes: nat, roots: nat, name: Seq<u8>)
    requires
        path == repeated(ascii("/"@), slashes) + repeated(ascii("android_asset/"@), roots) + name,
        !ascii("android_asset/"@).is_prefix_of(name),
        roots == 0 ==> !ascii("/"@).is_prefix_of(name),
    ensures
        asset_name(path) == name,
{
    reveal_strlit("/");
    reveal_strlit("android_asset/");
    let slash = ascii("/"@);
    let root = ascii("android_asset/"@);
    let rest = repeated(root, roots) + name;
    assert(path =~= repeated(slash, slashes) + rest);
    assert(!slash.is_prefix_of(rest)) by {
        if roots > 0 {
            assert(slash[0] == '/' as u8);
            assert(rest.len() >= 14 && rest[0] == root[0]);
            assert(root[0] == 'a' as u8);
            assert(rest.subrange(0, 1)[0] == 'a' as u8);
        } else {
            assert(rest =~= name);
        }
    }
    lemma_trim_repeated(slash, slashes, rest);
    lemma_trim_repeated(root, roots, name);
}

proof fn lemma_repeated_contains(s: Seq<u8>, n: nat, b: u8)
    requires
        !s.contains(b),
    ensures
        !repeated(s, n).contains(b),
    decreases n,
{
    if n > 0 {
        lemma_repeated_contains(s, (n - 1) as nat, b);
        let less = repeated(s, (n - 1) as nat);
        assert forall|i: int| 0 <= i < repeated(s, n).len() implies repeated(s, n)[i] != b by {
            if i < s.len() {
                assert(s.contains(s[i]));
            } else {
                assert(less.contains(less[i - s.len()]));
            }
        }
    }
}

/// The name of an asset holds a zero byte exactly if its path does.
pub proof fn law_name_keeps_zero(path: Seq<u8>)
    ensures
        asset_name(path).contains(0u8) <==> path.contains(0u8),
{
    reveal_strlit("/");
    reveal_strlit("android_asset/");
    law_asset_name(path);
    let slash = ascii("/"@);
    let root = ascii("android_asset/"@);
    let name = asset_name(path);
    let (slashes, roots) = choose|slashes: nat, roots: nat|
        path == #[trigger] repeated(slash, slashes) + #[trigger] repeated(root, roots) + name;
    lemma_repeated_contains(slash, slashes, 0u8);
    lemma_repeated_contains(root, roots, 0u8);
    let before = repeated(slash, slashes) + repeated(root, roots);
    if name.contains(0u8) {
        let i = choose|i: int| 0 <= i < name.len() && name[i] == 0u8;
        assert(path[before.len() + i] == 0u8);
    }
    if path.contains(0u8) {
        let i = choose|i: int| 0 <= i < path.len() && path[i] == 0u8;
        if i < repeated(slash, slashes).len() {
            assert(repeated(slash, slashes).contains(repeated(slash, slashes)[i]));
        } else if i < before.len() {
            let j = i - repeated(slash, slashes).len();
            assert(repeated(root, roots).contains(repeated(root, roots)[j]));
        } else {
            assert(name[i - before.len()] == 0u8);
        }
    }
}

} // verus!
