use fibre_std::android::asset::Reading;
use fibre_std::android::dir::Listing;
use fibre_std::android::path::strip_asset_path;
use fibre_std::android::{
    read_apk_asset, read_asset_dir, set_asset_manager, AAsset, AAssetDir, Call, ManagerSlot, Reply,
};
use fibre_std::error::{Error, ErrorKind};

const MANAGER: usize = 0x1000;

fn slot() -> ManagerSlot {
    let mut slot = ManagerSlot::new();
    set_asset_manager(&mut slot, MANAGER);
    slot
}

fn asset_error(reading: Reading) -> (ErrorKind, &'static str) {
    assert!(reading.call().is_none());
    match reading.finish() {
        Some(Err(Error::Simple { kind, message })) => (kind, message),
        other => panic!("{:?}", other),
    }
}

fn dir_error(listing: Listing) -> (ErrorKind, &'static str) {
    assert!(listing.call().is_none());
    match listing.finish() {
        Some(Err(Error::Simple { kind, message })) => (kind, message),
        other => panic!("{:?}", other),
    }
}

#[test]
fn first_manager_stays() {
    let mut slot = ManagerSlot::new();
    assert_eq!(slot.get(), None);
    set_asset_manager(&mut slot, 1);
    set_asset_manager(&mut slot, 2);
    assert_eq!(slot.get(), Some(1));
}

#[test]
fn leading_slashes_and_roots_are_stripped() {
    let cases: Vec<(&str, &str)> = vec![
        ("Helmet.vpackage", "Helmet.vpackage"),
        ("/Helmet.vpackage", "Helmet.vpackage"),
        ("///a/b", "a/b"),
        ("android_asset/a", "a"),
        ("/android_asset/a", "a"),
        ("/android_asset/android_asset/a", "a"),
        ("android_asset//a", "/a"),
        ("a/android_asset/b", "a/android_asset/b"),
        ("android_asset", "android_asset"),
        ("", ""),
        ("/", ""),
    ];
    for (path, name) in cases {
        assert_eq!(strip_asset_path(path.as_bytes()), name.as_bytes(), "{}", path);
    }
}

#[test]
fn asset_is_read() {
    let slot = slot();
    let data: Vec<u8> = vec![10, 20, 30];
    let reading = read_apk_asset(&slot, b"/android_asset/Helmet.vpackage");
    match reading.call() {
        Some(Call::OpenAsset { manager, filename, mode }) => {
            assert_eq!((manager, mode), (MANAGER, 3));
            assert_eq!(filename.as_slice(), b"Helmet.vpackage\0");
        }
        other => panic!("{:?}", other),
    }
    let reading = reading.resume(Reply::Asset(AAsset(5)));
    assert!(matches!(reading.call(), Some(Call::GetLength(AAsset(5)))));
    let reading = reading.resume(Reply::Length(3));
    assert!(matches!(reading.call(), Some(Call::GetBuffer(AAsset(5)))));
    let reading = reading.resume(Reply::Buffer { addr: 0x2000, bytes: &data });
    assert!(matches!(reading.call(), Some(Call::CloseAsset(AAsset(5)))));
    let reading = reading.resume(Reply::Closed);
    assert!(reading.call().is_none());
    assert_eq!(reading.finish().unwrap().unwrap(), data);
}

#[test]
fn asset_needs_a_manager() {
    let reading = read_apk_asset(&ManagerSlot::new(), b"a");
    assert_eq!(
        asset_error(reading),
        (ErrorKind::Unsupported, "AAssetManager not initialized")
    );
}

#[test]
fn asset_path_must_be_utf8() {
    let reading = read_apk_asset(&slot(), &[0x61, 0xff]);
    assert_eq!(
        asset_error(reading),
        (ErrorKind::InvalidInput, "non-UTF-8 path for APK asset")
    );
    assert!(read_apk_asset(&slot(), "h\u{e9}lm".as_bytes()).call().is_some());
}

#[test]
fn asset_path_must_not_hold_a_zero() {
    let reading = read_apk_asset(&slot(), b"a\0b");
    assert_eq!(asset_error(reading), (ErrorKind::InvalidInput, "path contains null byte"));
}

#[test]
fn missing_asset_is_not_found() {
    let reading = read_apk_asset(&slot(), b"a").resume(Reply::Asset(AAsset(0)));
    assert_eq!(asset_error(reading), (ErrorKind::NotFound, "APK asset not found"));
}

#[test]
fn asset_without_a_buffer_is_closed() {
    let reading = read_apk_asset(&slot(), b"a")
        .resume(Reply::Asset(AAsset(5)))
        .resume(Reply::Length(3))
        .resume(Reply::Buffer { addr: 0, bytes: &[] });
    assert!(matches!(reading.call(), Some(Call::CloseAsset(AAsset(5)))));
    let reading = reading.resume(Reply::Closed);
    assert_eq!(asset_error(reading), (ErrorKind::Other, "AAsset_getBuffer returned null"));
}

#[test]
fn buffer_of_another_length_changes_nothing() {
    let reading = read_apk_asset(&slot(), b"a")
        .resume(Reply::Asset(AAsset(5)))
        .resume(Reply::Length(3))
        .resume(Reply::Buffer { addr: 1, bytes: &[1] });
    assert!(matches!(reading.call(), Some(Call::GetBuffer(AAsset(5)))));
    assert!(reading.finish().is_none());
}

#[test]
fn directory_is_listed_in_order() {
    let slot = slot();
    let mut listing = read_asset_dir(&slot, b"/levels");
    match listing.call() {
        Some(Call::OpenDir { manager, dirname }) => {
            assert_eq!(manager, MANAGER);
            assert_eq!(dirname.as_slice(), b"levels\0");
        }
        other => panic!("{:?}", other),
    }
    listing = listing.resume(Reply::Dir(AAssetDir(9)));
    let names: Vec<&[u8]> = vec![b"b.lvl", "\u{e9}.lvl".as_bytes(), b"a.lvl"];
    for name in names {
        assert!(matches!(listing.call(), Some(Call::NextFileName(AAssetDir(9)))));
        listing = listing.resume(Reply::FileName(Some(name)));
    }
    listing = listing.resume(Reply::FileName(None));
    assert!(matches!(listing.call(), Some(Call::CloseDir(AAssetDir(9)))));
    listing = listing.resume(Reply::Closed);
    assert!(listing.call().is_none());
    assert_eq!(listing.finish().unwrap().unwrap(), vec!["b.lvl", "\u{e9}.lvl", "a.lvl"]);
}

#[test]
fn ill_formed_names_get_replacement_characters() {
    let listing = read_asset_dir(&slot(), b"d")
        .resume(Reply::Dir(AAssetDir(9)))
        .resume(Reply::FileName(Some(&[0x61, 0xff, 0x62])))
        .resume(Reply::FileName(None))
        .resume(Reply::Closed);
    assert_eq!(listing.finish().unwrap().unwrap(), vec!["a\u{fffd}b"]);
}

#[test]
fn empty_directory_has_no_files() {
    let listing = read_asset_dir(&slot(), b"d")
        .resume(Reply::Dir(AAssetDir(9)))
        .resume(Reply::FileName(None))
        .resume(Reply::Closed);
    assert!(listing.finish().unwrap().unwrap().is_empty());
}

#[test]
fn directory_needs_a_manager() {
    let listing = read_asset_dir(&ManagerSlot::new(), b"d");
    assert_eq!(dir_error(listing), (ErrorKind::Other, "AAssetManager not initialized"));
}

#[test]
fn directory_path_must_be_utf8() {
    let listing = read_asset_dir(&slot(), &[0xc0, 0x80]);
    assert_eq!(
        dir_error(listing),
        (ErrorKind::InvalidInput, "non-UTF-8 path for APK asset dir")
    );
}

#[test]
fn directory_path_must_not_hold_a_zero() {
    let listing = read_asset_dir(&slot(), b"\0");
    assert_eq!(dir_error(listing), (ErrorKind::InvalidInput, "path contains null byte"));
}

#[test]
fn missing_directory_is_not_found() {
    let listing = read_asset_dir(&slot(), b"d").resume(Reply::Dir(AAssetDir(0)));
    assert_eq!(dir_error(listing), (ErrorKind::NotFound, "APK asset directory not found"));
}

#[test]
fn unfinished_listing_has_no_result() {
    let listing = read_asset_dir(&slot(), b"d").resume(Reply::Closed);
    assert!(matches!(listing.call(), Some(Call::OpenDir { .. })));
    assert!(listing.finish().is_none());
}
