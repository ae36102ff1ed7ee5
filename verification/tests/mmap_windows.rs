use fibre_std::error::Error;
use fibre_std::mmap::win::{self, Call, Opening, Reply};
use fibre_std::mmap::{self, MmapFile, OsPath};
use std::io;

const FILE: usize = 0x44;
const MAPPING: usize = 0x48;
const ADDR: usize = 0x10000;

fn os_error(code: i32) -> io::Error {
    io::Error::from_raw_os_error(code)
}

fn failure(opening: Opening) -> Option<i32> {
    match opening {
        Opening::Failed(Error::Io(e)) => e.raw_os_error(),
        _ => None,
    }
}

#[test]
fn windows_file_is_mapped() {
    let path: Vec<u16> = "C:\\t.bin".encode_utf16().collect();
    let data: Vec<u8> = vec![3, 1, 4];
    let mut opening = MmapFile::open(OsPath::Windows(&path));
    let mut calls: Vec<String> = vec![];
    loop {
        let reply = match opening.call() {
            None => break,
            Some(mmap::Call::Windows(call)) => {
                calls.push(format!("{:?}", call).split(' ').next().unwrap().to_string());
                match call {
                    Call::Metadata { path: p } => {
                        assert_eq!(p, path.as_slice());
                        Reply::Metadata(Ok(3))
                    }
                    Call::CreateFile { name, access, share, disposition, .. } => {
                        assert_eq!(name.len(), path.len() + 1);
                        assert_eq!(&name[..path.len()], path.as_slice());
                        assert_eq!(name[path.len()], 0);
                        assert_eq!((access, share, disposition), (0x8000_0000, 1, 3));
                        Reply::Handle(FILE)
                    }
                    Call::CreateFileMapping { file, protect, size_high, size_low, .. } => {
                        assert_eq!((file, protect, size_high, size_low), (FILE, 2, 0, 0));
                        Reply::Handle(MAPPING)
                    }
                    Call::MapViewOfFile { mapping, access, len, .. } => {
                        assert_eq!((mapping, access, len), (MAPPING, 4, 0));
                        Reply::Viewed { addr: ADDR, bytes: &data }
                    }
                    other => panic!("{:?}", other),
                }
            }
            Some(_) => panic!("not a call of Windows"),
        };
        opening = opening.resume(mmap::Reply::Windows(reply));
    }
    assert_eq!(calls, vec!["Metadata", "CreateFile", "CreateFileMapping", "MapViewOfFile"]);
    let mm = opening.finish().unwrap().unwrap();
    assert_eq!(mm.as_slice(), data.as_slice());
    match mm.release().as_slice() {
        [
            mmap::Call::Windows(Call::UnmapViewOfFile { addr }),
            mmap::Call::Windows(Call::CloseHandle { handle: first }),
            mmap::Call::Windows(Call::CloseHandle { handle: second }),
        ] => assert_eq!((*addr, *first, *second), (ADDR, MAPPING, FILE)),
        other => panic!("{:?}", other),
    }
}

#[test]
fn windows_empty_file_is_not_opened() {
    let opening = win::open(&[97]).resume(Reply::Metadata(Ok(0)));
    assert!(matches!(opening, Opening::Empty));
    let mm = mmap::Opening::Windows(opening).finish().unwrap().unwrap();
    assert!(mm.as_slice().is_empty());
    assert!(mm.release().is_empty());
}

#[test]
fn windows_missing_file_reports_the_system_error() {
    let opening = win::open(&[97]).resume(Reply::Metadata(Err(os_error(2))));
    assert_eq!(failure(opening), Some(2));
}

#[test]
fn windows_failed_open_has_nothing_to_close() {
    let opening = win::open(&[97]).resume(Reply::Metadata(Ok(1))).resume(Reply::Handle(0));
    assert!(matches!(opening.call(), Some(Call::LastError)));
    assert_eq!(failure(opening.resume(Reply::LastError(os_error(32)))), Some(32));
}

#[test]
fn windows_failed_mapping_closes_the_file() {
    let opening = win::open(&[97])
        .resume(Reply::Metadata(Ok(1)))
        .resume(Reply::Handle(FILE))
        .resume(Reply::Handle(0))
        .resume(Reply::LastError(os_error(8)));
    assert!(matches!(opening.call(), Some(Call::CloseHandle { handle: FILE })));
    assert_eq!(failure(opening.resume(Reply::Closed)), Some(8));
}

#[test]
fn windows_failed_view_closes_the_mapping_and_the_file() {
    let opening = win::open(&[97])
        .resume(Reply::Metadata(Ok(1)))
        .resume(Reply::Handle(FILE))
        .resume(Reply::Handle(MAPPING))
        .resume(Reply::Viewed { addr: 0, bytes: &[] })
        .resume(Reply::LastError(os_error(87)));
    assert!(matches!(opening.call(), Some(Call::CloseHandle { handle: MAPPING })));
    let opening = opening.resume(Reply::Closed);
    assert!(matches!(opening.call(), Some(Call::CloseHandle { handle: FILE })));
    assert_eq!(failure(opening.resume(Reply::Closed)), Some(87));
}

#[test]
fn windows_unmapping_gives_the_status_of_the_call() {
    for (len, status) in vec![(0usize, 1i32), (4096, 1), (4096, 0)] {
        let unmapping = win::unmap(ADDR, len);
        assert!(matches!(unmapping.call(), Some(Call::UnmapViewOfFile { addr: ADDR })));
        let unmapping = unmapping.resume(Reply::Closed);
        assert!(unmapping.call().is_some());
        let unmapping = unmapping.resume(Reply::Unmapped(status));
        assert!(unmapping.call().is_none());
        assert_eq!(unmapping.finish(), Some(status));
    }
    assert_eq!(win::unmap(ADDR, 1).finish(), None);
}

#[test]
fn windows_view_of_another_length_changes_nothing() {
    let opening = win::open(&[97])
        .resume(Reply::Metadata(Ok(2)))
        .resume(Reply::Handle(FILE))
        .resume(Reply::Handle(MAPPING))
        .resume(Reply::Viewed { addr: ADDR, bytes: &[1] });
    assert!(matches!(opening.call(), Some(Call::MapViewOfFile { mapping: MAPPING, .. })));
}
