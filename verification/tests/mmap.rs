use fibre_std::error::{Error, ErrorKind};
use fibre_std::mmap::unix::{Call, Opening, Reply};
use fibre_std::mmap::{self, unix, MmapFile, OsPath};
use std::io;

const FD: i32 = 7;
const ADDR: usize = 0x7000_0000;

/// A file system with one file in it, on Unix.
struct Disk<'m> {
    path: String,
    file: &'m [u8],
    calls: Vec<String>,
}

impl<'m> Disk<'m> {
    fn new(path: &str, file: &'m [u8]) -> Disk<'m> {
        Disk { path: path.to_string(), file, calls: vec![] }
    }

    fn answer(&mut self, call: &Call) -> Reply<'m> {
        self.calls.push(format!("{:?}", call));
        match call {
            Call::Open { c_path, flags, mode } => {
                assert_eq!(*flags, unix::O_RDONLY);
                assert_eq!(*mode, 0);
                let (zero, name) = c_path.split_last().unwrap();
                assert_eq!(*zero, 0);
                Reply::Opened(if name == self.path.as_bytes() { FD } else { -1 })
            }
            Call::LastError => Reply::LastError(io::Error::from_raw_os_error(2)),
            Call::Metadata { path } => {
                assert_eq!(*path, self.path.as_bytes());
                Reply::Metadata(Ok(self.file.len() as u64))
            }
            Call::MapFile { addr, len, prot, flags, fd, offset } => {
                assert_eq!((*addr, *prot, *flags, *fd, *offset), (0, 1, 1, FD, 0));
                assert_eq!(*len, self.file.len());
                Reply::Mapped { addr: ADDR, bytes: self.file }
            }
            Call::Close { fd } => {
                assert_eq!(*fd, FD);
                Reply::Closed
            }
            Call::Unmap { .. } => panic!("nothing is unmapped on opening"),
        }
    }

    fn open(&mut self, path: &str) -> Result<MmapFile<'m>, Error> {
        let mut opening = MmapFile::open(OsPath::Unix(path.as_bytes()));
        loop {
            let reply = match opening.call() {
                None => break,
                Some(mmap::Call::Unix(call)) => mmap::Reply::Unix(self.answer(&call)),
                Some(_) => panic!("not a call of Unix"),
            };
            opening = opening.resume(reply);
        }
        opening.finish().unwrap()
    }
}

fn os_error(code: i32) -> io::Error {
    io::Error::from_raw_os_error(code)
}

fn code(error: Error) -> Option<i32> {
    match error {
        Error::Io(e) => e.raw_os_error(),
        Error::Simple { .. } => None,
    }
}

#[test]
fn mmap_roundtrip() {
    let p = format!("/tmp/std_mmap_{}/{}", 4711, "t.bin");
    let data: Vec<u8> = (0..4096u32).map(|i| (i % 251) as u8).collect();
    let mut disk = Disk::new(&p, &data);
    let mm = disk.open(&p).unwrap();
    assert_eq!(mm.as_slice(), data.as_slice());
}

#[test]
fn mmap_empty_file() {
    let p = format!("/tmp/std_mmap_e_{}/{}", 4711, "e.bin");
    let mut disk = Disk::new(&p, &[]);
    let mm = disk.open(&p).unwrap();
    assert!(mm.as_slice().is_empty());
}

#[test]
fn mmap_missing_file_errors() {
    let mut disk = Disk::new("/tmp/t.bin", &[1]);
    assert!(disk.open("/nonexistent/std_mmap_test").is_err());
}

#[test]
fn unix_calls_come_in_order() {
    let mut disk = Disk::new("a", &[5, 6]);
    disk.open("a").unwrap();
    let names: Vec<&str> = disk.calls.iter().map(|c| c.split(' ').next().unwrap()).collect();
    assert_eq!(names, vec!["Open", "Metadata", "MapFile", "Close"]);
}

#[test]
fn unix_empty_file_is_closed_and_not_mapped() {
    let mut disk = Disk::new("a", &[]);
    let mm = disk.open("a").unwrap();
    let names: Vec<&str> = disk.calls.iter().map(|c| c.split(' ').next().unwrap()).collect();
    assert_eq!(names, vec!["Open", "Metadata", "Close"]);
    assert!(mm.release().is_empty());
}

#[test]
fn unix_mapping_is_released_on_drop() {
    let data = vec![1u8, 2, 3];
    let mut disk = Disk::new("a", &data);
    let mm = disk.open("a").unwrap();
    match mm.release().as_slice() {
        [mmap::Call::Unix(Call::Unmap { addr, len })] => assert_eq!((*addr, *len), (ADDR, 3)),
        other => panic!("{:?}", other),
    }
}

#[test]
fn unix_path_with_nul_is_refused_without_a_call() {
    let opening = MmapFile::open(OsPath::Unix(b"a\0b"));
    assert!(opening.call().is_none());
    match opening.finish() {
        Some(Err(Error::Simple { kind, message })) => {
            assert_eq!(kind, ErrorKind::InvalidInput);
            assert_eq!(message, "path contains NUL");
        }
        other => panic!("{:?}", other),
    }
}

#[test]
fn unix_missing_file_reports_the_system_error() {
    let mut disk = Disk::new("a", &[1]);
    assert_eq!(code(disk.open("b").unwrap_err()), Some(2));
    assert_eq!(disk.calls.len(), 2);
}

#[test]
fn unix_failed_metadata_is_passed_on() {
    let opening = unix::open(b"a").resume(Reply::Opened(FD));
    let opening = opening.resume(Reply::Metadata(Err(os_error(13))));
    match opening {
        Opening::Failed(e) => assert_eq!(code(e), Some(13)),
        other => panic!("{:?}", other),
    }
}

#[test]
fn unix_failed_mapping_closes_before_the_error_is_read() {
    let opening = unix::open(b"a")
        .resume(Reply::Opened(FD))
        .resume(Reply::Metadata(Ok(10)))
        .resume(Reply::Mapped { addr: usize::MAX, bytes: &[] });
    assert!(matches!(opening.call(), Some(Call::Close { fd: FD })));
    let opening = opening.resume(Reply::Closed);
    assert!(matches!(opening.call(), Some(Call::LastError)));
    match opening.resume(Reply::LastError(os_error(12))) {
        Opening::Failed(e) => assert_eq!(code(e), Some(12)),
        other => panic!("{:?}", other),
    }
}

#[test]
fn unix_reply_to_another_call_changes_nothing() {
    let opening = unix::open(b"a").resume(Reply::Closed);
    assert!(matches!(opening.call(), Some(Call::Open { .. })));
    let opening = opening.resume(Reply::Opened(0)).resume(Reply::Metadata(Ok(2)));
    let opening = opening.resume(Reply::Mapped { addr: ADDR, bytes: &[1] });
    assert!(matches!(opening.call(), Some(Call::MapFile { len: 2, fd: 0, .. })));
}

#[test]
fn unfinished_opening_has_no_result() {
    assert!(MmapFile::open(OsPath::Unix(b"a")).finish().is_none());
}

#[test]
fn other_platforms_read_the_file() {
    let opening = MmapFile::open(OsPath::Other(b"a"));
    match opening.call() {
        Some(mmap::Call::Read { path }) => assert_eq!(path, b"a"),
        other => panic!("{:?}", other),
    }
    let mm = opening.resume(mmap::Reply::Read(Ok(vec![9, 8]))).finish().unwrap().unwrap();
    assert_eq!(mm.as_slice(), &[9, 8]);
    assert!(mm.release().is_empty());
}

#[test]
fn other_platforms_pass_the_error_on() {
    let opening = MmapFile::open(OsPath::Other(b"a"));
    let result = opening.resume(mmap::Reply::Read(Err(os_error(5)))).finish().unwrap();
    assert_eq!(code(result.unwrap_err()), Some(5));
}
