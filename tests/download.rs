use std::collections::HashMap;
use std::io::Write;

use flate2::write::GzEncoder;
use flate2::Compression;
use juice_mnist::error::FetchError;
use juice_mnist::gzip::decode_gzip;
use juice_mnist::names::{data_link, RESOURCE_COUNT};
use juice_mnist::session::{Action, Event, Session};

/// An in-memory directory tree: the directories that exist and the files in them.
struct MockFs {
    dirs: Vec<String>,
    files: HashMap<String, Vec<u8>>,
}

impl MockFs {
    fn with_dir(dir: &str) -> MockFs {
        MockFs { dirs: vec![dir.to_string()], files: HashMap::new() }
    }

    fn parent_exists(&self, path: &str) -> bool {
        match path.rfind('/') {
            Some(i) => self.dirs.iter().any(|d| d == &path[..i]),
            None => true,
        }
    }
}

fn gzip(plain: &[u8]) -> Vec<u8> {
    let mut enc = GzEncoder::new(Vec::new(), Compression::default());
    enc.write_all(plain).unwrap();
    enc.finish().unwrap()
}

fn plain_of(i: usize) -> Vec<u8> {
    format!("dataset number {} with some bytes \x00\x01\x02", i).into_bytes()
}

/// Drives a session to its end, doing the work of each action against `fs`,
/// with `fetch` standing in for the transport.
fn drive(
    dir: Option<&str>,
    fs: &mut MockFs,
    fetch: &dyn Fn(&str) -> Option<Vec<u8>>,
) -> Result<(), FetchError> {
    let mut s = Session::new(dir.map(|d| d.to_string()))?;
    loop {
        match s.next_action() {
            Action::Fetch { url, path } => {
                if !fs.parent_exists(&path) {
                    s.on_event(Event::Failed(FetchError::FilesystemError));
                    continue;
                }
                fs.files.insert(path.clone(), Vec::new());
                match fetch(&url) {
                    Some(body) => {
                        fs.files.insert(path, body);
                        s.on_event(Event::Done);
                    }
                    None => s.on_event(Event::Failed(FetchError::TransportError)),
                }
            }
            Action::ReadBack { path } => match fs.files.get(&path) {
                Some(b) => s.on_event(Event::Bytes(b.clone())),
                None => s.on_event(Event::Failed(FetchError::FilesystemError)),
            },
            Action::Write { path, bytes } => {
                if fs.parent_exists(&path) {
                    fs.files.insert(path, bytes);
                    s.on_event(Event::Done);
                } else {
                    s.on_event(Event::Failed(FetchError::FilesystemError));
                }
            }
            Action::Finished => return Ok(()),
            Action::Abort(e) => return Err(e),
        }
    }
}

fn working_transport(url: &str) -> Option<Vec<u8>> {
    (0..RESOURCE_COUNT).find(|&i| data_link(i) == url).map(|i| gzip(&plain_of(i)))
}

const OUT: [&str; 4] = [
    "data/train-images-idx3-ubyte",
    "data/train-labels-idx1-ubyte",
    "data/t10k-images-idx3-ubyte",
    "data/t10k-labels-idx1-ubyte",
];

#[test]
fn round_trip_of_known_plaintext() {
    let mut fs = MockFs::with_dir("data");
    assert_eq!(drive(Some("data"), &mut fs, &working_transport), Ok(()));
    assert_eq!(fs.files.len(), 8);
    for i in 0..RESOURCE_COUNT {
        assert_eq!(fs.files[OUT[i]], plain_of(i));
        assert_eq!(fs.files[&format!("{}.gz", OUT[i])], gzip(&plain_of(i)));
    }
}

#[test]
fn decode_gzip_round_trip() {
    let p = b"known plaintext".to_vec();
    assert_eq!(decode_gzip(&gzip(&p)), Ok(p));
    assert_eq!(decode_gzip(&gzip(b"")), Ok(Vec::new()));
}

#[test]
fn missing_directory_argument() {
    let mut fs = MockFs::with_dir("data");
    assert_eq!(drive(None, &mut fs, &working_transport), Err(FetchError::MissingArgument));
    assert!(fs.files.is_empty());
    assert!(Session::new(None).is_err());
}

#[test]
fn nonexistent_directory_fails_on_first_create() {
    let mut fs = MockFs::with_dir("data");
    let asked = std::cell::Cell::new(0);
    let fetch = |u: &str| {
        asked.set(asked.get() + 1);
        working_transport(u)
    };
    assert_eq!(drive(Some("nowhere"), &mut fs, &fetch), Err(FetchError::FilesystemError));
    assert!(fs.files.is_empty());
    assert_eq!(asked.get(), 0);
}

#[test]
fn transport_failure_on_second_resource_aborts() {
    let mut fs = MockFs::with_dir("data");
    let fetch = |u: &str| if u == data_link(1) { None } else { working_transport(u) };
    assert_eq!(drive(Some("data"), &mut fs, &fetch), Err(FetchError::TransportError));
    assert_eq!(fs.files[OUT[0]], plain_of(0));
    assert_eq!(fs.files["data/train-images-idx3-ubyte.gz"], gzip(&plain_of(0)));
    assert!(!fs.files.contains_key(OUT[1]));
    for i in 2..RESOURCE_COUNT {
        assert!(!fs.files.contains_key(OUT[i]));
        assert!(!fs.files.contains_key(&format!("{}.gz", OUT[i])));
    }
}

#[test]
fn corrupt_download_is_a_decode_error() {
    let mut fs = MockFs::with_dir("data");
    let fetch = |_: &str| Some(b"not gzip".to_vec());
    assert_eq!(drive(Some("data"), &mut fs, &fetch), Err(FetchError::DecodeError));
    assert_eq!(fs.files.len(), 1);
}

#[test]
fn second_run_overwrites_with_same_contents() {
    let mut fs = MockFs::with_dir("data");
    assert_eq!(drive(Some("data"), &mut fs, &working_transport), Ok(()));
    let first = fs.files.clone();
    assert_eq!(drive(Some("data"), &mut fs, &working_transport), Ok(()));
    assert_eq!(fs.files, first);
}

#[test]
fn second_run_replaces_stale_files() {
    let mut fs = MockFs::with_dir("data");
    fs.files.insert(OUT[0].to_string(), b"stale".to_vec());
    assert_eq!(drive(Some("data"), &mut fs, &working_transport), Ok(()));
    assert_eq!(fs.files[OUT[0]], plain_of(0));
}

#[test]
fn session_steps_through_first_resource() {
    let mut s = Session::new(Some("d".to_string())).unwrap();
    assert_eq!(s.index(), 0);
    assert_eq!(s.directory(), "d");
    assert!(!s.is_done());
    match s.next_action() {
        Action::Fetch { url, path } => {
            assert_eq!(url, data_link(0));
            assert_eq!(path, "d/train-images-idx3-ubyte.gz");
        }
        _ => panic!("expected a fetch"),
    }
    // An event that does not answer the stage changes nothing.
    s.on_event(Event::Bytes(Vec::new()));
    assert!(matches!(s.next_action(), Action::Fetch { .. }));
    s.on_event(Event::Done);
    match s.next_action() {
        Action::ReadBack { path } => assert_eq!(path, "d/train-images-idx3-ubyte.gz"),
        _ => panic!("expected a read-back"),
    }
    s.on_decoded(Ok(vec![7, 8]));
    match s.next_action() {
        Action::Write { path, bytes } => {
            assert_eq!(path, "d/train-images-idx3-ubyte");
            assert_eq!(bytes, vec![7, 8]);
        }
        _ => panic!("expected a write"),
    }
    s.on_event(Event::Done);
    assert_eq!(s.index(), 1);
    s.on_event(Event::Failed(FetchError::TransportError));
    assert!(s.is_done());
    s.on_event(Event::Done);
    assert_eq!(s.index(), 1);
    assert!(matches!(s.next_action(), Action::Abort(FetchError::TransportError)));
}
