use smolvm_graphics::paths::paths_equal;
use smolvm_graphics::shm_protocol::LocalShmEndpoint;
use std::path::Path;

const PAIRS: &[(&str, &str)] = &[
    ("/tmp/x/local-shm.sock", "/tmp/x/local-shm.sock"),
    ("/tmp/x//local-shm.sock", "/tmp/x/local-shm.sock"),
    ("/tmp/x/./local-shm.sock", "/tmp/x/local-shm.sock"),
    ("/tmp/x/local-shm.sock/", "/tmp/x/local-shm.sock"),
    ("/tmp/x/local-shm.sock/.", "/tmp/x/local-shm.sock"),
    ("//tmp/x", "/tmp/x"),
    ("/./a", "/a"),
    ("./a", "a"),
    ("./a", "./a"),
    (".//a/./", "./a"),
    ("a/.", "a"),
    ("a/./b", "a/b"),
    ("a/../b", "b"),
    ("/a/../b", "/a/../b"),
    ("/a", "a"),
    ("/", "//"),
    ("/", ""),
    ("", "."),
    (".", "./"),
    ("", ""),
    ("a/b", "a/c"),
    ("a/b", "a/b/c"),
    ("/tmp/x/local-shm.sock", "/tmp/y/local-shm.sock"),
];

#[test]
fn paths_compare_like_std_paths() {
    for (a, b) in PAIRS {
        let expected = Path::new(a) == Path::new(b);
        assert_eq!(paths_equal(a, b), expected, "{a:?} vs {b:?}");
        assert_eq!(paths_equal(b, a), expected, "{b:?} vs {a:?}");
    }
}

#[test]
fn endpoint_paths_are_compared_by_components() {
    let runtime_dir = "/tmp/x";
    let mut endpoint = LocalShmEndpoint::for_runtime_dir(runtime_dir);
    endpoint.control_socket = String::from("/tmp/x//local-shm.sock");
    endpoint.frame_ring = String::from("/tmp/x/./local-shm.frames/");
    assert_eq!(endpoint.validate_for_runtime_dir(runtime_dir), Ok(()));
    assert_eq!(endpoint.validate_for_runtime_dir("/tmp/x/"), Ok(()));
    assert_eq!(
        endpoint.validate_for_runtime_dir("/tmp/y"),
        Err(String::from("control socket is outside the display runtime directory"))
    );
    endpoint.control_socket = String::from("/tmp/x/sub/../local-shm.sock");
    assert_eq!(
        endpoint.validate_for_runtime_dir(runtime_dir),
        Err(String::from("control socket is outside the display runtime directory"))
    );
}
