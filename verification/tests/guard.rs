use ephemeral_dir::EphemeralDir;
use ephemeral_dir::ephemeral_dir;
use ephemeral_dir::ephemeral_dir_forced;

/// Stands for any consumer that accepts a plain path value: the guard's
/// path view must be usable here exactly as the raw path string is.
fn accepts_a_plain_path(p: &str) -> bool {
    p == "/tmp/ephemeral_test_dir"
}

#[test]
fn test_dir_exists_after_creation() {
    let path = "/tmp/ephemeral_dir_test";
    let res_dir = EphemeralDir::new_forced(String::from(path), false, None, Some(Ok(())));
    assert!(res_dir.is_ok());
    let Ok(dir) = res_dir else { unreachable!() };
    assert_eq!(dir.path(), path);
}

#[test]
fn test_dir_does_not_exist_after_going_out_of_scope() {
    let path = "/tmp/ephemeral_dir_test";
    let res_dir = EphemeralDir::new_forced(String::from(path), false, None, Some(Ok(())));
    assert!(res_dir.is_ok());
    let Ok(dir) = res_dir else { unreachable!() };
    assert_eq!(dir.path(), path);
    // End of the guard's scope: the owned tree is removed and the outcome of
    // the removal is discarded, whatever it was.
    dir.dispose(Ok(()));
}

#[test]
fn test_wrapper_functions() {
    let path = "/tmp/ephemeral_dir_test";
    let res_dir = ephemeral_dir(String::from(path), false, Ok(()));
    assert!(res_dir.is_ok());
    let Ok(dir) = res_dir else { unreachable!() };
    assert_eq!(dir.path(), path);

    let path = "/tmp/ephemeral_dir_test";
    let res_dir = ephemeral_dir_forced(String::from(path), true, Some(Ok(())), Some(Ok(())));
    assert!(res_dir.is_ok());
    let Ok(dir) = res_dir else { unreachable!() };
    assert_eq!(dir.path(), path);
    dir.dispose(Ok(()));
}

#[test]
fn test_asref_path() {
    let path = "/tmp/ephemeral_test_dir";
    let res_dir = ephemeral_dir(String::from(path), false, Ok(())).unwrap();

    assert!(accepts_a_plain_path(res_dir.path()));
}

#[test]
fn test_guard_answers_as_its_path_does() {
    let path = "/tmp/ephemeral_test_dir";
    let dir = ephemeral_dir(String::from(path), false, Ok(())).unwrap();

    assert_eq!(accepts_a_plain_path(dir.path()), accepts_a_plain_path(path));
}

#[test]
fn test_forced_on_fresh_path() {
    // The path does not exist beforehand: no removal is attempted.
    let path = "/tmp/x";
    let dir = ephemeral_dir_forced(String::from(path), false, None, Some(Ok(()))).unwrap();
    assert_eq!(dir.path(), "/tmp/x");
    dir.dispose(Ok(()));
}

#[test]
fn test_forced_on_pre_existing_path() {
    // The path exists with contents: the tree is removed first, then the
    // directory is created afresh.
    let path = "/tmp/y";
    let dir = ephemeral_dir_forced(String::from(path), true, Some(Ok(())), Some(Ok(()))).unwrap();
    assert_eq!(dir.path(), "/tmp/y");
    dir.dispose(Ok(()));
}

#[test]
fn test_create_failure_yields_io_error() {
    let res = ephemeral_dir(String::from("/tmp/x"), false, Err(String::from("disk full")));
    let Err(e) = res else { unreachable!() };
    assert_eq!(e.message().as_str(), "disk full");
}

#[test]
fn test_forced_remove_failure_yields_io_error() {
    // The pre-removal step fails: its error surfaces, no creation follows
    // and no guard is produced.
    let res = ephemeral_dir_forced(
        String::from("/tmp/y"),
        true,
        Some(Err(String::from("permission denied"))),
        None,
    );
    let Err(e) = res else { unreachable!() };
    assert_eq!(e.message().as_str(), "permission denied");
}

#[test]
fn test_forced_create_failure_yields_io_error() {
    let res = ephemeral_dir_forced(
        String::from("/tmp/y"),
        true,
        Some(Ok(())),
        Some(Err(String::from("read-only file system"))),
    );
    let Err(e) = res else { unreachable!() };
    assert_eq!(e.message().as_str(), "read-only file system");
}

#[test]
fn test_dispose_swallows_removal_failure() {
    // Cleanup is best-effort: a failed removal, for instance of a path a
    // third party already deleted, is discarded without a panic.
    let dir = ephemeral_dir(String::from("/tmp/x"), false, Ok(())).unwrap();
    dir.dispose(Err(String::from("no such file or directory")));
}
