use estufa::components::env_io::lock_path;

#[test]
fn lock_path_swaps_extension() {
    assert_eq!(lock_path("src/env_vars/temp.txt"), "src/env_vars/temp.lock");
}

#[test]
fn lock_path_replaces_every_occurrence() {
    assert_eq!(lock_path("a.txt/b.txt"), "a.lock/b.lock");
    assert_eq!(lock_path("no_extension"), "no_extension");
    assert_eq!(lock_path(".txt.txt"), ".lock.lock");
    assert_eq!(lock_path("x.tx"), "x.tx");
    assert_eq!(lock_path("çã.txt"), "çã.lock");
    assert_eq!(lock_path(""), "");
}
