use ftp_server::users::UserStore;

#[test]
fn first_login_provisions_the_account() {
    let mut store = UserStore::new();
    let (ok, fresh) = store.login(b"user_a", b"123456");
    assert!(ok);
    assert!(fresh);
    assert_eq!(store.users.len(), 1);
    assert_eq!(store.users[0].name, b"user_a".to_vec());
    assert_eq!(store.users[0].password, b"123456".to_vec());
    assert!(store.users[0].cwd.is_empty());
}

#[test]
fn known_account_checks_the_password() {
    let mut store = UserStore::new();
    let _ = store.login(b"user_a", b"123456");
    let (ok, fresh) = store.login(b"user_a", b"123456");
    assert!(ok);
    assert!(!fresh);
    let (ok, fresh) = store.login(b"user_a", b"wrong");
    assert!(!ok);
    assert!(!fresh);
    assert_eq!(store.users.len(), 1);
}

#[test]
fn working_directory_follows_the_account() {
    let mut store = UserStore::new();
    let _ = store.login(b"user_a", b"123456");
    let _ = store.login(b"user_b", b"123456");
    assert_eq!(store.get_cwd(b"user_a"), Some(vec![]));
    assert_eq!(store.get_cwd(b"user_c"), None);
    store.set_cwd(b"user_a", vec![b"thing".to_vec()]);
    assert_eq!(store.get_cwd(b"user_a"), Some(vec![b"thing".to_vec()]));
    assert_eq!(store.get_cwd(b"user_b"), Some(vec![]));
}
