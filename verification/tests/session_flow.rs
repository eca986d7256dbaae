use ftp_server::server::{FTPServer, LineAction, WriterAction};

/// Check the queued reply and drain it fully, handing back the writer's
/// follow-up action.
fn expect_reply(s: &mut FTPServer, id: u64, expected: &[u8]) -> WriterAction {
    let out = s.pending_of(id);
    assert_eq!(
        String::from_utf8_lossy(&out),
        String::from_utf8_lossy(expected)
    );
    s.on_writable(id, out.len())
}

/// Open a control connection and drain the greeting.
fn connect(s: &mut FTPServer) -> u64 {
    let id = s.next_id();
    assert!(s.new_connection(id));
    let act = expect_reply(s, id, b"220 Service ready for new user.\r\n");
    assert!(matches!(act, WriterAction::RearmRead));
    id
}

/// Log in, provisioning the account on first sight.
fn login(s: &mut FTPServer, id: u64, user: &[u8]) {
    let mut line = b"USER ".to_vec();
    line.extend_from_slice(user);
    let act = s.handle_line(id, &line);
    assert!(matches!(act, LineAction::Replied));
    expect_reply(s, id, b"331 User name okay, need password.\r\n");
    let act = s.handle_line(id, b"PASS 123456");
    match act {
        LineAction::CreateUserDir { path } => {
            let mut want = b"./root/".to_vec();
            want.extend_from_slice(user);
            assert_eq!(path, want);
        },
        LineAction::Replied => {},
        _ => panic!("unexpected action after PASS"),
    }
    expect_reply(s, id, b"230 User logged in, proceed.\r\n");
}

/// Set up an active-mode data channel as a PORT command does.
fn port(s: &mut FTPServer, id: u64) -> u64 {
    let act = s.handle_line(id, b"PORT 127,0,0,1,8,186");
    match act {
        LineAction::DialData { h1, h2, h3, h4, port, close_first: _ } => {
            assert_eq!((h1, h2, h3, h4), (127, 0, 0, 1));
            assert_eq!(port, 2234);
        },
        _ => panic!("PORT did not ask for a dial"),
    }
    expect_reply(s, id, b"200 Command okay.\r\n");
    let data_id = s.next_id();
    s.active_connected(id, data_id);
    data_id
}

#[test]
fn one_reply_per_command_in_request_order() {
    let mut s = FTPServer::new();
    let id = connect(&mut s);
    login(&mut s, id, b"user_order");
    // each line draws exactly one settled reply, in the order sent
    let _ = s.handle_line(id, b"NOOP");
    expect_reply(&mut s, id, b"200 Command okay.\r\n");
    let _ = s.handle_line(id, b"PWD");
    expect_reply(&mut s, id, b"257 /\r\n");
    let _ = s.handle_line(id, b"NONSENSE");
    expect_reply(&mut s, id, b"500 Syntax error, command unrecognized.\r\n");
    let _ = s.handle_line(id, b"MKD /a");
    assert_eq!(s.pending_of(id), b"".to_vec());  // no reply before the outcome
    let _ = s.fs_done(id, true);
    expect_reply(&mut s, id, b"257 'a' directory created.\r\n");
}

#[test]
fn user_resets_authentication() {
    let mut s = FTPServer::new();
    let id = connect(&mut s);
    login(&mut s, id, b"user_one");
    let _ = s.handle_line(id, b"USER user_two");
    expect_reply(&mut s, id, b"331 User name okay, need password.\r\n");
    let _ = s.handle_line(id, b"PWD");
    expect_reply(&mut s, id, b"530 Not logged in.\r\n");
}

#[test]
fn greeting_on_connect() {
    let mut s = FTPServer::new();
    let id = s.next_id();
    assert!(s.new_connection(id));
    assert_eq!(
        s.pending_of(id),
        b"220 Service ready for new user.\r\n".to_vec()
    );
}

#[test]
fn login_flow() {
    let mut s = FTPServer::new();
    let id = connect(&mut s);
    login(&mut s, id, b"user_a");
}

#[test]
fn wrong_password_is_refused() {
    let mut s = FTPServer::new();
    let id = connect(&mut s);
    login(&mut s, id, b"user_a");
    let id2 = connect(&mut s);
    let _ = s.handle_line(id2, b"USER user_a");
    expect_reply(&mut s, id2, b"331 User name okay, need password.\r\n");
    let act = s.handle_line(id2, b"PASS wrong");
    assert!(matches!(act, LineAction::Replied));
    expect_reply(&mut s, id2, b"530 Not logged in.\r\n");
}

#[test]
fn pass_without_user_is_refused() {
    let mut s = FTPServer::new();
    let id = connect(&mut s);
    let _ = s.handle_line(id, b"PASS 123456");
    expect_reply(&mut s, id, b"530 Not logged in.\r\n");
}

#[test]
fn authentication_gate() {
    let mut s = FTPServer::new();
    let id = connect(&mut s);
    let _ = s.handle_line(id, b"MKD /test");
    expect_reply(&mut s, id, b"530 Not logged in.\r\n");
    let _ = s.handle_line(id, b"NOOP");
    expect_reply(&mut s, id, b"200 Command okay.\r\n");
}

#[test]
fn unknown_and_malformed_commands() {
    let mut s = FTPServer::new();
    let id = connect(&mut s);
    let _ = s.handle_line(id, b"FEAT");
    expect_reply(&mut s, id, b"500 Syntax error, command unrecognized.\r\n");
    let _ = s.handle_line(id, b"USER");
    expect_reply(&mut s, id, b"501 Syntax error in parameters or arguments.\r\n");
    let _ = s.handle_line(id, b"TYPE I");
    expect_reply(&mut s, id, b"502 Command not implemented.\r\n");
    let _ = s.handle_line(id, b"MODE S");
    expect_reply(&mut s, id, b"502 Command not implemented.\r\n");
    let _ = s.handle_line(id, b"STRU F");
    expect_reply(&mut s, id, b"502 Command not implemented.\r\n");
}

#[test]
fn active_list_round() {
    let mut s = FTPServer::new();
    let id = connect(&mut s);
    login(&mut s, id, b"user_a");
    let data_id = port(&mut s, id);
    let act = s.handle_line(id, b"LIST");
    let listing = b"thing.txt 12 2024\n".to_vec();
    match act {
        LineAction::ReadDir { path } => assert_eq!(path, b"./root/user_a".to_vec()),
        _ => panic!("LIST did not ask for the directory"),
    }
    let act = s.list_done(id, Some(listing.clone()));
    assert!(matches!(act, LineAction::Replied));
    let act = expect_reply(
        &mut s,
        id,
        b"150 File status okay; about to open data connection.\r\n",
    );
    match act {
        WriterAction::ArmData { id: d, write } => {
            assert_eq!(d, data_id);
            assert!(write);
        },
        _ => panic!("150 drain did not arm the data socket"),
    }
    // the data socket sends the listing, then completes
    assert_eq!(s.pending_of(data_id), listing);
    let act = s.on_writable(data_id, listing.len());
    match act {
        WriterAction::Finished { control } => assert_eq!(control, id),
        _ => panic!("listing drain did not finish the transfer"),
    }
    expect_reply(&mut s, id, b"226 Closing data connection. Requested file action successful (for example, file transfer or file abort).\r\n");
}

#[test]
fn list_without_data_channel() {
    let mut s = FTPServer::new();
    let id = connect(&mut s);
    login(&mut s, id, b"user_a");
    let _ = s.handle_line(id, b"LIST");
    expect_reply(&mut s, id, b"425 Can't open data connection.\r\n");
}

#[test]
fn active_stor_then_retr() {
    let mut s = FTPServer::new();
    let id = connect(&mut s);
    login(&mut s, id, b"user_a");
    let data_id = port(&mut s, id);
    let act = s.handle_line(id, b"STOR ./thing.txt");
    match act {
        LineAction::OpenFileWrite { path } => {
            assert_eq!(path, b"./root/user_a/thing.txt".to_vec())
        },
        _ => panic!("STOR did not open the file"),
    }
    let _ = s.file_done(id, true);
    let act = expect_reply(
        &mut s,
        id,
        b"150 File status okay; about to open data connection.\r\n",
    );
    match act {
        WriterAction::ArmData { id: d, write } => {
            assert_eq!(d, data_id);
            assert!(!write);
        },
        _ => panic!("150 drain did not arm the data socket for reading"),
    }
    // upload reaches EOF
    let notify = s.data_finished(data_id);
    assert_eq!(notify, Some(id));
    expect_reply(&mut s, id, b"226 Closing data connection. Requested file action successful (for example, file transfer or file abort).\r\n");

    // download the same path back
    let data_id = port(&mut s, id);
    let act = s.handle_line(id, b"RETR ./thing.txt");
    match act {
        LineAction::OpenFileRead { path } => {
            assert_eq!(path, b"./root/user_a/thing.txt".to_vec())
        },
        _ => panic!("RETR did not open the file"),
    }
    let _ = s.file_done(id, true);
    let act = expect_reply(&mut s, id, b"150 File download starts!\r\n");
    assert!(matches!(act, WriterAction::ArmData { write: true, .. }));
    let notify = s.data_finished(data_id);
    assert_eq!(notify, Some(id));
    expect_reply(&mut s, id, b"226 Closing data connection. Requested file action successful. (file transfer)\r\n");
}

#[test]
fn missing_file_draws_550() {
    let mut s = FTPServer::new();
    let id = connect(&mut s);
    login(&mut s, id, b"user_a");
    let _ = port(&mut s, id);
    let _ = s.handle_line(id, b"RETR ./nope.txt");
    let _ = s.file_done(id, false);
    expect_reply(&mut s, id, b"550 Requested action not taken.\r\n");
}

#[test]
fn mkdir_and_remove() {
    let mut s = FTPServer::new();
    let id = connect(&mut s);
    login(&mut s, id, b"user_test_mkdir_01");
    let act = s.handle_line(id, b"MKD /test");
    match act {
        LineAction::MakeDir { path } => {
            assert_eq!(path, b"./root/user_test_mkdir_01/test".to_vec())
        },
        _ => panic!("MKD did not create"),
    }
    let _ = s.fs_done(id, true);
    expect_reply(&mut s, id, b"257 'test' directory created.\r\n");
    let act = s.handle_line(id, b"RMD /test");
    match act {
        LineAction::RemoveDirAll { path } => {
            assert_eq!(path, b"./root/user_test_mkdir_01/test".to_vec())
        },
        _ => panic!("RMD did not remove"),
    }
    let _ = s.fs_done(id, true);
    expect_reply(&mut s, id, b"250 Requested file action okay, completed.\r\n");
}

#[test]
fn rename_sequence() {
    let mut s = FTPServer::new();
    let id = connect(&mut s);
    login(&mut s, id, b"user_rnto");
    let _ = s.handle_line(id, b"MKD /a");
    let _ = s.fs_done(id, true);
    expect_reply(&mut s, id, b"257 'a' directory created.\r\n");
    let _ = s.handle_line(id, b"RNFR /a");
    expect_reply(
        &mut s,
        id,
        b"350 Requested file action pending further information.\r\n",
    );
    let act = s.handle_line(id, b"RNTO /b");
    match act {
        LineAction::RenamePath { from, to } => {
            assert_eq!(from, b"./root/user_rnto/a".to_vec());
            assert_eq!(to, b"./root/user_rnto/b".to_vec());
        },
        _ => panic!("RNTO did not rename"),
    }
    let _ = s.fs_done(id, true);
    expect_reply(&mut s, id, b"250 Requested file action okay, completed.\r\n");
    let _ = s.handle_line(id, b"PWD");
    expect_reply(&mut s, id, b"257 /\r\n");
    let _ = s.handle_line(id, b"RMD /b");
    let _ = s.fs_done(id, true);
    expect_reply(&mut s, id, b"250 Requested file action okay, completed.\r\n");
}

#[test]
fn rnto_without_rnfr() {
    let mut s = FTPServer::new();
    let id = connect(&mut s);
    login(&mut s, id, b"user_a");
    let _ = s.handle_line(id, b"RNTO /b");
    expect_reply(&mut s, id, b"550 Requested action not taken.\r\n");
}

#[test]
fn any_verb_between_rnfr_and_rnto_discards_the_source() {
    let mut s = FTPServer::new();
    let id = connect(&mut s);
    login(&mut s, id, b"user_a");
    let _ = s.handle_line(id, b"RNFR /a");
    expect_reply(
        &mut s,
        id,
        b"350 Requested file action pending further information.\r\n",
    );
    let _ = s.handle_line(id, b"NOOP");
    expect_reply(&mut s, id, b"200 Command okay.\r\n");
    let _ = s.handle_line(id, b"RNTO /b");
    expect_reply(&mut s, id, b"550 Requested action not taken.\r\n");
}

#[test]
fn cwd_and_pwd() {
    let mut s = FTPServer::new();
    let id = connect(&mut s);
    login(&mut s, id, b"user_cwd");
    let _ = s.handle_line(id, b"PWD");
    expect_reply(&mut s, id, b"257 /\r\n");
    let act = s.handle_line(id, b"CWD /thing");
    match act {
        LineAction::CheckDir { path } => assert_eq!(path, b"./root/user_cwd/thing".to_vec()),
        _ => panic!("CWD did not check the directory"),
    }
    let _ = s.fs_done(id, true);
    expect_reply(&mut s, id, b"250 Requested file action okay, completed.\r\n");
    let _ = s.handle_line(id, b"PWD");
    expect_reply(&mut s, id, b"257 /thing\r\n");
    let _ = s.handle_line(id, b"CWD ../");
    let _ = s.fs_done(id, true);
    expect_reply(&mut s, id, b"250 Requested file action okay, completed.\r\n");
    let _ = s.handle_line(id, b"PWD");
    expect_reply(&mut s, id, b"257 /\r\n");
}

#[test]
fn no_escape_above_the_root() {
    let mut s = FTPServer::new();
    let id = connect(&mut s);
    login(&mut s, id, b"user_a");
    let _ = s.handle_line(id, b"DELE ../../etc/users.json");
    expect_reply(&mut s, id, b"550 Requested action not taken.\r\n");
    let _ = s.handle_line(id, b"CWD ..");
    expect_reply(&mut s, id, b"550 Requested action not taken.\r\n");
    let _ = s.handle_line(id, b"MKD /../outside");
    expect_reply(&mut s, id, b"550 Requested action not taken.\r\n");
}

#[test]
fn passive_download() {
    let mut s = FTPServer::new();
    let id = connect(&mut s);
    login(&mut s, id, b"user_pasv");
    let act = s.handle_line(id, b"PASV");
    let listener_id = match act {
        LineAction::BindListener { id: lid, port, close_first } => {
            assert_eq!(port, 50000);
            assert!(close_first.is_none());
            lid
        },
        _ => panic!("PASV did not bind"),
    };
    // 50000 = 195 * 256 + 80
    expect_reply(&mut s, id, b"227 Entering Passive Mode. (127,0,0,1,195,80)\r\n");
    let data_id = s.next_id();
    assert!(s.passive_accepted(listener_id, data_id));
    let _ = s.handle_line(id, b"RETR ./1.jpeg");
    let _ = s.file_done(id, true);
    let act = expect_reply(&mut s, id, b"150 File download starts!\r\n");
    match act {
        WriterAction::ArmData { id: d, write } => {
            assert_eq!(d, data_id);
            assert!(write);
        },
        _ => panic!("150 drain did not arm the data socket"),
    }
    let notify = s.data_finished(data_id);
    assert_eq!(notify, Some(id));
    expect_reply(&mut s, id, b"226 Closing data connection. Requested file action successful. (file transfer)\r\n");
}

#[test]
fn second_pasv_replaces_the_listener() {
    let mut s = FTPServer::new();
    let id = connect(&mut s);
    login(&mut s, id, b"user_pasv2");
    let first = match s.handle_line(id, b"PASV") {
        LineAction::BindListener { id: lid, .. } => lid,
        _ => panic!("PASV did not bind"),
    };
    expect_reply(&mut s, id, b"227 Entering Passive Mode. (127,0,0,1,195,80)\r\n");
    match s.handle_line(id, b"PASV") {
        LineAction::BindListener { id: lid, port, close_first } => {
            assert_ne!(lid, first);
            assert_eq!(port, 50001);
            assert_eq!(close_first, Some(first));
        },
        _ => panic!("second PASV did not bind"),
    }
    expect_reply(&mut s, id, b"227 Entering Passive Mode. (127,0,0,1,195,81)\r\n");
}

#[test]
fn quit_closes_after_reply_drains() {
    let mut s = FTPServer::new();
    let id = connect(&mut s);
    let act = s.handle_line(id, b"QUIT");
    assert!(matches!(act, LineAction::Replied));
    let act = expect_reply(&mut s, id, b"221 Service closing control connection.\r\n");
    assert!(matches!(act, WriterAction::Close));
}

#[test]
fn connection_cap_rejects_with_421() {
    let mut s = FTPServer::with_connection_capacity(1);
    let id = connect(&mut s);
    let id2 = s.next_id();
    assert!(!s.new_connection(id2));
    let act = expect_reply(
        &mut s,
        id2,
        b"421 Service not available, closing control connection.\r\n",
    );
    assert!(matches!(act, WriterAction::Close));
    // closing the admitted connection frees a slot
    let _ = s.close_connection(id2);
    let _ = s.close_connection(id);
    let id3 = s.next_id();
    assert!(s.new_connection(id3));
    let _ = id3;
}

#[test]
fn aborted_upload_draws_451() {
    let mut s = FTPServer::new();
    let id = connect(&mut s);
    login(&mut s, id, b"user_abort");
    let data_id = port(&mut s, id);
    let _ = s.handle_line(id, b"STOR ./thing.txt");
    let _ = s.file_done(id, true);
    let _ = expect_reply(
        &mut s,
        id,
        b"150 File status okay; about to open data connection.\r\n",
    );
    // the data socket dies before EOF
    let (also, notify) = s.close_connection(data_id);
    assert!(also.is_none());
    assert_eq!(notify, Some(id));
    expect_reply(
        &mut s,
        id,
        b"451 Requested action aborted. Local error in processing.\r\n",
    );
}

#[test]
fn closing_control_hands_back_its_data_resource() {
    let mut s = FTPServer::new();
    let id = connect(&mut s);
    login(&mut s, id, b"user_close");
    let data_id = port(&mut s, id);
    let (also, notify) = s.close_connection(id);
    assert_eq!(also, Some(data_id));
    assert!(notify.is_none());
    let (also2, notify2) = s.close_connection(data_id);
    assert!(also2.is_none());
    assert!(notify2.is_none());
    // idempotent
    let (also3, notify3) = s.close_connection(id);
    assert!(also3.is_none());
    assert!(notify3.is_none());
}

#[test]
fn partial_writes_rearm() {
    let mut s = FTPServer::new();
    let id = s.next_id();
    assert!(s.new_connection(id));
    let out = s.pending_of(id);
    let act = s.on_writable(id, 3);
    assert!(matches!(act, WriterAction::RearmWrite));
    assert_eq!(s.pending_of(id), out[3..].to_vec());
    let act = s.on_writable(id, out.len() - 3);
    assert!(matches!(act, WriterAction::RearmRead));
    assert_eq!(s.pending_of(id), b"".to_vec());
}
