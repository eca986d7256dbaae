use ftp_server::command::{parse_command, take_line, Command, ParseError};

#[test]
fn user_and_pass() {
    match parse_command(b"USER user_a") {
        Ok(Command::User(name)) => assert_eq!(name, b"user_a".to_vec()),
        other => panic!("unexpected: {:?}", other.is_ok()),
    }
    match parse_command(b"PASS 123456") {
        Ok(Command::Pass(pw)) => assert_eq!(pw, b"123456".to_vec()),
        _ => panic!("PASS not parsed"),
    }
}

#[test]
fn verbs_are_case_insensitive() {
    assert!(matches!(parse_command(b"quit"), Ok(Command::Quit)));
    assert!(matches!(parse_command(b"QuIt"), Ok(Command::Quit)));
    assert!(matches!(parse_command(b"noop"), Ok(Command::Noop)));
    assert!(matches!(parse_command(b"pwd"), Ok(Command::Pwd)));
}

#[test]
fn port_decodes_address_and_port() {
    match parse_command(b"PORT 127,0,0,1,8,186") {
        Ok(Command::Port(h1, h2, h3, h4, p1, p2)) => {
            assert_eq!((h1, h2, h3, h4), (127, 0, 0, 1));
            // port = p1 * 256 + p2
            assert_eq!(p1 as u16 * 256 + p2 as u16, 2234);
        },
        _ => panic!("PORT not parsed"),
    }
}

#[test]
fn port_rejects_bad_fields() {
    assert!(matches!(
        parse_command(b"PORT 127,0,0,1,8"),
        Err(ParseError::InvalidArguments)
    ));
    assert!(matches!(
        parse_command(b"PORT 127,0,0,1,8,999"),
        Err(ParseError::InvalidArguments)
    ));
    assert!(matches!(
        parse_command(b"PORT 127,0,0,1,8,x"),
        Err(ParseError::InvalidArguments)
    ));
    assert!(matches!(parse_command(b"PORT"), Err(ParseError::InvalidArguments)));
}

#[test]
fn unknown_verb_and_missing_args() {
    assert!(matches!(parse_command(b"FEAT"), Err(ParseError::UnknownCommand)));
    assert!(matches!(parse_command(b""), Err(ParseError::UnknownCommand)));
    assert!(matches!(parse_command(b"USER"), Err(ParseError::InvalidArguments)));
    assert!(matches!(parse_command(b"RETR "), Err(ParseError::InvalidArguments)));
}

#[test]
fn list_takes_an_optional_path() {
    assert!(matches!(parse_command(b"LIST"), Ok(Command::List(None))));
    match parse_command(b"LIST ./thing") {
        Ok(Command::List(Some(p))) => assert_eq!(p, b"./thing".to_vec()),
        _ => panic!("LIST path not parsed"),
    }
}

#[test]
fn path_verbs_carry_their_argument() {
    match parse_command(b"STOR ./thing.txt") {
        Ok(Command::Stor(p)) => assert_eq!(p, b"./thing.txt".to_vec()),
        _ => panic!("STOR not parsed"),
    }
    match parse_command(b"MKD /test") {
        Ok(Command::Mkd(p)) => assert_eq!(p, b"/test".to_vec()),
        _ => panic!("MKD not parsed"),
    }
    match parse_command(b"RNFR /a") {
        Ok(Command::Rnfr(p)) => assert_eq!(p, b"/a".to_vec()),
        _ => panic!("RNFR not parsed"),
    }
}

#[test]
fn take_line_splits_on_crlf() {
    let mut buf = b"USER a\r\nPASS b\r\nQUI".to_vec();
    assert_eq!(take_line(&mut buf), Some(b"USER a".to_vec()));
    assert_eq!(take_line(&mut buf), Some(b"PASS b".to_vec()));
    assert_eq!(take_line(&mut buf), None);
    assert_eq!(buf, b"QUI".to_vec());
    buf.extend_from_slice(b"T\r\n");
    assert_eq!(take_line(&mut buf), Some(b"QUIT".to_vec()));
    assert_eq!(buf, b"".to_vec());
}

#[test]
fn take_line_ignores_bare_carriage_return() {
    let mut buf = b"A\rB\r\n".to_vec();
    assert_eq!(take_line(&mut buf), Some(b"A\rB".to_vec()));
}
