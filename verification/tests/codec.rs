use ftp_server::response::{
    create_response, create_response_bytes, get_test_html, mkd_reply, pasv_reply, u64_to_dec,
    Response,
};

#[test]
fn greeting_wire_form() {
    let r = create_response(Response::service_ready(), "Service ready for new user.");
    assert_eq!(r, b"220 Service ready for new user.\r\n".to_vec());
}

#[test]
fn decimal_rendering() {
    assert_eq!(u64_to_dec(0), b"0".to_vec());
    assert_eq!(u64_to_dec(7), b"7".to_vec());
    assert_eq!(u64_to_dec(226), b"226".to_vec());
    assert_eq!(u64_to_dec(50000), b"50000".to_vec());
    assert_eq!(u64_to_dec(65535), b"65535".to_vec());
}

#[test]
fn reply_codes() {
    assert_eq!(Response::file_status_okay().0, 150);
    assert_eq!(Response::command_okay().0, 200);
    assert_eq!(Response::service_ready().0, 220);
    assert_eq!(Response::closing_control().0, 221);
    assert_eq!(Response::closing_data_connection().0, 226);
    assert_eq!(Response::entering_passive_mode().0, 227);
    assert_eq!(Response::logged_in().0, 230);
    assert_eq!(Response::file_action_okay().0, 250);
    assert_eq!(Response::pathname_created().0, 257);
    assert_eq!(Response::username_okay().0, 331);
    assert_eq!(Response::pending_further_information().0, 350);
    assert_eq!(Response::service_not_available().0, 421);
    assert_eq!(Response::cant_open_data_connection().0, 425);
    assert_eq!(Response::file_action_not_taken().0, 450);
    assert_eq!(Response::local_error().0, 451);
    assert_eq!(Response::syntax_error().0, 500);
    assert_eq!(Response::syntax_error_arguments().0, 501);
    assert_eq!(Response::not_implemented().0, 502);
    assert_eq!(Response::not_logged_in().0, 530);
    assert_eq!(Response::file_unavailable().0, 550);
    let r = create_response(Response::username_okay(), "User name okay, need password.");
    assert_eq!(r, b"331 User name okay, need password.\r\n".to_vec());
}

#[test]
fn byte_text_reply() {
    let r = create_response_bytes(257, b"/thing");
    assert_eq!(r, b"257 /thing\r\n".to_vec());
}

#[test]
fn pasv_reply_embeds_address_tuple() {
    // 50000 = 195 * 256 + 80
    let r = pasv_reply(50000);
    assert_eq!(r, b"227 Entering Passive Mode. (127,0,0,1,195,80)\r\n".to_vec());
}

#[test]
fn mkd_reply_quotes_the_name() {
    let r = mkd_reply(b"test");
    assert_eq!(r, b"257 'test' directory created.\r\n".to_vec());
}

#[test]
fn test_html_wrapping() {
    let r = get_test_html("hi");
    assert_eq!(r, b"HTTP/1.1 200 OK\r\nContent-Length: 2\r\n\r\nhi".to_vec());
}
