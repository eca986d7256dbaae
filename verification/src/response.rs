//! Numeric FTP replies and their on-wire encoding: `"<code> <text>\r\n"`.
use vstd::prelude::*;
use vstd::string::StrSliceExecFns;
use vstd::string::StringSliceAdditionalSpecFns;

verus! {

/// A three-digit FTP reply code.
pub struct Response(pub u16);

impl Response {
    /// 150: file status okay; about to open data connection.
    pub fn file_status_okay() -> (r: Response)
        ensures
            r.0 == 150,
    {
        Response(150)
    }

    /// 200: command okay.
    pub fn command_okay() -> (r: Response)
        ensures
            r.0 == 200,
    {
        Response(200)
    }

    /// 220: service ready for new user.
    pub fn service_ready() -> (r: Response)
        ensures
            r.0 == 220,
    {
        Response(220)
    }

    /// 221: service closing control connection.
    pub fn closing_control() -> (r: Response)
        ensures
            r.0 == 221,
    {
        Response(221)
    }

    /// 226: closing data connection, action successful.
    pub fn closing_data_connection() -> (r: Response)
        ensures
            r.0 == 226,
    {
        Response(226)
    }

    /// 227: entering passive mode.
    pub fn entering_passive_mode() -> (r: Response)
        ensures
            r.0 == 227,
    {
        Response(227)
    }

    /// 230: user logged in.
    pub fn logged_in() -> (r: Response)
        ensures
            r.0 == 230,
    {
        Response(230)
    }

    /// 250: requested file action okay, completed.
    pub fn file_action_okay() -> (r: Response)
        ensures
            r.0 == 250,
    {
        Response(250)
    }

    /// 257: pathname created.
    pub fn pathname_created() -> (r: Response)
        ensures
            r.0 == 257,
    {
        Response(257)
    }

    /// 331: user name okay, need password.
    pub fn username_okay() -> (r: Response)
        ensures
            r.0 == 331,
    {
        Response(331)
    }

    /// 350: requested file action pending further information.
    pub fn pending_further_information() -> (r: Response)
        ensures
            r.0 == 350,
    {
        Response(350)
    }

    /// 421: service not available.
    pub fn service_not_available() -> (r: Response)
        ensures
            r.0 == 421,
    {
        Response(421)
    }

    /// 425: can't open data connection.
    pub fn cant_open_data_connection() -> (r: Response)
        ensures
            r.0 == 425,
    {
        Response(425)
    }

    /// 450: requested file action not taken (transient).
    pub fn file_action_not_taken() -> (r: Response)
        ensures
            r.0 == 450,
    {
        Response(450)
    }

    /// 451: requested action aborted, local error in processing.
    pub fn local_error() -> (r: Response)
        ensures
            r.0 == 451,
    {
        Response(451)
    }

    /// 500: syntax error, command unrecognized.
    pub fn syntax_error() -> (r: Response)
        ensures
            r.0 == 500,
    {
        Response(500)
    }

    /// 501: syntax error in parameters or arguments.
    pub fn syntax_error_arguments() -> (r: Response)
        ensures
            r.0 == 501,
    {
        Response(501)
    }

    /// 502: command not implemented.
    pub fn not_implemented() -> (r: Response)
        ensures
            r.0 == 502,
    {
        Response(502)
    }

    /// 530: not logged in.
    pub fn not_logged_in() -> (r: Response)
        ensures
            r.0 == 530,
    {
        Response(530)
    }

    /// 550: requested action not taken, file unavailable.
    pub fn file_unavailable() -> (r: Response)
        ensures
            r.0 == 550,
    {
        Response(550)
    }
}

/// The decimal digits of `n`, most significant first, as ASCII bytes.
pub open spec fn dec_digits(n: nat) -> Seq<u8>
    decreases n,
{
    if n < 10 {
        seq![(48 + n) as u8]
    } else {
        dec_digits(n / 10) + seq![(48 + n % 10) as u8]
    }
}

/// Render `n` in decimal ASCII.
pub fn u64_to_dec(n: u64) -> (r: Vec<u8>)
    ensures
        r@ == dec_digits(n as nat),
    decreases n,
{
    if n < 10 {
        let mut v: Vec<u8> = Vec::new();
        v.push(48 + (n as u8));
        assert(v@ =~= dec_digits(n as nat));
        v
    } else {
        let mut v = u64_to_dec(n / 10);
        v.push(48 + ((n % 10) as u8));
        assert(v@ =~= dec_digits(n as nat));
        v
    }
}

/// The wire form of a reply: code in decimal, a space, the text, CRLF.
pub open spec fn response_bytes(code: nat, text: Seq<u8>) -> Seq<u8> {
    dec_digits(code) + seq![32u8] + text + seq![13u8, 10u8]
}

/// Encode one reply line for the control connection.
pub fn create_response(response_code: Response, message: &str) -> (r: Vec<u8>)
    ensures
        r@ == response_bytes(response_code.0 as nat, message.spec_bytes()),
{
    let mut r = u64_to_dec(response_code.0 as u64);
    r.push(32);
    let mut msg = message.as_bytes_vec();
    r.append(&mut msg);
    r.push(13);
    r.push(10);
    assert(r@ =~= response_bytes(response_code.0 as nat, message.spec_bytes()));
    r
}

/// Encode one reply line whose text is already in bytes.
pub fn create_response_bytes(code: u16, text: &[u8]) -> (r: Vec<u8>)
    ensures
        r@ == response_bytes(code as nat, text@),
{
    let mut r = u64_to_dec(code as u64);
    r.push(32);
    let mut msg = vstd::slice::slice_to_vec(text);
    r.append(&mut msg);
    r.push(13);
    r.push(10);
    assert(r@ =~= response_bytes(code as nat, text@));
    r
}

/// The text of the 227 reply advertising the passive listener at
/// 127.0.0.1 with the given port split as `p1 * 256 + p2`.
pub open spec fn pasv_text(p1: u8, p2: u8) -> Seq<u8> {
    "Entering Passive Mode. (127,0,0,1,".spec_bytes() + dec_digits(p1 as nat) + seq![44u8]
        + dec_digits(p2 as nat) + seq![41u8]
}

/// The full 227 reply for a listener on this port.
pub fn pasv_reply(port: u16) -> (r: Vec<u8>)
    ensures
        r@ == response_bytes(227, pasv_text((port / 256) as u8, (port % 256) as u8)),
{
    let p1 = (port / 256) as u8;
    let p2 = (port % 256) as u8;
    let mut text = "Entering Passive Mode. (127,0,0,1,".as_bytes_vec();
    let mut d1 = u64_to_dec(p1 as u64);
    text.append(&mut d1);
    text.push(44);
    let mut d2 = u64_to_dec(p2 as u64);
    text.append(&mut d2);
    text.push(41);
    assert(text@ =~= pasv_text(p1, p2));
    create_response_bytes(227, text.as_slice())
}

/// The text of the 257 reply after MKD: the new directory's name in single
/// quotes.
pub open spec fn mkd_text(name: Seq<u8>) -> Seq<u8> {
    seq![39u8] + name + "' directory created.".spec_bytes()
}

/// The full 257 reply after MKD.
pub fn mkd_reply(name: &[u8]) -> (r: Vec<u8>)
    ensures
        r@ == response_bytes(257, mkd_text(name@)),
{
    let mut text: Vec<u8> = Vec::new();
    text.push(39);
    let mut n = vstd::slice::slice_to_vec(name);
    text.append(&mut n);
    let mut tail = "' directory created.".as_bytes_vec();
    text.append(&mut tail);
    assert(text@ =~= mkd_text(name@));
    create_response_bytes(257, text.as_slice())
}

/// A minimal HTTP response around `data`, handy when poking the listener
/// with a web client.
pub fn get_test_html(data: &str) -> (r: Vec<u8>)
    ensures
        r@ == "HTTP/1.1 200 OK\r\nContent-Length: ".spec_bytes() + dec_digits(
            (data.spec_bytes().len() as usize) as nat,
        ) + "\r\n\r\n".spec_bytes() + data.spec_bytes(),
{
    let mut r = "HTTP/1.1 200 OK\r\nContent-Length: ".as_bytes_vec();
    let mut len_digits = u64_to_dec(data.len() as u64);
    r.append(&mut len_digits);
    let mut sep = "\r\n\r\n".as_bytes_vec();
    r.append(&mut sep);
    let mut body = data.as_bytes_vec();
    r.append(&mut body);
    assert(r@ =~= "HTTP/1.1 200 OK\r\nContent-Length: ".spec_bytes() + dec_digits(
        (data.spec_bytes().len() as usize) as nat,
    ) + "\r\n\r\n".spec_bytes() + data.spec_bytes());
    r
}

} // verus!
