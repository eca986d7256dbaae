//! The command parser: one CRLF-stripped line becomes a tagged command.
//! The verb is matched case-insensitively; arguments are verb-specific.
use vstd::prelude::*;
use vstd::slice::{slice_subrange, slice_to_vec};

verus! {

/// ASCII decimal digit.
pub open spec fn is_digit(b: u8) -> bool {
    48 <= b <= 57
}

/// ASCII upper-casing of one byte.
pub open spec fn to_upper(b: u8) -> u8 {
    if 97 <= b && b <= 122 {
        (b - 32) as u8
    } else {
        b
    }
}

/// ASCII upper-casing of a byte string.
pub open spec fn upper_bytes(s: Seq<u8>) -> Seq<u8> {
    s.map_values(|b: u8| to_upper(b))
}

/// Index of the first occurrence of `sep` in `s`, or `s.len()` if absent.
pub open spec fn find_byte(s: Seq<u8>, sep: u8) -> int
    decreases s.len(),
{
    if s.len() == 0 {
        0
    } else if s[0] == sep {
        0
    } else {
        1 + find_byte(s.drop_first(), sep)
    }
}

pub proof fn lemma_find_byte(s: Seq<u8>, sep: u8)
    ensures
        0 <= find_byte(s, sep) <= s.len(),
        forall|j: int| 0 <= j < find_byte(s, sep) ==> s[j] != sep,
        find_byte(s, sep) < s.len() ==> s[find_byte(s, sep)] == sep,
    decreases s.len(),
{
    if s.len() == 0 {
    } else if s[0] == sep {
    } else {
        lemma_find_byte(s.drop_first(), sep);
        assert forall|j: int| 0 <= j < find_byte(s, sep) implies s[j] != sep by {
            if j > 0 {
                assert(s.drop_first()[j - 1] != sep);
            }
        }
    }
}

/// `find_byte` is the only index with nothing equal to `sep` before it and
/// `sep` (or the end) at it.
pub proof fn lemma_find_byte_is(s: Seq<u8>, sep: u8, i: int)
    requires
        0 <= i <= s.len(),
        forall|j: int| 0 <= j < i ==> s[j] != sep,
        i < s.len() ==> s[i] == sep,
    ensures
        find_byte(s, sep) == i,
    decreases s.len(),
{
    if s.len() == 0 {
    } else if s[0] == sep {
        assert(i == 0);
    } else {
        assert(i >= 1) by {
            if i == 0 {
                assert(s[0] == sep);
            }
        }
        assert forall|j: int| 0 <= j < i - 1 implies s.drop_first()[j] != sep by {
            assert(s[j + 1] != sep);
        }
        lemma_find_byte_is(s.drop_first(), sep, i - 1);
    }
}

/// First index `>= start` holding `sep`, or the length if there is none.
pub fn find_byte_from(s: &[u8], start: usize, sep: u8) -> (i: usize)
    requires
        start <= s@.len(),
    ensures
        start <= i <= s@.len(),
        i - start == find_byte(s@.subrange(start as int, s@.len() as int), sep),
{
    let ghost sub = s@.subrange(start as int, s@.len() as int);
    let mut j = start;
    while j < s.len()
        invariant
            start <= j <= s@.len(),
            sub == s@.subrange(start as int, s@.len() as int),
            forall|k: int| start <= k < j ==> s@[k] != sep,
        decreases s@.len() - j,
    {
        if s[j] == sep {
            proof {
                assert forall|k: int| 0 <= k < j - start implies sub[k] != sep by {
                    assert(s@[k + start] != sep);
                }
                lemma_find_byte_is(sub, sep, j - start);
            }
            return j;
        }
        j = j + 1;
    }
    proof {
        assert forall|k: int| 0 <= k < j - start implies sub[k] != sep by {
            assert(s@[k + start] != sep);
        }
        lemma_find_byte_is(sub, sep, j - start);
    }
    j
}

/// Upper-case a byte slice.
pub fn upper_bytes_exec(s: &[u8]) -> (r: Vec<u8>)
    ensures
        r@ == upper_bytes(s@),
{
    let mut r: Vec<u8> = Vec::new();
    let mut j: usize = 0;
    while j < s.len()
        invariant
            j <= s@.len(),
            r@ == upper_bytes(s@.subrange(0, j as int)),
        decreases s@.len() - j,
    {
        let b = s[j];
        if 97 <= b && b <= 122 {
            r.push(b - 32);
        } else {
            r.push(b);
        }
        proof {
            assert(s@.subrange(0, j + 1).drop_last() =~= s@.subrange(0, j as int));
            assert(upper_bytes(s@.subrange(0, j + 1)) =~= upper_bytes(
                s@.subrange(0, j as int),
            ).push(to_upper(s@[j as int])));
        }
        j = j + 1;
    }
    proof {
        assert(s@.subrange(0, s@.len() as int) =~= s@);
    }
    r
}

/// Byte-string equality.
pub fn bytes_eq(a: &[u8], b: &[u8]) -> (r: bool)
    ensures
        r == (a@ == b@),
{
    if a.len() != b.len() {
        proof {
            assert(a@.len() != b@.len());
        }
        return false;
    }
    let mut j: usize = 0;
    while j < a.len()
        invariant
            j <= a@.len(),
            a@.len() == b@.len(),
            forall|k: int| 0 <= k < j ==> a@[k] == b@[k],
        decreases a@.len() - j,
    {
        if a[j] != b[j] {
            return false;
        }
        j = j + 1;
    }
    proof {
        assert(a@ =~= b@);
    }
    true
}

/// Value of a digit string, most significant first.
pub open spec fn dec_val(s: Seq<u8>) -> nat
    decreases s.len(),
{
    if s.len() == 0 {
        0
    } else {
        dec_val(s.drop_last()) * 10 + (s.last() - 48) as nat
    }
}

/// A valid decimal field for one byte-sized number: one to three digits,
/// value at most 255.
pub open spec fn valid_dec_u8(s: Seq<u8>) -> bool {
    &&& 1 <= s.len() <= 3
    &&& (forall|j: int| 0 <= j < s.len() ==> is_digit(s[j]))
    &&& dec_val(s) <= 255
}

pub open spec fn spec_parse_dec_u8(s: Seq<u8>) -> Option<u8> {
    if valid_dec_u8(s) {
        Some(dec_val(s) as u8)
    } else {
        None
    }
}

/// Parse one decimal field into a byte.
pub fn parse_dec_u8(s: &[u8]) -> (r: Option<u8>)
    ensures
        r == spec_parse_dec_u8(s@),
{
    if s.len() < 1 || s.len() > 3 {
        return None;
    }
    let mut val: u32 = 0;
    let mut j: usize = 0;
    while j < s.len()
        invariant
            j <= s@.len(),
            s@.len() <= 3,
            forall|k: int| 0 <= k < j ==> is_digit(s@[k]),
            val == dec_val(s@.subrange(0, j as int)),
            val <= 999,
        decreases s@.len() - j,
    {
        let b = s[j];
        if b < 48 || b > 57 {
            return None;
        }
        proof {
            assert(s@.subrange(0, j + 1).drop_last() =~= s@.subrange(0, j as int));
            assert(dec_val(s@.subrange(0, j + 1)) == dec_val(s@.subrange(0, j as int)) * 10 + (
            s@[j as int] - 48) as nat);
            assert(dec_val(s@.subrange(0, j as int)) <= 99) by {
                lemma_dec_val_bound(s@.subrange(0, j as int));
            }
        }
        val = val * 10 + ((b - 48) as u32);
        j = j + 1;
    }
    proof {
        assert(s@.subrange(0, s@.len() as int) =~= s@);
    }
    if val > 255 {
        return None;
    }
    Some(val as u8)
}

/// A digit string of length at most `n` is below `10^n`.
proof fn lemma_dec_val_bound(s: Seq<u8>)
    requires
        forall|j: int| 0 <= j < s.len() ==> is_digit(s[j]),
    ensures
        s.len() == 0 ==> dec_val(s) == 0,
        s.len() <= 1 ==> dec_val(s) <= 9,
        s.len() <= 2 ==> dec_val(s) <= 99,
        s.len() <= 3 ==> dec_val(s) <= 999,
    decreases s.len(),
{
    if s.len() > 0 {
        lemma_dec_val_bound(s.drop_last());
    }
}

/// Split on a separator byte; a string without it is one field.
pub open spec fn split_on(s: Seq<u8>, sep: u8) -> Seq<Seq<u8>>
    decreases s.len(),
{
    let i = find_byte(s, sep);
    if 0 <= i < s.len() {
        seq![s.subrange(0, i)] + split_on(s.subrange(i + 1, s.len() as int), sep)
    } else {
        seq![s]
    }
}

/// No field of a split contains the separator.
pub proof fn lemma_split_on_no_sep(s: Seq<u8>, sep: u8)
    ensures
        forall|j: int, k: int|
            0 <= j < split_on(s, sep).len() && 0 <= k < split_on(s, sep)[j].len() ==> split_on(
                s,
                sep,
            )[j][k] != sep,
    decreases s.len(),
{
    lemma_find_byte(s, sep);
    let i = find_byte(s, sep);
    if 0 <= i < s.len() {
        let tail = s.subrange(i + 1, s.len() as int);
        lemma_split_on_no_sep(tail, sep);
        assert forall|j: int, k: int|
            0 <= j < split_on(s, sep).len() && 0 <= k < split_on(s, sep)[j].len() implies split_on(
            s,
            sep,
        )[j][k] != sep by {
            if j == 0 {
                assert(split_on(s, sep)[0] == s.subrange(0, i));
                assert(s[k] != sep);
            } else {
                assert(split_on(s, sep)[j] == split_on(tail, sep)[j - 1]);
            }
        }
    }
}

/// The views of a vector of byte vectors.
pub open spec fn views(s: Seq<Vec<u8>>) -> Seq<Seq<u8>> {
    s.map_values(|v: Vec<u8>| v@)
}

/// Split the tail of `s` starting at `start` on the separator.
pub fn split_from(s: &[u8], start: usize, sep: u8) -> (r: Vec<Vec<u8>>)
    requires
        start <= s@.len(),
    ensures
        views(r@) == split_on(s@.subrange(start as int, s@.len() as int), sep),
    decreases s@.len() - start,
{
    let ghost sub = s@.subrange(start as int, s@.len() as int);
    proof {
        lemma_find_byte(sub, sep);
    }
    let i = find_byte_from(s, start, sep);
    let field = slice_to_vec(slice_subrange(s, start, i));
    assert(field@ =~= sub.subrange(0, i - start));
    if i == s.len() {
        let mut r: Vec<Vec<u8>> = Vec::new();
        r.push(field);
        assert(field@ =~= sub);
        assert(views(r@) =~= split_on(sub, sep));
        r
    } else {
        let mut r = split_from(s, i + 1, sep);
        assert(s@.subrange(i + 1, s@.len() as int) =~= sub.subrange(
            i - start + 1,
            sub.len() as int,
        ));
        r.insert(0, field);
        assert(views(r@) =~= split_on(sub, sep));
        r
    }
}

/// The six comma-separated byte-sized fields of a PORT argument.
pub open spec fn spec_parse_host_port(s: Seq<u8>) -> Option<(u8, u8, u8, u8, u8, u8)> {
    let fs = split_on(s, 44);
    if fs.len() == 6 && (forall|j: int| 0 <= j < 6 ==> valid_dec_u8(fs[j])) {
        Some(
            (
                dec_val(fs[0]) as u8,
                dec_val(fs[1]) as u8,
                dec_val(fs[2]) as u8,
                dec_val(fs[3]) as u8,
                dec_val(fs[4]) as u8,
                dec_val(fs[5]) as u8,
            ),
        )
    } else {
        None
    }
}

/// Parse `h1,h2,h3,h4,p1,p2`.
pub fn parse_host_port(s: &[u8]) -> (r: Option<(u8, u8, u8, u8, u8, u8)>)
    ensures
        r == spec_parse_host_port(s@),
{
    proof {
        assert(s@.subrange(0, s@.len() as int) =~= s@);
    }
    let fields = split_from(s, 0, 44);
    if fields.len() != 6 {
        return None;
    }
    let f0 = parse_dec_u8(fields[0].as_slice());
    let f1 = parse_dec_u8(fields[1].as_slice());
    let f2 = parse_dec_u8(fields[2].as_slice());
    let f3 = parse_dec_u8(fields[3].as_slice());
    let f4 = parse_dec_u8(fields[4].as_slice());
    let f5 = parse_dec_u8(fields[5].as_slice());
    match (f0, f1, f2, f3, f4, f5) {
        (Some(h1), Some(h2), Some(h3), Some(h4), Some(p1), Some(p2)) => Some(
            (h1, h2, h3, h4, p1, p2),
        ),
        _ => None,
    }
}

/// Index of the first CRLF pair in `s`, or `s.len()` if there is none.
pub open spec fn find_crlf(s: Seq<u8>) -> int
    decreases s.len(),
{
    if s.len() < 2 {
        s.len() as int
    } else if s[0] == 13 && s[1] == 10 {
        0
    } else {
        1 + find_crlf(s.drop_first())
    }
}

pub proof fn lemma_find_crlf(s: Seq<u8>)
    ensures
        0 <= find_crlf(s) <= s.len(),
        find_crlf(s) + 1 < s.len() ==> s[find_crlf(s)] == 13 && s[find_crlf(s) + 1] == 10,
        find_crlf(s) < s.len() ==> find_crlf(s) + 1 < s.len(),
    decreases s.len(),
{
    if s.len() < 2 {
    } else if s[0] == 13 && s[1] == 10 {
    } else {
        lemma_find_crlf(s.drop_first());
    }
}

proof fn lemma_find_crlf_is(s: Seq<u8>, i: int)
    requires
        0 <= i <= s.len(),
        forall|j: int|
            0 <= j < i ==> !((#[trigger] s[j]) == 13 && j + 1 < s.len() && s[j + 1] == 10),
        i < s.len() ==> i + 1 < s.len() && s[i] == 13 && s[i + 1] == 10,
    ensures
        find_crlf(s) == i,
    decreases s.len(),
{
    if s.len() < 2 {
        assert(i == s.len());
    } else if s[0] == 13 && s[1] == 10 {
        assert(i == 0);
    } else {
        assert(i >= 1) by {
            if i == 0 {
                assert(s[0] == 13 && s[1] == 10);
            }
        }
        assert forall|j: int|
            0 <= j < i - 1 implies !((#[trigger] s.drop_first()[j]) == 13 && j + 1
            < s.drop_first().len() && s.drop_first()[j + 1] == 10) by {
            assert(!(s[j + 1] == 13 && j + 2 < s.len() && s[j + 2] == 10));
        }
        lemma_find_crlf_is(s.drop_first(), i - 1);
    }
}

/// Take the first complete CRLF-terminated line out of the inbound buffer:
/// the line comes back without its CRLF, and the buffer keeps what follows.
/// Without a complete line the buffer is untouched.
pub fn take_line(buf: &mut Vec<u8>) -> (r: Option<Vec<u8>>)
    ensures
        ({
            let i = find_crlf(old(buf)@);
            if i < old(buf)@.len() {
                &&& r matches Some(line) && line@ == old(buf)@.subrange(0, i)
                &&& final (buf)@ == old(buf)@.skip(i + 2)
            } else {
                &&& r is None
                &&& final (buf)@ == old(buf)@
            }
        }),
{
    proof {
        lemma_find_crlf(buf@);
    }
    let ghost g = buf@;
    let mut j: usize = 0;
    let mut found: bool = false;
    loop
        invariant
            j <= buf@.len(),
            buf@ == g,
            forall|k: int| 0 <= k < j ==> !((#[trigger] g[k]) == 13 && k + 1 < g.len() && g[k + 1] == 10),
            found ==> j + 1 < g.len() && g[j as int] == 13 && g[j + 1] == 10,
        ensures
            buf@ == g,
            found == (find_crlf(g) < g.len()),
            found ==> j as int == find_crlf(g),
        decreases buf@.len() - j,
    {
        if j >= buf.len() {
            proof {
                lemma_find_crlf_is(g, g.len() as int);
            }
            break;
        }
        if j == buf.len() - 1 {
            proof {
                lemma_find_crlf_is(g, g.len() as int);
            }
            break;
        }
        if buf[j] == 13 && buf[j + 1] == 10 {
            found = true;
            proof {
                lemma_find_crlf_is(g, j as int);
            }
            break;
        }
        j = j + 1;
    }
    if found {
        proof {
            assert(buf.len() == buf@.len());
        }
        let line = slice_to_vec(slice_subrange(buf.as_slice(), 0, j));
        let rest = slice_to_vec(slice_subrange(buf.as_slice(), j + 2, buf.len()));
        *buf = rest;
        Some(line)
    } else {
        None
    }
}

/// One parsed FTP command.
pub enum Command {
    User(Vec<u8>),
    Pass(Vec<u8>),
    Quit,
    Port(u8, u8, u8, u8, u8, u8),
    Pasv,
    List(Option<Vec<u8>>),
    Retr(Vec<u8>),
    Stor(Vec<u8>),
    Dele(Vec<u8>),
    Mkd(Vec<u8>),
    Rmd(Vec<u8>),
    Cwd(Vec<u8>),
    Pwd,
    Rnfr(Vec<u8>),
    Rnto(Vec<u8>),
    Noop,
}

/// The mathematical shape of a command, arguments as byte strings.
pub enum CommandModel {
    User(Seq<u8>),
    Pass(Seq<u8>),
    Quit,
    Port(u8, u8, u8, u8, u8, u8),
    Pasv,
    List(Option<Seq<u8>>),
    Retr(Seq<u8>),
    Stor(Seq<u8>),
    Dele(Seq<u8>),
    Mkd(Seq<u8>),
    Rmd(Seq<u8>),
    Cwd(Seq<u8>),
    Pwd,
    Rnfr(Seq<u8>),
    Rnto(Seq<u8>),
    Noop,
}

impl View for Command {
    type V = CommandModel;

    open spec fn view(&self) -> CommandModel {
        match self {
            Command::User(a) => CommandModel::User(a@),
            Command::Pass(a) => CommandModel::Pass(a@),
            Command::Quit => CommandModel::Quit,
            Command::Port(h1, h2, h3, h4, p1, p2) => CommandModel::Port(
                *h1,
                *h2,
                *h3,
                *h4,
                *p1,
                *p2,
            ),
            Command::Pasv => CommandModel::Pasv,
            Command::List(a) => CommandModel::List(
                match a {
                    Some(p) => Some(p@),
                    None => None,
                },
            ),
            Command::Retr(a) => CommandModel::Retr(a@),
            Command::Stor(a) => CommandModel::Stor(a@),
            Command::Dele(a) => CommandModel::Dele(a@),
            Command::Mkd(a) => CommandModel::Mkd(a@),
            Command::Rmd(a) => CommandModel::Rmd(a@),
            Command::Cwd(a) => CommandModel::Cwd(a@),
            Command::Pwd => CommandModel::Pwd,
            Command::Rnfr(a) => CommandModel::Rnfr(a@),
            Command::Rnto(a) => CommandModel::Rnto(a@),
            Command::Noop => CommandModel::Noop,
        }
    }
}

/// Why a line was refused: an unknown verb draws reply 500, bad arguments
/// draw reply 501.
#[derive(PartialEq, Eq, Structural, Clone, Copy, Debug)]
pub enum ParseError {
    UnknownCommand,
    InvalidArguments,
    /// TYPE, MODE and STRU are recognized but out of scope: reply 502.
    NotImplemented,
}

/// The verb of a line: everything before the first space, upper-cased.
pub open spec fn spec_verb(line: Seq<u8>) -> Seq<u8> {
    upper_bytes(line.subrange(0, find_byte(line, 32)))
}

/// The argument of a line: everything after the first space, or nothing.
pub open spec fn spec_arg(line: Seq<u8>) -> Option<Seq<u8>> {
    let i = find_byte(line, 32);
    if i < line.len() {
        Some(line.subrange(i + 1, line.len() as int))
    } else {
        None
    }
}

/// An argument that is present and nonempty.
pub open spec fn arg_nonempty(line: Seq<u8>) -> bool {
    spec_arg(line) matches Some(a) && a.len() > 0
}

/// What the parser accepts: the meaning of each CRLF-stripped line.
pub open spec fn spec_parse(line: Seq<u8>) -> Result<CommandModel, ParseError> {
    let verb = spec_verb(line);
    if verb == seq![85u8, 83u8, 69u8, 82u8] {  // USER
        if arg_nonempty(line) {
            Ok(CommandModel::User(spec_arg(line)->Some_0))
        } else {
            Err(ParseError::InvalidArguments)
        }
    } else if verb == seq![80u8, 65u8, 83u8, 83u8] {  // PASS
        if arg_nonempty(line) {
            Ok(CommandModel::Pass(spec_arg(line)->Some_0))
        } else {
            Err(ParseError::InvalidArguments)
        }
    } else if verb == seq![81u8, 85u8, 73u8, 84u8] {  // QUIT
        Ok(CommandModel::Quit)
    } else if verb == seq![80u8, 79u8, 82u8, 84u8] {  // PORT
        if arg_nonempty(line) && spec_parse_host_port(spec_arg(line)->Some_0) is Some {
            let t = spec_parse_host_port(spec_arg(line)->Some_0)->Some_0;
            Ok(CommandModel::Port(t.0, t.1, t.2, t.3, t.4, t.5))
        } else {
            Err(ParseError::InvalidArguments)
        }
    } else if verb == seq![80u8, 65u8, 83u8, 86u8] {  // PASV
        Ok(CommandModel::Pasv)
    } else if verb == seq![76u8, 73u8, 83u8, 84u8] {  // LIST
        if arg_nonempty(line) {
            Ok(CommandModel::List(Some(spec_arg(line)->Some_0)))
        } else {
            Ok(CommandModel::List(None))
        }
    } else if verb == seq![82u8, 69u8, 84u8, 82u8] {  // RETR
        if arg_nonempty(line) {
            Ok(CommandModel::Retr(spec_arg(line)->Some_0))
        } else {
            Err(ParseError::InvalidArguments)
        }
    } else if verb == seq![83u8, 84u8, 79u8, 82u8] {  // STOR
        if arg_nonempty(line) {
            Ok(CommandModel::Stor(spec_arg(line)->Some_0))
        } else {
            Err(ParseError::InvalidArguments)
        }
    } else if verb == seq![68u8, 69u8, 76u8, 69u8] {  // DELE
        if arg_nonempty(line) {
            Ok(CommandModel::Dele(spec_arg(line)->Some_0))
        } else {
            Err(ParseError::InvalidArguments)
        }
    } else if verb == seq![77u8, 75u8, 68u8] {  // MKD
        if arg_nonempty(line) {
            Ok(CommandModel::Mkd(spec_arg(line)->Some_0))
        } else {
            Err(ParseError::InvalidArguments)
        }
    } else if verb == seq![82u8, 77u8, 68u8] {  // RMD
        if arg_nonempty(line) {
            Ok(CommandModel::Rmd(spec_arg(line)->Some_0))
        } else {
            Err(ParseError::InvalidArguments)
        }
    } else if verb == seq![67u8, 87u8, 68u8] {  // CWD
        if arg_nonempty(line) {
            Ok(CommandModel::Cwd(spec_arg(line)->Some_0))
        } else {
            Err(ParseError::InvalidArguments)
        }
    } else if verb == seq![80u8, 87u8, 68u8] {  // PWD
        Ok(CommandModel::Pwd)
    } else if verb == seq![82u8, 78u8, 70u8, 82u8] {  // RNFR
        if arg_nonempty(line) {
            Ok(CommandModel::Rnfr(spec_arg(line)->Some_0))
        } else {
            Err(ParseError::InvalidArguments)
        }
    } else if verb == seq![82u8, 78u8, 84u8, 79u8] {  // RNTO
        if arg_nonempty(line) {
            Ok(CommandModel::Rnto(spec_arg(line)->Some_0))
        } else {
            Err(ParseError::InvalidArguments)
        }
    } else if verb == seq![78u8, 79u8, 79u8, 80u8] {  // NOOP
        Ok(CommandModel::Noop)
    } else if verb == seq![84u8, 89u8, 80u8, 69u8] || verb == seq![77u8, 79u8, 68u8, 69u8] || verb
        == seq![83u8, 84u8, 82u8, 85u8] {  // TYPE, MODE, STRU
        Err(ParseError::NotImplemented)
    } else {
        Err(ParseError::UnknownCommand)
    }
}

/// The model of a parse result.
pub open spec fn parse_result_model(r: Result<Command, ParseError>) -> Result<
    CommandModel,
    ParseError,
> {
    match r {
        Ok(c) => Ok(c@),
        Err(e) => Err(e),
    }
}

/// Does a four-byte vector spell exactly these bytes?
fn verb_is4(v: &Vec<u8>, a: u8, b: u8, c: u8, d: u8) -> (r: bool)
    ensures
        r == (v@ == seq![a, b, c, d]),
{
    let r = v.len() == 4 && v[0] == a && v[1] == b && v[2] == c && v[3] == d;
    proof {
        if r {
            assert(v@ =~= seq![a, b, c, d]);
        }
    }
    r
}

/// Does a three-byte vector spell exactly these bytes?
fn verb_is3(v: &Vec<u8>, a: u8, b: u8, c: u8) -> (r: bool)
    ensures
        r == (v@ == seq![a, b, c]),
{
    let r = v.len() == 3 && v[0] == a && v[1] == b && v[2] == c;
    proof {
        if r {
            assert(v@ =~= seq![a, b, c]);
        }
    }
    r
}

/// The argument slice of the line, if a space is present.
fn take_arg<'a>(line: &'a [u8], sp: usize) -> (r: Option<&'a [u8]>)
    requires
        sp <= line@.len(),
        sp as int == find_byte(line@, 32),
    ensures
        match r {
            Some(a) => spec_arg(line@) == Some(a@),
            None => spec_arg(line@) is None,
        },
{
    if sp < line.len() {
        Some(slice_subrange(line, sp + 1, line.len()))
    } else {
        None
    }
}

/// An argument that must be present and nonempty, copied out.
fn required_arg(line: &[u8], sp: usize) -> (r: Option<Vec<u8>>)
    requires
        sp <= line@.len(),
        sp as int == find_byte(line@, 32),
    ensures
        match r {
            Some(a) => arg_nonempty(line@) && spec_arg(line@) == Some(a@),
            None => !arg_nonempty(line@),
        },
{
    match take_arg(line, sp) {
        Some(a) => {
            if a.len() > 0 {
                Some(slice_to_vec(a))
            } else {
                None
            }
        },
        None => None,
    }
}

/// Parse one line, CRLF already stripped.
pub fn parse_command(line: &[u8]) -> (r: Result<Command, ParseError>)
    ensures
        parse_result_model(r) == spec_parse(line@),
{
    proof {
        lemma_find_byte(line@, 32);
    }
    let sp = find_byte_from(line, 0, 32);
    proof {
        assert(line@.subrange(0, line@.len() as int) =~= line@);
    }
    let verb = upper_bytes_exec(slice_subrange(line, 0, sp));
    if verb_is4(&verb, 85, 83, 69, 82) {  // USER
        match required_arg(line, sp) {
            Some(a) => Ok(Command::User(a)),
            None => Err(ParseError::InvalidArguments),
        }
    } else if verb_is4(&verb, 80, 65, 83, 83) {  // PASS
        match required_arg(line, sp) {
            Some(a) => Ok(Command::Pass(a)),
            None => Err(ParseError::InvalidArguments),
        }
    } else if verb_is4(&verb, 81, 85, 73, 84) {  // QUIT
        Ok(Command::Quit)
    } else if verb_is4(&verb, 80, 79, 82, 84) {  // PORT
        match required_arg(line, sp) {
            Some(a) => {
                match parse_host_port(a.as_slice()) {
                    Some((h1, h2, h3, h4, p1, p2)) => Ok(Command::Port(h1, h2, h3, h4, p1, p2)),
                    None => Err(ParseError::InvalidArguments),
                }
            },
            None => Err(ParseError::InvalidArguments),
        }
    } else if verb_is4(&verb, 80, 65, 83, 86) {  // PASV
        Ok(Command::Pasv)
    } else if verb_is4(&verb, 76, 73, 83, 84) {  // LIST
        match required_arg(line, sp) {
            Some(a) => Ok(Command::List(Some(a))),
            None => Ok(Command::List(None)),
        }
    } else if verb_is4(&verb, 82, 69, 84, 82) {  // RETR
        match required_arg(line, sp) {
            Some(a) => Ok(Command::Retr(a)),
            None => Err(ParseError::InvalidArguments),
        }
    } else if verb_is4(&verb, 83, 84, 79, 82) {  // STOR
        match required_arg(line, sp) {
            Some(a) => Ok(Command::Stor(a)),
            None => Err(ParseError::InvalidArguments),
        }
    } else if verb_is4(&verb, 68, 69, 76, 69) {  // DELE
        match required_arg(line, sp) {
            Some(a) => Ok(Command::Dele(a)),
            None => Err(ParseError::InvalidArguments),
        }
    } else if verb_is3(&verb, 77, 75, 68) {  // MKD
        match required_arg(line, sp) {
            Some(a) => Ok(Command::Mkd(a)),
            None => Err(ParseError::InvalidArguments),
        }
    } else if verb_is3(&verb, 82, 77, 68) {  // RMD
        match required_arg(line, sp) {
            Some(a) => Ok(Command::Rmd(a)),
            None => Err(ParseError::InvalidArguments),
        }
    } else if verb_is3(&verb, 67, 87, 68) {  // CWD
        match required_arg(line, sp) {
            Some(a) => Ok(Command::Cwd(a)),
            None => Err(ParseError::InvalidArguments),
        }
    } else if verb_is3(&verb, 80, 87, 68) {  // PWD
        Ok(Command::Pwd)
    } else if verb_is4(&verb, 82, 78, 70, 82) {  // RNFR
        match required_arg(line, sp) {
            Some(a) => Ok(Command::Rnfr(a)),
            None => Err(ParseError::InvalidArguments),
        }
    } else if verb_is4(&verb, 82, 78, 84, 79) {  // RNTO
        match required_arg(line, sp) {
            Some(a) => Ok(Command::Rnto(a)),
            None => Err(ParseError::InvalidArguments),
        }
    } else if verb_is4(&verb, 78, 79, 79, 80) {  // NOOP
        Ok(Command::Noop)
    } else if verb_is4(&verb, 84, 89, 80, 69) || verb_is4(&verb, 77, 79, 68, 69) || verb_is4(
        &verb,
        83,
        84,
        82,
        85,
    ) {  // TYPE, MODE, STRU
        Err(ParseError::NotImplemented)
    } else {
        Err(ParseError::UnknownCommand)
    }
}

} // verus!
