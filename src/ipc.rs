//! The one-shot rendezvous over a SEQPACKET UNIX socket: the listener and
//! connector records, and what the listener makes of the datagram it reads.
use vstd::prelude::*;
use vstd::string::*;
use vstd::utf8::*;

use crate::error::{Error, ErrorType};

verus! {

/// Largest payload, in bytes, that one `wait` takes from the socket.
pub const MAX_MESSAGE_LEN: usize = 1024;

/// Backlog the listener asks for when it starts listening.
pub const LISTEN_BACKLOG: usize = 10;

/// The listening end of a rendezvous: the socket's descriptor and the path
/// it is bound to, which `close` unlinks.
pub struct IpcParent {
    fd: i32,
    sock_path: String,
}

impl IpcParent {
    /// The descriptor of the listening socket.
    pub closed spec fn spec_fd(&self) -> i32 {
        self.fd
    }

    /// The path the socket is bound to.
    pub closed spec fn spec_sock_path(&self) -> Seq<char> {
        self.sock_path@
    }

    /// The record of a socket `fd` bound and listening at `sock_path`.
    pub fn from_raw(fd: i32, sock_path: String) -> (r: IpcParent)
        ensures
            r.spec_fd() == fd,
            r.spec_sock_path() == sock_path@,
    {
        IpcParent { fd, sock_path }
    }

    pub fn fd(&self) -> (r: i32)
        ensures
            r == self.spec_fd(),
    {
        self.fd
    }

    pub fn sock_path(&self) -> (r: &String)
        ensures
            r@ == self.spec_sock_path(),
    {
        &self.sock_path
    }
}

/// The connecting end of a rendezvous: the socket's descriptor.
pub struct IpcChild {
    fd: i32,
}

impl IpcChild {
    /// The descriptor of the connected socket.
    pub closed spec fn spec_fd(&self) -> i32 {
        self.fd
    }

    /// The record of a socket `fd` connected to a listener.
    pub fn from_raw(fd: i32) -> (r: IpcChild)
        ensures
            r.spec_fd() == fd,
    {
        IpcChild { fd }
    }

    pub fn fd(&self) -> (r: i32)
        ensures
            r == self.spec_fd(),
    {
        self.fd
    }
}

/// The characters that `char::is_whitespace` accepts: Unicode's `White_Space`.
pub open spec fn is_white_space(c: char) -> bool {
    let u = c as u32;
    (0x9 <= u && u <= 0xd) || u == 0x20 || u == 0x85 || u == 0xa0 || u == 0x1680
        || (0x2000 <= u && u <= 0x200a) || u == 0x2028 || u == 0x2029 || u == 0x202f
        || u == 0x205f || u == 0x3000
}

/// `s` without its leading white space.
pub open spec fn trim_start(s: Seq<char>) -> Seq<char>
    decreases s.len(),
{
    if s.len() > 0 && is_white_space(s[0]) {
        trim_start(s.drop_first())
    } else {
        s
    }
}

/// `s` without its trailing white space.
pub open spec fn trim_end(s: Seq<char>) -> Seq<char>
    decreases s.len(),
{
    if s.len() > 0 && is_white_space(s.last()) {
        trim_end(s.drop_last())
    } else {
        s
    }
}

/// `s` without white space at either end.
pub open spec fn trim(s: Seq<char>) -> Seq<char> {
    trim_end(trim_start(s))
}

/// The bytes of a datagram that the listener keeps: at most the first
/// `MAX_MESSAGE_LEN`.
pub open spec fn received(bytes: Seq<u8>) -> Seq<u8> {
    if bytes.len() <= MAX_MESSAGE_LEN {
        bytes
    } else {
        bytes.subrange(0, MAX_MESSAGE_LEN as int)
    }
}

/// What `wait` returns for a datagram: the kept bytes decoded as UTF-8 and
/// trimmed, or nothing where they are not UTF-8.
pub open spec fn message_of(bytes: Seq<u8>) -> Option<Seq<char>> {
    if valid_utf8(received(bytes)) {
        Some(trim(decode_utf8(received(bytes))))
    } else {
        None
    }
}

/// Relies on `String::from_utf8`: it succeeds exactly on valid UTF-8 and then
/// holds the characters those bytes encode.
#[verifier::external_body]
fn string_from_utf8(bytes: Vec<u8>) -> (r: Option<String>)
    ensures
        r is Some <==> valid_utf8(bytes@),
        r matches Some(s) ==> s@ == decode_utf8(bytes@),
{
    String::from_utf8(bytes).ok()
}

/// Whether `c` is white space, as `char::is_whitespace` decides it.
pub fn is_white_space_char(c: char) -> (r: bool)
    ensures
        r == is_white_space(c),
{
    let u = c as u32;
    (0x9 <= u && u <= 0xd) || u == 0x20 || u == 0x85 || u == 0xa0 || u == 0x1680
        || (0x2000 <= u && u <= 0x200a) || u == 0x2028 || u == 0x2029 || u == 0x202f
        || u == 0x205f || u == 0x3000
}

/// `s` without white space at either end.
pub fn trim_whitespace(s: &str) -> (r: String)
    ensures
        r@ == trim(s@),
{
    let n = s.unicode_len();
    let mut i: usize = 0;
    assert(s@.subrange(0, n as int) =~= s@);
    while i < n && is_white_space_char(s.get_char(i))
        invariant
            n == s@.len(),
            i <= n,
            trim_start(s@) == trim_start(s@.subrange(i as int, n as int)),
        decreases n - i,
    {
        let ghost t = s@.subrange(i as int, n as int);
        assert(t.drop_first() =~= s@.subrange(i + 1, n as int));
        i = i + 1;
    }
    assert(trim_start(s@) == s@.subrange(i as int, n as int));
    let ghost t = s@.subrange(i as int, n as int);
    let mut j: usize = n;
    assert(t =~= s@.subrange(i as int, j as int));
    while j > i && is_white_space_char(s.get_char(j - 1))
        invariant
            n == s@.len(),
            i <= j <= n,
            t == s@.subrange(i as int, n as int),
            trim_end(t) == trim_end(s@.subrange(i as int, j as int)),
        decreases j - i,
    {
        let ghost u = s@.subrange(i as int, j as int);
        assert(u.drop_last() =~= s@.subrange(i as int, j - 1));
        j = j - 1;
    }
    s.substring_char(i, j).to_owned()
}

/// What the listener makes of the `n` bytes it read into `buf`: the first
/// `MAX_MESSAGE_LEN` of them, decoded as UTF-8 and trimmed; a `Runtime` error
/// where they are not UTF-8.
pub fn decode_message(buf: &[u8], n: usize) -> (r: Result<String, Error>)
    requires
        n <= buf@.len(),
    ensures
        r is Ok <==> message_of(buf@.subrange(0, n as int)) is Some,
        r matches Ok(s) ==> Some(s@) == message_of(buf@.subrange(0, n as int)),
        r matches Err(e) ==> e.err_type == ErrorType::Runtime,
{
    let k: usize = if n <= MAX_MESSAGE_LEN { n } else { MAX_MESSAGE_LEN };
    let mut kept: Vec<u8> = Vec::new();
    let mut i: usize = 0;
    while i < k
        invariant
            k <= n <= buf@.len(),
            i <= k,
            kept@ == buf@.subrange(0, i as int),
        decreases k - i,
    {
        kept.push(buf[i]);
        assert(kept@ =~= buf@.subrange(0, i + 1));
        i = i + 1;
    }
    assert(kept@ =~= received(buf@.subrange(0, n as int)));
    match string_from_utf8(kept) {
        Some(text) => Ok(trim_whitespace(text.as_str())),
        None => Err(Error::runtime("error while converting byte to string".to_string())),
    }
}

/// A notification is received as sent, trimmed: whatever `notify(m)` writes
/// (the UTF-8 bytes of `m`), when it fits in `MAX_MESSAGE_LEN` bytes, is
/// turned by the listener into `m` without white space at its ends.
pub proof fn lemma_notify_wait(m: Seq<char>)
    requires
        encode_utf8(m).len() <= MAX_MESSAGE_LEN,
    ensures
        message_of(encode_utf8(m)) == Some(trim(m)),
{
    encode_utf8_valid_utf8(m);
    encode_utf8_decode_utf8(m);
}

} // verus!
