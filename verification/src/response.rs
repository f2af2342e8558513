//! The fixed HTTP/1.1 response.
//!
//! The responder answers every client with the same bytes: a status
//! line, three headers, a blank line, the HTML body, and a trailing
//! blank line, each line ended by CRLF. They are transmitted as seven
//! discrete segments, each handed to the reliable-write loop on its own.

use vstd::prelude::*;
use vstd::string::*;

verus! {

/// How many discrete segments a served connection transmits.
pub const SEGMENT_COUNT: usize = 7;

/// The bytes of segment `i` of the response, in transmission order:
/// status line, server header, content-type header, connection-closed
/// header, blank line, HTML body, trailing blank line.
pub open spec fn segment_bytes(i: int) -> Seq<u8> {
    if i == 0 {
        "HTTP/1.1 200 OK\r\n".spec_bytes()
    } else if i == 1 {
        "Server: htpt\r\n".spec_bytes()
    } else if i == 2 {
        "Content-Type: text/html\r\n".spec_bytes()
    } else if i == 3 {
        "Connection: Closed\r\n".spec_bytes()
    } else if i == 4 {
        "\r\n".spec_bytes()
    } else if i == 5 {
        "<h1>Hello World!</h1>\n".spec_bytes()
    } else {
        "\r\n".spec_bytes()
    }
}

/// The full response: the seven segments, concatenated in order.
pub open spec fn response_bytes() -> Seq<u8> {
    segment_bytes(0) + segment_bytes(1) + segment_bytes(2) + segment_bytes(3) + segment_bytes(4)
        + segment_bytes(5) + segment_bytes(6)
}

/// The seven response segments as byte vectors, in the order they are
/// transmitted.
pub fn response_segments() -> (r: Vec<Vec<u8>>)
    ensures
        r@.len() == SEGMENT_COUNT,
        forall|i: int| 0 <= i < SEGMENT_COUNT ==> r@[i]@ == segment_bytes(i),
{
    let mut r: Vec<Vec<u8>> = Vec::new();
    r.push("HTTP/1.1 200 OK\r\n".as_bytes_vec());
    r.push("Server: htpt\r\n".as_bytes_vec());
    r.push("Content-Type: text/html\r\n".as_bytes_vec());
    r.push("Connection: Closed\r\n".as_bytes_vec());
    r.push("\r\n".as_bytes_vec());
    r.push("<h1>Hello World!</h1>\n".as_bytes_vec());
    r.push("\r\n".as_bytes_vec());
    r
}

/// The full response as one byte vector.
pub fn response() -> (r: Vec<u8>)
    ensures
        r@ == response_bytes(),
{
    let mut r: Vec<u8> = "HTTP/1.1 200 OK\r\n".as_bytes_vec();
    let mut s1: Vec<u8> = "Server: htpt\r\n".as_bytes_vec();
    let mut s2: Vec<u8> = "Content-Type: text/html\r\n".as_bytes_vec();
    let mut s3: Vec<u8> = "Connection: Closed\r\n".as_bytes_vec();
    let mut s4: Vec<u8> = "\r\n".as_bytes_vec();
    let mut s5: Vec<u8> = "<h1>Hello World!</h1>\n".as_bytes_vec();
    let mut s6: Vec<u8> = "\r\n".as_bytes_vec();
    r.append(&mut s1);
    r.append(&mut s2);
    r.append(&mut s3);
    r.append(&mut s4);
    r.append(&mut s5);
    r.append(&mut s6);
    r
}

} // verus!
