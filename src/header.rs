//! The reply headers that the proxy sends to its clients.
use vstd::prelude::*;
use crate::decimal::{decimal, push_decimal};

verus! {

/// `Content-Range` line of a partial reply that carries `content_length`
/// bytes starting at offset `resume_from`.
pub open spec fn content_range_line(content_length: nat, resume_from: nat) -> Seq<char> {
    "Content-Range: bytes "@ + decimal(resume_from) + "-"@ + decimal(
        (content_length + resume_from - 1) as nat,
    ) + "/"@ + decimal(content_length + resume_from) + "\r\n"@
}

/// The whole reply header: status line, server and date lines, the
/// `Content-Range` line when the reply resumes, `Content-Length`, and the
/// blank line that ends the header.
pub open spec fn header_text(
    status_line: Seq<char>,
    date: Seq<char>,
    content_length: nat,
    resume_from: Option<u64>,
) -> Seq<char> {
    let range_part = match resume_from {
        Some(r) => content_range_line(content_length, r as nat),
        None => Seq::<char>::empty(),
    };
    "HTTP/1.1 "@ + status_line + "\r\nServer: flexo\r\nDate: "@ + date + "\r\n"@ + range_part
        + "Content-Length: "@ + decimal(content_length) + "\r\n\r\n"@
}

/// The header of a redirect to `location`.
pub open spec fn redirect_text(date: Seq<char>, location: Seq<char>) -> Seq<char> {
    "HTTP/1.1 301 Moved Permanently\r\nServer: flexo\r\nDate: "@ + date
        + "\r\nContent-Length: 0\r\nLocation: "@ + location + "\r\n\r\n"@
}

/// A partial reply must name a last byte: it covers at least one byte of
/// the object, and the object's size fits in 64 bits.
pub open spec fn range_fits(content_length: u64, resume_from: Option<u64>) -> bool {
    match resume_from {
        Some(r) => 1 <= content_length + r <= u64::MAX,
        None => true,
    }
}

/// Relies on time::now_utc and Tm::rfc822: the current UTC time as RFC 822
/// text. It depends on the clock, so nothing is stated of it.
#[verifier::external_body]
fn now_rfc822() -> (r: String) {
    time::now_utc().rfc822().to_string()
}

/// Builds the reply header for `status_line` dated `date`.
pub fn format_reply_header(
    status_line: &str,
    date: &str,
    content_length: u64,
    resume_from: Option<u64>,
) -> (r: String)
    requires
        range_fits(content_length, resume_from),
    ensures
        r@ == header_text(status_line@, date@, content_length as nat, resume_from),
{
    let mut h = String::new();
    h.append("HTTP/1.1 ");
    h.append(status_line);
    h.append("\r\nServer: flexo\r\nDate: ");
    h.append(date);
    h.append("\r\n");
    let ghost before_range = h@;
    match resume_from {
        Some(r) => {
            let complete_size = content_length + r;
            let last_byte = complete_size - 1;
            h.append("Content-Range: bytes ");
            push_decimal(&mut h, r);
            h.append("-");
            push_decimal(&mut h, last_byte);
            h.append("/");
            push_decimal(&mut h, complete_size);
            h.append("\r\n");
            assert(h@ =~= before_range + content_range_line(content_length as nat, r as nat));
        },
        None => {
            assert(h@ =~= before_range + Seq::<char>::empty());
        },
    }
    h.append("Content-Length: ");
    push_decimal(&mut h, content_length);
    h.append("\r\n\r\n");
    assert(h@ =~= header_text(status_line@, date@, content_length as nat, resume_from));
    h
}

/// Builds the reply header for `status_line`, dated now.
pub fn reply_header(status_line: &str, content_length: u64, resume_from: Option<u64>) -> (r: String)
    requires
        range_fits(content_length, resume_from),
    ensures
        exists|date: Seq<char>|
            r@ == header_text(status_line@, date, content_length as nat, resume_from),
{
    let date = now_rfc822();
    format_reply_header(status_line, date.as_str(), content_length, resume_from)
}

/// Header of a full reply of `content_length` bytes.
pub fn reply_header_success(content_length: u64) -> (r: String)
    ensures
        exists|date: Seq<char>| r@ == header_text("200 OK"@, date, content_length as nat, None),
{
    reply_header("200 OK", content_length, None)
}

/// Header of a reply that carries `content_length` bytes from offset
/// `resume_from` on.
pub fn reply_header_partial(content_length: u64, resume_from: u64) -> (r: String)
    requires
        range_fits(content_length, Some(resume_from)),
    ensures
        exists|date: Seq<char>|
            r@ == header_text(
                "206 Partial Content"@,
                date,
                content_length as nat,
                Some(resume_from),
            ),
{
    reply_header("206 Partial Content", content_length, Some(resume_from))
}

pub fn reply_header_not_found() -> (r: String)
    ensures
        exists|date: Seq<char>| r@ == header_text("404 Not Found"@, date, 0, None),
{
    reply_header("404 Not Found", 0, None)
}

pub fn reply_header_bad_request() -> (r: String)
    ensures
        exists|date: Seq<char>| r@ == header_text("400 Bad Request"@, date, 0, None),
{
    reply_header("400 Bad Request", 0, None)
}

pub fn reply_header_internal_server_error() -> (r: String)
    ensures
        exists|date: Seq<char>| r@ == header_text("500 Internal Server Error"@, date, 0, None),
{
    reply_header("500 Internal Server Error", 0, None)
}

pub fn reply_header_forbidden() -> (r: String)
    ensures
        exists|date: Seq<char>| r@ == header_text("403 Forbidden"@, date, 0, None),
{
    reply_header("403 Forbidden", 0, None)
}

/// Builds the redirect header to `location` dated `date`.
pub fn format_redirect_header(date: &str, location: &str) -> (r: String)
    ensures
        r@ == redirect_text(date@, location@),
{
    let mut h = String::new();
    h.append("HTTP/1.1 301 Moved Permanently\r\nServer: flexo\r\nDate: ");
    h.append(date);
    h.append("\r\nContent-Length: 0\r\nLocation: ");
    h.append(location);
    h.append("\r\n\r\n");
    assert(h@ =~= redirect_text(date@, location@));
    h
}

/// Builds the redirect header to `location`, dated now.
pub fn redirect_header(location: &str) -> (r: String)
    ensures
        exists|date: Seq<char>| r@ == redirect_text(date, location@),
{
    let date = now_rfc822();
    format_redirect_header(date.as_str(), location)
}

} // verus!
