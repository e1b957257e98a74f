use vstd::prelude::*;
use vstd::utf8::encode_utf8;

verus! {

/// One HTTP response: status code, optional `Content-Type`, and body bytes.
pub struct Reply {
    pub status: u16,
    pub content_type: Option<String>,
    pub body: Vec<u8>,
}

/// The content type of the fixed plain-text replies.
pub const PLAIN_TEXT_TYPE: &'static str = "text/plain; charset=UTF-8";

/// The content type of every reply on an API route.
pub const JSON_TYPE: &'static str = "application/json";

/// A plain-text reply with the given status and `text` as its body.
pub open spec fn is_plain(r: Reply, status: u16, text: Seq<char>) -> bool {
    &&& r.status == status
    &&& r.content_type matches Some(c) && c@ == PLAIN_TEXT_TYPE@
    &&& r.body@ == encode_utf8(text)
}

/// An error reply of an API route: the given status and `text` as its body,
/// marked as JSON like every reply on those routes.
pub open spec fn is_api_error(r: Reply, status: u16, text: Seq<char>) -> bool {
    &&& r.status == status
    &&& r.content_type matches Some(c) && c@ == JSON_TYPE@
    &&& r.body@ == encode_utf8(text)
}

/// A successful reply with the given `Content-Type` and body bytes.
pub open spec fn is_typed(r: Reply, content_type: Seq<char>, body: Seq<u8>) -> bool {
    &&& r.status == 200
    &&& r.content_type matches Some(c) && c@ == content_type
    &&& r.body@ == body
}

/// A successful JSON reply whose body is the UTF-8 encoding of `json`.
pub open spec fn is_json(r: Reply, json: Seq<char>) -> bool {
    is_typed(r, JSON_TYPE@, encode_utf8(json))
}

/// The message a 400 reply carries after its `"400: "` prefix.
pub open spec fn bad_request_text(message: Seq<char>) -> Seq<char> {
    "400: "@ + message
}

fn utf8_bytes(s: &str) -> (r: Vec<u8>)
    ensures
        r@ == encode_utf8(s@),
{
    s.as_bytes_vec()
}

/// The fixed reply to a request that matches no route.
pub fn serve_404() -> (r: Reply)
    ensures
        is_plain(r, 404, "404"@),
{
    Reply {
        status: 404,
        content_type: Some(String::from_str(PLAIN_TEXT_TYPE)),
        body: utf8_bytes("404"),
    }
}

/// The fixed reply to a request that failed on the server's side.
pub fn serve_500() -> (r: Reply)
    ensures
        is_plain(r, 500, "500"@),
{
    Reply {
        status: 500,
        content_type: Some(String::from_str(PLAIN_TEXT_TYPE)),
        body: utf8_bytes("500"),
    }
}

/// The reply to a malformed request, with a message for the client.
pub fn serve_400(message: &str) -> (r: Reply)
    ensures
        is_plain(r, 400, bad_request_text(message@)),
{
    let text = String::from_str("400: ").concat(message);
    Reply {
        status: 400,
        content_type: Some(String::from_str(PLAIN_TEXT_TYPE)),
        body: utf8_bytes(text.as_str()),
    }
}

/// A successful reply that carries `bytes` verbatim under `content_type`.
pub fn serve_bytes(bytes: &[u8], content_type: &str) -> (r: Reply)
    ensures
        is_typed(r, content_type@, bytes@),
{
    Reply {
        status: 200,
        content_type: Some(String::from_str(content_type)),
        body: vstd::slice::slice_to_vec(bytes),
    }
}

/// A successful reply that carries a JSON document.
pub fn serve_json(json: &str) -> (r: Reply)
    ensures
        is_json(r, json@),
{
    serve_bytes(utf8_bytes(json).as_slice(), JSON_TYPE)
}

/// The same reply marked as JSON, as the API routes mark every reply.
pub fn as_api_reply(r: Reply) -> (out: Reply)
    ensures
        out.status == r.status,
        out.content_type matches Some(c) && c@ == JSON_TYPE@,
        out.body@ == r.body@,
{
    Reply { status: r.status, content_type: Some(String::from_str(JSON_TYPE)), body: r.body }
}

} // verus!
