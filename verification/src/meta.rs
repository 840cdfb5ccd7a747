//! The server's metadata value: what is asked of the server, and how the
//! value is read out of its answer.

use vstd::prelude::*;
use crate::outside::{regex_capture, regex_group};

verus! {

/// The regular expression whose first group is the metadata value: the word
/// `meta`, a bar, then everything up to the next blank or line end.
pub open spec fn meta_pattern() -> Seq<char> {
    "meta\\|([^ \\n\\r]+)"@
}

/// The verb of the question.
pub open spec fn meta_method() -> Seq<char> {
    "POST"@
}

/// The address that the question goes to.
pub open spec fn meta_endpoint() -> Seq<char> {
    "https://www.growtopia1.com/growtopia/server_data.php"@
}

/// The form body of the question.
pub open spec fn meta_form() -> Seq<char> {
    "version=5.11&platform=0&protocol=216"@
}

/// The headers of the question, each a name and a value, in order.
pub open spec fn meta_headers() -> Seq<(Seq<char>, Seq<char>)> {
    seq![
        ("Host"@, "www.growtopia1.com"@),
        ("User-Agent"@, "UbiServices_SDK_2022.Release.9_PC64_ansi_static"@),
        ("Accept"@, "*/*"@),
        ("Content-Type"@, "application/x-www-form-urlencoded"@),
        ("Cache-Control"@, "no-cache"@),
        ("Content-Length"@, "36"@),
    ]
}

/// The names and values of `headers` as texts, in order.
pub open spec fn header_texts(headers: Seq<(&'static str, &'static str)>) -> Seq<
    (Seq<char>, Seq<char>),
> {
    Seq::new(headers.len(), |i: int| (headers[i].0@, headers[i].1@))
}

/// What is sent to the server to learn its metadata value.
pub struct MetaRequest {
    pub method: &'static str,
    pub url: &'static str,
    pub headers: Vec<(&'static str, &'static str)>,
    pub body: &'static str,
}

impl MetaRequest {
    /// The question as it is always asked.
    pub fn new() -> (request: MetaRequest)
        ensures
            request.method@ == meta_method(),
            request.url@ == meta_endpoint(),
            header_texts(request.headers@) == meta_headers(),
            request.body@ == meta_form(),
    {
        let mut headers: Vec<(&'static str, &'static str)> = Vec::new();
        headers.push(("Host", "www.growtopia1.com"));
        headers.push(("User-Agent", "UbiServices_SDK_2022.Release.9_PC64_ansi_static"));
        headers.push(("Accept", "*/*"));
        headers.push(("Content-Type", "application/x-www-form-urlencoded"));
        headers.push(("Cache-Control", "no-cache"));
        headers.push(("Content-Length", "36"));
        assert(header_texts(headers@) =~= meta_headers());
        MetaRequest {
            method: "POST",
            url: "https://www.growtopia1.com/growtopia/server_data.php",
            headers,
            body: "version=5.11&platform=0&protocol=216",
        }
    }
}

/// The metadata value in the server's answer: the first group of the first
/// match of the metadata pattern, where there is one.
pub fn parse_meta(content: &str) -> (meta: Option<String>)
    ensures
        match meta {
            Some(value) => regex_capture(meta_pattern(), content@, 1) == Some(value@),
            None => regex_capture(meta_pattern(), content@, 1) is None,
        },
{
    regex_group("meta\\|([^ \\n\\r]+)", content, 1)
}

} // verus!
