//! A sample handler that describes the request it was given.
use vstd::prelude::*;
use vstd::string::StringExecFns;

use crate::http::{ContentType, StatusCode};
use crate::request::Request;
use crate::response::{Content, Response};

verus! {

/// The description of a request that `hello_world` answers with.
pub open spec fn hello_text(req: Request) -> Seq<char> {
    "{\n    \"path\":"@ + req.path@ + ",\n    \"method\":"@ + req.method.text()
        + ",\n    \"content-type\":"@ + req.content_type.text() + ",\n    \"protocol\":"@
        + req.protocol.text() + ",\n    \"status\":"@ + req.status.text() + "\n}"@
}

/// Answers with a JSON-shaped description of the request: its path, method,
/// content type, protocol and status.
pub fn hello_world(req: Request) -> (r: Response)
    ensures
        r.status == StatusCode::Http200Ok,
        r.content_type == ContentType::ApplicationJson,
        r.body matches Content::HeapString(s) && s@ == hello_text(req),
{
    let text = String::from_str("{\n    \"path\":").concat(req.path.as_str()).concat(
        ",\n    \"method\":",
    ).concat(req.method.as_str()).concat(",\n    \"content-type\":").concat(
        req.content_type.as_str(),
    ).concat(",\n    \"protocol\":").concat(req.protocol.as_str()).concat(
        ",\n    \"status\":",
    ).concat(req.status.as_str()).concat("\n}");
    Response {
        body: Content::HeapString(text),
        status: StatusCode::Http200Ok,
        content_type: ContentType::ApplicationJson,
    }
}

} // verus!
