//! An HTTP response described as plain values: headers, status code,
//! media type, JSON body text and an optional private cookie.
use vstd::prelude::*;
use std::collections::HashMap;

verus! {

pub const STATUS_OK: u16 = 200;

pub const STATUS_CREATED: u16 = 201;

pub const STATUS_BAD_REQUEST: u16 = 400;

pub const STATUS_FORBIDDEN: u16 = 403;

pub const STATUS_CONFLICT: u16 = 409;

pub const STATUS_INTERNAL_SERVER_ERROR: u16 = 500;

/// Media type of a JSON body.
pub const JSON_CONTENT_TYPE: &'static str = "application/json";

/// Text of an empty JSON object.
pub const EMPTY_JSON_BODY: &'static str = "{}";

/// A cookie to set, by name and value.
pub struct Cookie {
    pub name: String,
    pub value: String,
}

/// An HTTP response to be sent.
pub struct CustomResponse {
    pub headers: HashMap<String, String>,
    pub status_code: u16,
    pub content_type: String,
    pub body: String,
    pub cookie: Option<Cookie>,
}

/// `r` has the given status, a JSON media type, an empty JSON object as
/// body, no extra header and no cookie.
pub open spec fn is_plain_json(r: CustomResponse, status: u16) -> bool {
    &&& r.status_code == status
    &&& r.content_type@ == JSON_CONTENT_TYPE@
    &&& r.body@ == EMPTY_JSON_BODY@
    &&& r.headers@ == Map::<String, String>::empty()
    &&& r.cookie is None
}

impl CustomResponse {
    /// A response from its parts; no header map means no extra header.
    pub fn new(
        headers_map: Option<HashMap<String, String>>,
        status_code: u16,
        content_type: String,
        body: String,
        cookie: Option<Cookie>,
    ) -> (r: CustomResponse)
        ensures
            r.headers@ == (match headers_map {
                Some(h) => h@,
                None => Map::<String, String>::empty(),
            }),
            r.status_code == status_code,
            r.content_type == content_type,
            r.body == body,
            r.cookie == cookie,
    {
        if let Some(headers) = headers_map {
            CustomResponse { headers, status_code, content_type, body, cookie }
        } else {
            CustomResponse { headers: HashMap::new(), status_code, content_type, body, cookie }
        }
    }

    fn plain_json(status_code: u16) -> (r: CustomResponse)
        ensures
            is_plain_json(r, status_code),
    {
        CustomResponse::new(
            None,
            status_code,
            String::from_str(JSON_CONTENT_TYPE),
            String::from_str(EMPTY_JSON_BODY),
            None,
        )
    }

    /// 201, with an empty JSON object.
    pub fn created() -> (r: CustomResponse)
        ensures
            is_plain_json(r, STATUS_CREATED),
    {
        CustomResponse::plain_json(STATUS_CREATED)
    }

    /// 500, with an empty JSON object.
    pub fn internal_error() -> (r: CustomResponse)
        ensures
            is_plain_json(r, STATUS_INTERNAL_SERVER_ERROR),
    {
        CustomResponse::plain_json(STATUS_INTERNAL_SERVER_ERROR)
    }

    /// 400, with an empty JSON object.
    pub fn bad_request() -> (r: CustomResponse)
        ensures
            is_plain_json(r, STATUS_BAD_REQUEST),
    {
        CustomResponse::plain_json(STATUS_BAD_REQUEST)
    }

    /// 403, with an empty JSON object.
    pub fn forbidden() -> (r: CustomResponse)
        ensures
            is_plain_json(r, STATUS_FORBIDDEN),
    {
        CustomResponse::plain_json(STATUS_FORBIDDEN)
    }

    /// 500, with the given media type and body.
    pub fn new_internal_error(content_type: String, body: String) -> (r: CustomResponse)
        ensures
            r.status_code == STATUS_INTERNAL_SERVER_ERROR,
            r.content_type == content_type,
            r.body == body,
            r.headers@ == Map::<String, String>::empty(),
            r.cookie is None,
    {
        CustomResponse::new(None, STATUS_INTERNAL_SERVER_ERROR, content_type, body, None)
    }

    /// 409, with the given media type and body.
    pub fn new_conflict(content_type: String, body: String) -> (r: CustomResponse)
        ensures
            r.status_code == STATUS_CONFLICT,
            r.content_type == content_type,
            r.body == body,
            r.headers@ == Map::<String, String>::empty(),
            r.cookie is None,
    {
        CustomResponse::new(None, STATUS_CONFLICT, content_type, body, None)
    }
}

impl Default for CustomResponse {
    /// 200, with an empty JSON object.
    fn default() -> (r: CustomResponse)
        ensures
            is_plain_json(r, STATUS_OK),
    {
        CustomResponse::plain_json(STATUS_OK)
    }
}

} // verus!
