use vstd::prelude::*;

verus! {

/// The protocol version of an HTTP request.
#[derive(Debug, Clone, Copy, PartialEq, Eq, Structural)]
pub enum HttpVersion {
    Http09,
    Http10,
    Http11,
    Http2,
    Http3,
}

/// What the routing decision reads of a request: its protocol version and the
/// bytes of its first `content-type` header, if it has one.
pub struct RequestHead {
    pub version: HttpVersion,
    pub content_type: Option<Vec<u8>>,
}

/// The service that a request is handed to.
#[derive(Debug, Clone, Copy, PartialEq, Eq, Structural)]
pub enum Route {
    Web,
    Grpc,
}

/// The bytes of `application/grpc`, which every gRPC content type starts with.
pub open spec fn grpc_content_type_prefix() -> Seq<u8> {
    seq![
        0x61u8, 0x70u8, 0x70u8, 0x6cu8, 0x69u8, 0x63u8, 0x61u8, 0x74u8, // "applicat"
        0x69u8, 0x6fu8, 0x6eu8, 0x2fu8, 0x67u8, 0x72u8, 0x70u8, 0x63u8, // "ion/grpc"
    ]
}

/// `content_type` starts with `application/grpc`.
pub open spec fn has_grpc_content_type(content_type: Seq<u8>) -> bool {
    &&& content_type.len() >= grpc_content_type_prefix().len()
    &&& content_type.take(grpc_content_type_prefix().len() as int) == grpc_content_type_prefix()
}

/// gRPC traffic is HTTP/2 whose content type starts with `application/grpc`.
pub open spec fn is_grpc(version: HttpVersion, content_type: Option<Seq<u8>>) -> bool {
    &&& version == HttpVersion::Http2
    &&& content_type matches Some(ct) && has_grpc_content_type(ct)
}

pub open spec fn head_content_type(head: &RequestHead) -> Option<Seq<u8>> {
    match head.content_type {
        Some(ct) => Some(ct@),
        None => None,
    }
}

pub open spec fn spec_route(head: &RequestHead) -> Route {
    if is_grpc(head.version, head_content_type(head)) {
        Route::Grpc
    } else {
        Route::Web
    }
}

/// Tells whether `content_type` starts with `application/grpc`.
pub fn starts_with_grpc_content_type(content_type: &[u8]) -> (r: bool)
    ensures
        r == has_grpc_content_type(content_type@),
{
    let expected: [u8; 16] = [
        0x61u8, 0x70u8, 0x70u8, 0x6cu8, 0x69u8, 0x63u8, 0x61u8, 0x74u8,
        0x69u8, 0x6fu8, 0x6eu8, 0x2fu8, 0x67u8, 0x72u8, 0x70u8, 0x63u8,
    ];
    assert(expected@ == grpc_content_type_prefix());
    if content_type.len() < 16 {
        return false;
    }
    let mut i: usize = 0;
    while i < 16
        invariant
            i <= 16,
            16 <= content_type@.len(),
            expected@ == grpc_content_type_prefix(),
            forall|j: int| 0 <= j < i ==> content_type@[j] == expected@[j],
        decreases 16 - i,
    {
        if content_type[i] != expected[i] {
            assert(content_type@.take(16)[i as int] != grpc_content_type_prefix()[i as int]);
            return false;
        }
        i = i + 1;
    }
    assert(content_type@.take(16) =~= grpc_content_type_prefix());
    true
}

/// Tells whether a request is gRPC traffic: it must use HTTP/2 and its
/// content type must start with `application/grpc`.
pub fn is_grpc_request(head: &RequestHead) -> (r: bool)
    ensures
        r == is_grpc(head.version, head_content_type(head)),
{
    if head.version != HttpVersion::Http2 {
        return false;
    }
    match &head.content_type {
        Some(ct) => starts_with_grpc_content_type(ct.as_slice()),
        None => false,
    }
}

/// Chooses the service for a request: gRPC traffic goes to the gRPC service,
/// everything else to the web service.
pub fn route_request(head: &RequestHead) -> (r: Route)
    ensures
        r == spec_route(head),
        r == Route::Grpc <==> is_grpc(head.version, head_content_type(head)),
{
    if is_grpc_request(head) {
        Route::Grpc
    } else {
        Route::Web
    }
}

/// Only HTTP/2 requests can be gRPC: a request of any other version goes to
/// the web service, whatever its content type.
pub proof fn lemma_only_http2_is_grpc(head: &RequestHead)
    requires
        head.version != HttpVersion::Http2,
    ensures
        spec_route(head) == Route::Web,
{
}

/// A request without a content type goes to the web service.
pub proof fn lemma_no_content_type_is_web(head: &RequestHead)
    requires
        head.content_type is None,
    ensures
        spec_route(head) == Route::Web,
{
}

/// Every content type that starts with `application/grpc` (such as
/// `application/grpc+proto`) marks an HTTP/2 request as gRPC.
pub proof fn lemma_grpc_content_type_variants(suffix: Seq<u8>)
    ensures
        is_grpc(HttpVersion::Http2, Some(grpc_content_type_prefix() + suffix)),
{
    let ct = grpc_content_type_prefix() + suffix;
    assert(ct.take(16) =~= grpc_content_type_prefix());
}

/// A content type shorter than `application/grpc` never marks a request as gRPC.
pub proof fn lemma_short_content_type_is_not_grpc(version: HttpVersion, content_type: Seq<u8>)
    requires
        content_type.len() < 16,
    ensures
        !is_grpc(version, Some(content_type)),
{
}

/// A content type marks gRPC exactly when its first sixteen bytes are
/// `application/grpc` (`61 70 70 6c 69 63 61 74 69 6f 6e 2f 67 72 70 63`):
/// one differing byte among them, or fewer bytes, and it does not.
pub proof fn lemma_grpc_content_type_exactly(c: Seq<u8>)
    ensures
        has_grpc_content_type(c) <==> (c.len() >= 16 && c[0] == 0x61u8 && c[1] == 0x70u8 && c[2] == 0x70u8 && c[3] == 0x6cu8
            && c[4] == 0x69u8 && c[5] == 0x63u8 && c[6] == 0x61u8 && c[7] == 0x74u8 && c[8] == 0x69u8
            && c[9] == 0x6fu8 && c[10] == 0x6eu8 && c[11] == 0x2fu8 && c[12] == 0x67u8 && c[13]
            == 0x72u8 && c[14] == 0x70u8 && c[15] == 0x63u8),
{
    if has_grpc_content_type(c) {
        assert(c.take(16)[0] == c[0]);
        assert forall|i: int| 0 <= i < 16 implies c[i] == #[trigger] grpc_content_type_prefix()[i] by {
            assert(c.take(16)[i] == c[i]);
        }
    }
    if c.len() >= 16 && c[0] == 0x61u8 && c[1] == 0x70u8 && c[2] == 0x70u8 && c[3] == 0x6cu8
            && c[4] == 0x69u8 && c[5] == 0x63u8 && c[6] == 0x61u8 && c[7] == 0x74u8 && c[8] == 0x69u8
            && c[9] == 0x6fu8 && c[10] == 0x6eu8 && c[11] == 0x2fu8 && c[12] == 0x67u8 && c[13]
            == 0x72u8 && c[14] == 0x70u8 && c[15] == 0x63u8 {
        assert(c.take(16) =~= grpc_content_type_prefix());
    }
}

/// A request is routed to the gRPC service exactly when it is HTTP/2 and has a
/// content type whose first sixteen bytes are `application/grpc`; every other
/// request goes to the web service.
pub proof fn lemma_route_exactly(head: &RequestHead)
    ensures
        spec_route(head) == Route::Grpc <==> (head.version == HttpVersion::Http2
            && head.content_type is Some && {
            let c = head.content_type.unwrap()@;
            c.len() >= 16 && c[0] == 0x61u8 && c[1] == 0x70u8 && c[2] == 0x70u8 && c[3] == 0x6cu8
            && c[4] == 0x69u8 && c[5] == 0x63u8 && c[6] == 0x61u8 && c[7] == 0x74u8 && c[8] == 0x69u8
            && c[9] == 0x6fu8 && c[10] == 0x6eu8 && c[11] == 0x2fu8 && c[12] == 0x67u8 && c[13]
            == 0x72u8 && c[14] == 0x70u8 && c[15] == 0x63u8
        }),
        spec_route(head) == Route::Web <==> !(spec_route(head) == Route::Grpc),
{
    match head.content_type {
        Some(ct) => lemma_grpc_content_type_exactly(ct@),
        None => {},
    }
}

} // verus!
