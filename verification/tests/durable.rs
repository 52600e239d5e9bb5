use dap_aggregator::durable::{
    dispose, Disposition, Do, Error, HttpResponse, ObjectIdFrom, RequestBuilder, Sent,
};
use dap_aggregator::endpoint::{join_text, text_is, ParsedUrl};

fn backend() -> Do {
    Do::new(ParsedUrl {
        href: String::from("http://storage.example:8787/"),
        path: String::from("/"),
        host: Some(String::from("storage.example")),
    })
}

fn response(status: u16, is_problem: bool) -> Sent {
    Sent::Response(HttpResponse { status, is_problem, body: vec![status as u8] })
}

#[test]
fn request_is_addressed_below_the_prefix() {
    let builder = backend().request(
        String::from("DAP_AGGREGATE_STORE"),
        String::from("/internal/do/aggregate_store/merge"),
        String::from("v05/task/abcd"),
    );
    assert_eq!(builder.base, "http://storage.example:8787/");
    assert_eq!(builder.request.binding, "DAP_AGGREGATE_STORE");
    assert!(matches!(&builder.request.id, ObjectIdFrom::Name(name) if name == "v05/task/abcd"));
    assert!(!builder.request.retry);
    assert!(builder.request.body.is_empty());
    assert_eq!(
        builder.target(),
        Some(String::from("http://storage.example:8787/do/internal/do/aggregate_store/merge"))
    );
}

#[test]
fn target_is_resolved_against_the_base() {
    let base = Do::new(ParsedUrl {
        href: String::from("https://storage.example/prefix/deep?x=1"),
        path: String::from("/prefix/deep"),
        host: Some(String::from("storage.example")),
    });
    let builder = base.request(String::new(), String::from("/a/../b"), String::new());
    assert_eq!(builder.target(), Some(String::from("https://storage.example/do/b")));
    let broken = RequestBuilder {
        base: String::from("not an address"),
        path: String::from("/a"),
        request: builder.request,
    };
    assert_eq!(broken.target(), None);
}

#[test]
fn retry_and_body_are_carried() {
    let backend = backend().with_retry();
    let builder = backend
        .request_with_id(String::from("B"), String::from("/p"), ObjectIdFrom::Hex(String::from("00ff")))
        .with_body(vec![1, 2, 3]);
    assert!(builder.request.retry);
    assert_eq!(builder.request.body, vec![1, 2, 3]);
    assert_eq!(builder.path, "/p");
    assert!(matches!(&builder.request.id, ObjectIdFrom::Hex(hex) if hex == "00ff"));
}

#[test]
fn response_is_a_body_or_an_error() {
    let ok = RequestBuilder::receive(HttpResponse { status: 200, is_problem: false, body: vec![1] });
    assert!(matches!(ok, Ok(body) if body == vec![1]));
    let ok = RequestBuilder::receive(HttpResponse { status: 299, is_problem: false, body: vec![] });
    assert!(ok.is_ok());
    for status in [199u16, 300, 404, 500, 0, u16::MAX] {
        let failed = RequestBuilder::receive(HttpResponse { status, is_problem: false, body: vec![7] });
        assert!(matches!(failed, Err(Error::Http { status: s, body }) if s == status && body == vec![7]));
    }
}

#[test]
fn failures_are_mapped() {
    assert!(matches!(dispose(Sent::TransportError, true), Disposition::Other));
    assert!(matches!(dispose(response(200, false), false), Disposition::Deliver(body) if body == vec![200]));
    assert!(matches!(dispose(response(204, true), false), Disposition::Deliver(_)));
    assert!(matches!(dispose(response(400, true), false), Disposition::Abort(body) if body == vec![144]));
    assert!(matches!(dispose(response(499, true), true), Disposition::Abort(_)));
    assert!(matches!(dispose(response(400, false), true), Disposition::Other));
    assert!(matches!(dispose(response(500, false), true), Disposition::Retry));
    assert!(matches!(dispose(response(599, true), true), Disposition::Retry));
    assert!(matches!(dispose(response(500, false), false), Disposition::Other));
    assert!(matches!(dispose(response(600, false), true), Disposition::Other));
    assert!(matches!(dispose(response(302, false), true), Disposition::Other));
}

#[test]
fn small_text_helpers() {
    assert!(text_is("leader", "leader"));
    assert!(!text_is("leader", "Leader"));
    assert!(!text_is("", "x"));
    assert_eq!(join_text("/do", "/path"), "/do/path");
    assert_eq!(join_text("", ""), "");
}
