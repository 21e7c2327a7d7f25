use futures::{Future, Stream};
use hello_world::with_greeting;
use hyper::header::{ContentLength, ContentType};
use hyper::{Response, StatusCode};

fn bytes_of(res: Response) -> Vec<u8> {
    res.body().concat2().wait().unwrap().to_vec()
}

#[test]
fn empty_answer_gets_the_greeting() {
    let res: Response = Response::new();
    assert!(res.body_ref().is_none());
    let out = with_greeting(res);
    assert!(out.body_ref().is_some());
    assert_eq!(bytes_of(out), b"Hello World!".to_vec());
}

#[test]
fn greeting_takes_the_place_of_another_body() {
    let res: Response = Response::new().with_body("Goodbye, and thanks for all the fish");
    let out = with_greeting(res);
    assert_eq!(bytes_of(out), b"Hello World!".to_vec());
}

#[test]
fn greeting_leaves_status_and_headers() {
    let res: Response = Response::new()
        .with_status(StatusCode::Ok)
        .with_header(ContentType(mime::TEXT_PLAIN))
        .with_header(ContentLength(12));
    let out = with_greeting(res);
    assert_eq!(out.status(), StatusCode::Ok);
    assert_eq!(out.status().as_u16(), 200);
    assert_eq!(*out.headers().get::<ContentType>().unwrap(), ContentType(mime::TEXT_PLAIN));
    assert_eq!(out.headers().get::<ContentType>().unwrap().0.as_ref(), "text/plain");
    assert_eq!(*out.headers().get::<ContentLength>().unwrap(), ContentLength(12));
    assert_eq!(out.headers().len(), 2);
    assert_eq!(bytes_of(out), b"Hello World!".to_vec());
}

#[test]
fn greeting_leaves_another_status() {
    let res: Response = Response::new().with_status(StatusCode::NotFound);
    let out = with_greeting(res);
    assert_eq!(out.status(), StatusCode::NotFound);
    assert!(out.headers().get::<ContentType>().is_none());
    assert_eq!(bytes_of(out), b"Hello World!".to_vec());
}

#[test]
fn a_hundred_answers_are_alike() {
    for _ in 0..100 {
        let res: Response = Response::new().with_header(ContentType(mime::TEXT_PLAIN));
        let out = with_greeting(res);
        assert_eq!(out.status().as_u16(), 200);
        assert_eq!(out.headers().get::<ContentType>().unwrap().0, mime::TEXT_PLAIN);
        assert_eq!(bytes_of(out), b"Hello World!".to_vec());
    }
}
