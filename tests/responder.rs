use pixel_canvas::canvas::{Canvas, Pixel};
use pixel_canvas::responder::{CanvasResponder, Request, Response};
use rgb::RGB8;

#[test]
fn retrieve_board_is_answered_with_the_board() {
    let canvas = Canvas::new(2, 2, 4);
    let req = json::parse(r#"{"title":"RETRIEVE_BOARD"}"#).unwrap();
    let responder = CanvasResponder;
    assert!(matches!(responder.decode_request(&req), Request::RetrieveBoard));
    match responder.reply_board(&canvas) {
        Response::Reply(t) => assert_eq!(t, canvas.stringify()),
        _ => panic!("expected a reply"),
    }
}

#[test]
fn scenario_pixel_change_is_applied_and_broadcast() {
    let mut canvas = Canvas::new(2, 2, 4);
    let text = r#"{"title":"PIXEL_CHANGED","pixel_changed":{"id":1,"color":{"r":5,"g":6,"b":7}}}"#;
    let req = json::parse(text).unwrap();
    let responder = CanvasResponder;
    let pixel = match responder.decode_request(&req) {
        Request::PixelChanged(p) => p,
        other => panic!("unexpected {:?}", other),
    };
    let mut expected = Pixel::new(1);
    expected.change_color(RGB8::new(5, 6, 7));
    assert_eq!(pixel, expected);
    match responder.apply_change(&mut canvas, pixel, req) {
        Response::Broadcast(m) => assert_eq!(m.dump(), json::parse(text).unwrap().dump()),
        _ => panic!("expected a broadcast"),
    }
    let doc = json::parse(&canvas.stringify()).unwrap();
    assert_eq!(Pixel::from_json(&doc["pixels"][1]), Some(expected));
    assert_eq!(Pixel::from_json(&doc["pixels"][0]), Some(Pixel::new(0)));
}

#[test]
fn scenario_pixel_change_without_color_is_ignored() {
    let req = json::parse(r#"{"title":"PIXEL_CHANGED","pixel_changed":{"id":99}}"#).unwrap();
    let responder = CanvasResponder;
    assert!(matches!(responder.decode_request(&req), Request::Ignored));
}

#[test]
fn unknown_or_missing_title_is_ignored() {
    let responder = CanvasResponder;
    for text in [r#"{"title":"HELLO"}"#, r#"{"pixel_changed":{"id":1}}"#, r#"{"title":5}"#, "[]"] {
        let req = json::parse(text).unwrap();
        assert!(matches!(responder.decode_request(&req), Request::Ignored));
    }
}

#[test]
fn classify_by_title() {
    let responder = CanvasResponder;
    assert!(matches!(responder.classify(Some("RETRIEVE_BOARD"), None), Request::RetrieveBoard));
    assert!(matches!(
        responder.classify(Some("PIXEL_CHANGED"), Some(Pixel::new(2))),
        Request::PixelChanged(p) if p == Pixel::new(2)
    ));
    assert!(matches!(responder.classify(Some("PIXEL_CHANGED"), None), Request::Ignored));
    assert!(matches!(responder.classify(Some("retrieve_board"), None), Request::Ignored));
    assert!(matches!(responder.classify(None, Some(Pixel::new(2))), Request::Ignored));
}

#[test]
fn change_out_of_range_is_silent_and_board_unchanged() {
    let mut canvas = Canvas::new(2, 2, 4);
    let before = canvas.stringify();
    let req = json::parse(r#"{"title":"PIXEL_CHANGED","pixel_changed":{"id":4,"color":{"r":1,"g":1,"b":1}}}"#).unwrap();
    let responder = CanvasResponder;
    let pixel = match responder.decode_request(&req) {
        Request::PixelChanged(p) => p,
        _ => panic!("expected a pixel change"),
    };
    assert!(matches!(responder.apply_change(&mut canvas, pixel, req), Response::Silent));
    assert_eq!(canvas.stringify(), before);
}
