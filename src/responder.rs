//! The dispatcher: what a client message asks for, and what is answered.

use vstd::prelude::*;
use json::JsonValue;
use crate::canvas::{canvas_text, member, member_of, pixel_of_json, Canvas, CanvasView, Pixel};

verus! {

/// What a client message asks for, once read.
#[derive(Debug)]
pub enum Request {
    /// The whole board, for the requesting client alone.
    RetrieveBoard,
    /// One cell recolored, to be broadcast to every client.
    PixelChanged(Pixel),
    /// Anything else: nothing is done and nothing is sent.
    Ignored,
}

/// What the connection layer is to send.
#[derive(Debug)]
pub enum Response {
    /// Nothing.
    Silent,
    /// This text, to the requesting client.
    Reply(String),
    /// This message, to every client.
    Broadcast(JsonValue),
}

/// The view of an optional title.
pub open spec fn title_view(title: Option<&str>) -> Option<Seq<char>> {
    match title {
        Some(t) => Some(t@),
        None => None,
    }
}

/// The request that a message with `title` and a decoded `pixel_changed`
/// member stands for.
pub open spec fn request_of(title: Option<Seq<char>>, pixel: Option<Pixel>) -> Request {
    match title {
        Some(t) => if t == "RETRIEVE_BOARD"@ {
            Request::RetrieveBoard
        } else if t == "PIXEL_CHANGED"@ {
            match pixel {
                Some(p) => Request::PixelChanged(p),
                None => Request::Ignored,
            }
        } else {
            Request::Ignored
        },
        None => Request::Ignored,
    }
}

/// What `JsonValue::as_str` gives: the text of the value, if it is a string.
pub uninterp spec fn str_of(v: JsonValue) -> Option<Seq<char>>;

/// Relies on `JsonValue::as_str`: the text of the value if it is a string.
#[verifier::external_body]
fn as_str<'a>(v: &'a JsonValue) -> (r: Option<&'a str>)
    ensures
        title_view(r) == str_of(*v),
{
    v.as_str()
}

/// Answers the messages of clients of the shared board.
pub struct CanvasResponder;

impl CanvasResponder {
    /// The request for a message whose title and decoded pixel are given.
    pub fn classify(&self, title: Option<&str>, pixel: Option<Pixel>) -> (r: Request)
        ensures
            r == request_of(title_view(title), pixel),
    {
        match title {
            Some(t) => {
                let t = t.to_owned();
                if t == "RETRIEVE_BOARD".to_owned() {
                    Request::RetrieveBoard
                } else if t == "PIXEL_CHANGED".to_owned() {
                    match pixel {
                        Some(p) => Request::PixelChanged(p),
                        None => Request::Ignored,
                    }
                } else {
                    Request::Ignored
                }
            },
            None => Request::Ignored,
        }
    }

    /// Reads the title and the `pixel_changed` member of a message.
    pub fn decode_request(&self, json_request: &JsonValue) -> (r: Request)
        ensures
            r == request_of(
                str_of(member_of(*json_request, "title"@)),
                pixel_of_json(member_of(*json_request, "pixel_changed"@)),
            ),
    {
        let title = as_str(member(json_request, "title"));
        let pixel = Pixel::from_json(member(json_request, "pixel_changed"));
        self.classify(title, pixel)
    }

    /// The reply to a board request, made under a read lock.
    pub fn reply_board(&self, canvas: &Canvas) -> (r: Response)
        ensures
            r matches Response::Reply(t) && t@ == canvas_text(canvas@),
    {
        Response::Reply(canvas.stringify())
    }

    /// Applies a recolored cell under a write lock. The message that carried
    /// it is broadcast as it came; an id beyond the board changes nothing and
    /// nothing is sent.
    pub fn apply_change(&self, canvas: &mut Canvas, pixel: Pixel, json_request: JsonValue) -> (r:
        Response)
        requires
            old(canvas).wf(),
        ensures
            final(canvas).wf(),
            pixel.id < old(canvas)@.cells.len() ==> final(canvas)@ == (CanvasView {
                cells: old(canvas)@.cells.update(pixel.id as int, pixel),
                ..old(canvas)@
            }),
            pixel.id >= old(canvas)@.cells.len() ==> final(canvas)@ == old(canvas)@,
            pixel.id < old(canvas)@.cells.len() ==> r == Response::Broadcast(json_request),
            pixel.id >= old(canvas)@.cells.len() ==> r == Response::Silent,
    {
        if pixel.id >= canvas.cell_count() {
            return Response::Silent;
        }
        canvas.update_pixel(pixel);
        Response::Broadcast(json_request)
    }
}

} // verus!
