//! The board model: pixels, the canvas that holds them, and their wire text.

use vstd::prelude::*;
use json::JsonValue;
use rgb::RGB8;
use crate::text::{decimal, push_char, push_decimal, push_str};

verus! {

/// rgb's plain red-green-blue container; its three channels are public fields.
#[verifier::external_type_specification]
#[verifier::reject_recursive_types(T)]
pub struct ExRgb<T>(rgb::Rgb<T>);

/// json's dynamically typed value, carried through as it is.
#[verifier::external_type_specification]
#[verifier::external_body]
pub struct ExJsonValue(json::JsonValue);

/// A single cell of the board: its row-major offset and its color.
#[derive(Debug, PartialEq)]
pub struct Pixel {
    /// The offset of the cell on the board.
    pub id: usize,
    /// The cell's color.
    pub color: RGB8,
}

/// Black, the color of every cell of a new board.
pub open spec fn black() -> RGB8 {
    RGB8 { r: 0, g: 0, b: 0 }
}

/// The pixel decoded from the fields read out of a pixel object: a pixel only
/// where the id and all three channels were read.
pub open spec fn pixel_of_fields(
    id: Option<usize>,
    r: Option<u8>,
    g: Option<u8>,
    b: Option<u8>,
) -> Option<Pixel> {
    match (id, r, g, b) {
        (Some(id), Some(r), Some(g), Some(b)) => Some(Pixel { id, color: RGB8 { r, g, b } }),
        _ => None,
    }
}

/// The wire text of a pixel: `{"id":I,"color":{"r":R,"g":G,"b":B}}`.
pub open spec fn pixel_text(p: Pixel) -> Seq<char> {
    "{\"id\":"@ + decimal(p.id as nat) + ",\"color\":{\"r\":"@ + decimal(p.color.r as nat)
        + ",\"g\":"@ + decimal(p.color.g as nat) + ",\"b\":"@ + decimal(p.color.b as nat)
        + "}}"@
}

/// What json's `Index<&str>` gives for `key`: the member so named, or null.
pub uninterp spec fn member_of(v: JsonValue, key: Seq<char>) -> JsonValue;

/// What `JsonValue::as_usize` gives: the value as a `usize`, if it is such a number.
pub uninterp spec fn usize_of(v: JsonValue) -> Option<usize>;

/// What `JsonValue::as_u8` gives: the value as a `u8`, if it is a number in 0..=255.
pub uninterp spec fn u8_of(v: JsonValue) -> Option<u8>;

/// What `JsonValue::is_object` gives: whether the value is an object.
pub uninterp spec fn is_object(v: JsonValue) -> bool;

/// The keys that `JsonValue::entries` walks, in order: for an object, the
/// order in which its members were first set; for any other value, none.
pub uninterp spec fn keys_of(v: JsonValue) -> Seq<Seq<char>>;

/// The pixel that `Pixel::from_json` reads out of `v`.
pub open spec fn pixel_of_json(v: JsonValue) -> Option<Pixel> {
    pixel_of_fields(
        usize_of(member_of(v, "id"@)),
        u8_of(member_of(member_of(v, "color"@), "r"@)),
        u8_of(member_of(member_of(v, "color"@), "g"@)),
        u8_of(member_of(member_of(v, "color"@), "b"@)),
    )
}

/// Relies on json's `Index<&str>`: the member named `key`, or null.
#[verifier::external_body]
pub(crate) fn member<'a>(v: &'a JsonValue, key: &str) -> (r: &'a JsonValue)
    ensures
        *r == member_of(*v, key@),
{
    &v[key]
}

/// Relies on `JsonValue::as_usize`: the value as a `usize` if it is such a number.
#[verifier::external_body]
fn as_usize(v: &JsonValue) -> (r: Option<usize>)
    ensures
        r == usize_of(*v),
{
    v.as_usize()
}

/// Relies on `JsonValue::as_u8`: the value as a `u8` if it is a number in 0..=255.
#[verifier::external_body]
fn as_u8(v: &JsonValue) -> (r: Option<u8>)
    ensures
        r == u8_of(*v),
{
    v.as_u8()
}

/// Relies on `JsonValue::new_object`: an object with no members.
#[verifier::external_body]
fn new_object() -> (r: JsonValue)
    ensures
        is_object(r),
        keys_of(r) == Seq::<Seq<char>>::empty(),
{
    JsonValue::new_object()
}

/// Relies on json's `IndexMut<&str>`: the value becomes an object (a new one
/// if it was none) whose member `key` is `val`; an object keeps its other
/// members and their order, and a new key goes last.
#[verifier::external_body]
fn set_member(obj: &mut JsonValue, key: &str, val: JsonValue)
    ensures
        is_object(*final(obj)),
        member_of(*final(obj), key@) == val,
        is_object(*old(obj)) ==> forall|k: Seq<char>|
            k != key@ ==> #[trigger] member_of(*final(obj), k) == member_of(*old(obj), k),
        is_object(*old(obj)) && keys_of(*old(obj)).contains(key@) ==> keys_of(*final(obj))
            == keys_of(*old(obj)),
        is_object(*old(obj)) && !keys_of(*old(obj)).contains(key@) ==> keys_of(*final(obj))
            == keys_of(*old(obj)).push(key@),
        !is_object(*old(obj)) ==> keys_of(*final(obj)) == seq![key@],
{
    obj[key] = val;
}

/// Relies on json's `From<usize>`: the number `n`, which `as_usize` reads back.
#[verifier::external_body]
fn number_of_usize(n: usize) -> (r: JsonValue)
    ensures
        usize_of(r) == Some(n),
{
    JsonValue::from(n)
}

/// Relies on json's `From<u8>`: the number `n`, which `as_u8` reads back.
#[verifier::external_body]
fn number_of_u8(n: u8) -> (r: JsonValue)
    ensures
        u8_of(r) == Some(n),
{
    JsonValue::from(n)
}

impl Pixel {
    /// A black pixel with the given id.
    pub fn new(id: usize) -> (p: Self)
        ensures
            p.id == id,
            p.color == black(),
    {
        Pixel { id, color: RGB8 { r: 0, g: 0, b: 0 } }
    }

    /// Replaces the pixel's color.
    pub fn change_color(&mut self, newcolor: RGB8)
        ensures
            final(self).id == old(self).id,
            final(self).color == newcolor,
    {
        self.color = newcolor;
    }

    /// Builds a pixel from the fields read out of a pixel object; `None`
    /// unless the id and every channel are present.
    pub fn from_fields(id: Option<usize>, r: Option<u8>, g: Option<u8>, b: Option<u8>) -> (res:
        Option<Pixel>)
        ensures
            res == pixel_of_fields(id, r, g, b),
            res.is_some() <==> (id.is_some() && r.is_some() && g.is_some() && b.is_some()),
    {
        match (id, r, g, b) {
            (Some(id), Some(r), Some(g), Some(b)) => Some(Pixel { id, color: RGB8 { r, g, b } }),
            _ => None,
        }
    }

    /// Decodes `{ "id": _, "color": { "r": _, "g": _, "b": _ } }`: `None` when
    /// the id is not a non-negative integer or a channel is absent or outside 0..=255.
    pub fn from_json(json: &JsonValue) -> (res: Option<Self>)
        ensures
            res == pixel_of_json(*json),
    {
        let id = as_usize(member(json, "id"));
        let color = member(json, "color");
        let r = as_u8(member(color, "r"));
        let g = as_u8(member(color, "g"));
        let b = as_u8(member(color, "b"));
        Pixel::from_fields(id, r, g, b)
    }

    /// The pixel as a json object with the members `id` and `color`, the
    /// latter an object with the members `r`, `g` and `b`.
    pub fn jsonfy(&self) -> (r: JsonValue)
        ensures
            is_object(r),
            keys_of(r) == seq!["id"@, "color"@],
            keys_of(member_of(r, "color"@)) == seq!["r"@, "g"@, "b"@],
            usize_of(member_of(r, "id"@)) == Some(self.id),
            is_object(member_of(r, "color"@)),
            u8_of(member_of(member_of(r, "color"@), "r"@)) == Some(self.color.r),
            u8_of(member_of(member_of(r, "color"@), "g"@)) == Some(self.color.g),
            u8_of(member_of(member_of(r, "color"@), "b"@)) == Some(self.color.b),
            pixel_of_json(r) == Some(*self),
    {
        proof {
            reveal_strlit("r");
            reveal_strlit("g");
            reveal_strlit("b");
            reveal_strlit("id");
            reveal_strlit("color");
        }
        let mut color = new_object();
        set_member(&mut color, "r", number_of_u8(self.color.r));
        assert(keys_of(color) =~= seq!["r"@]);
        assert("r"@[0] != "g"@[0]);
        assert(!keys_of(color).contains("g"@));
        set_member(&mut color, "g", number_of_u8(self.color.g));
        assert(keys_of(color) =~= seq!["r"@, "g"@]);
        assert("r"@[0] != "b"@[0] && "g"@[0] != "b"@[0]);
        assert(!keys_of(color).contains("b"@));
        set_member(&mut color, "b", number_of_u8(self.color.b));
        let mut obj = new_object();
        set_member(&mut obj, "id", number_of_usize(self.id));
        assert(keys_of(obj) =~= seq!["id"@]);
        assert("id"@.len() != "color"@.len());
        assert(!keys_of(obj).contains("color"@));
        set_member(&mut obj, "color", color);
        obj
    }

    /// Appends the pixel's wire text to `s`.
    pub fn push_text(&self, s: &mut String)
        ensures
            final(s)@ == old(s)@ + pixel_text(*self),
    {
        push_str(s, "{\"id\":");
        push_decimal(s, self.id);
        push_str(s, ",\"color\":{\"r\":");
        push_decimal(s, self.color.r as usize);
        push_str(s, ",\"g\":");
        push_decimal(s, self.color.g as usize);
        push_str(s, ",\"b\":");
        push_decimal(s, self.color.b as usize);
        push_str(s, "}}");
        assert(final(s)@ =~= old(s)@ + pixel_text(*self));
    }

    /// The pixel's wire text.
    pub fn stringify(&self) -> (r: String)
        ensures
            r@ == pixel_text(*self),
    {
        let mut s = String::new();
        self.push_text(&mut s);
        assert(s@ =~= pixel_text(*self));
        s
    }
}

/// Serializes a pixel to a json value, as `Pixel::jsonfy` does.
impl From<Pixel> for JsonValue {
    fn from(pixel: Pixel) -> JsonValue {
        pixel.jsonfy()
    }
}

/// The value is stated by `Pixel::jsonfy`, over the names above, not as a
/// function of the pixel: no spec of the conversion is claimed.
impl vstd::std_specs::convert::FromSpecImpl<Pixel> for JsonValue {
    open spec fn obeys_from_spec() -> bool {
        false
    }

    open spec fn from_spec(v: Pixel) -> JsonValue {
        arbitrary()
    }
}

/// What the logic sees of a canvas: its geometry and its cells in offset order.
pub struct CanvasView {
    pub width: nat,
    pub height: nat,
    pub pixel_size: nat,
    pub cells: Seq<Pixel>,
}

/// The cells of a new `width` by `height` board: black, with ids `0..width*height`.
pub open spec fn fresh_cells(width: nat, height: nat) -> Seq<Pixel> {
    Seq::new(width * height, |i: int| Pixel { id: i as usize, color: black() })
}

/// The pixel texts of `cells`, separated by commas.
pub open spec fn cells_text(cells: Seq<Pixel>) -> Seq<char>
    decreases cells.len(),
{
    if cells.len() == 0 {
        Seq::empty()
    } else if cells.len() == 1 {
        pixel_text(cells[0])
    } else {
        cells_text(cells.drop_last()) + ","@ + pixel_text(cells.last())
    }
}

/// The whole-board reply: title, geometry, then every cell in offset order.
pub open spec fn canvas_text(v: CanvasView) -> Seq<char> {
    "{\"title\":\"REPLY_ENTIRE_BOARD\",\"width\":"@ + decimal(v.width) + ",\"height\":"@
        + decimal(v.height) + ",\"pixelSize\":"@ + decimal(v.pixel_size) + ",\"pixels\":["@
        + cells_text(v.cells) + "]}"@
}

/// The shared board: a fixed geometry and one pixel per cell, where the cell
/// at offset `i` always holds the pixel with id `i`.
#[derive(Debug)]
pub struct Canvas {
    width: usize,
    height: usize,
    pixel_size: usize,
    pixels: Vec<Pixel>,
}

impl View for Canvas {
    type V = CanvasView;

    closed spec fn view(&self) -> CanvasView {
        CanvasView {
            width: self.width as nat,
            height: self.height as nat,
            pixel_size: self.pixel_size as nat,
            cells: self.pixels@,
        }
    }
}

impl Canvas {
    /// The board holds `width * height` cells and cell `i` has id `i`.
    pub open spec fn wf(&self) -> bool {
        &&& self@.cells.len() == self@.width * self@.height
        &&& forall|i: int| 0 <= i < self@.cells.len() ==> (#[trigger] self@.cells[i]).id == i
    }

    /// A `width` by `height` board of black cells, drawn `pixel_size` screen
    /// pixels wide by clients.
    pub fn new(width: usize, height: usize, pixel_size: usize) -> (c: Self)
        requires
            width * height <= usize::MAX,
        ensures
            c.wf(),
            c@.width == width,
            c@.height == height,
            c@.pixel_size == pixel_size,
            c@.cells == fresh_cells(width as nat, height as nat),
    {
        let length = width * height;
        let mut pixels: Vec<Pixel> = Vec::with_capacity(length);
        let mut id: usize = 0;
        while id < length
            invariant
                length == width * height,
                id <= length,
                pixels@ =~= fresh_cells(width as nat, height as nat).take(id as int),
            decreases length - id,
        {
            pixels.push(Pixel::new(id));
            id = id + 1;
        }
        let c = Canvas { width, height, pixel_size, pixels };
        assert(c@.cells =~= fresh_cells(width as nat, height as nat));
        c
    }

    /// The number of cells on the board.
    pub fn cell_count(&self) -> (n: usize)
        ensures
            n == self@.cells.len(),
    {
        self.pixels.len()
    }

    /// Replaces the cell that `pixel.id` names by `pixel`; an id beyond the
    /// board leaves the canvas unchanged.
    pub fn update_pixel(&mut self, pixel: Pixel)
        requires
            old(self).wf(),
        ensures
            final(self).wf(),
            pixel.id < old(self)@.cells.len() ==> final(self)@ == (CanvasView {
                cells: old(self)@.cells.update(pixel.id as int, pixel),
                ..old(self)@
            }),
            pixel.id >= old(self)@.cells.len() ==> final(self)@ == old(self)@,
    {
        let id = pixel.id;
        if id >= self.pixels.len() {
            return;
        }
        self.pixels.set(id, pixel);
    }

    /// The whole-board reply text.
    pub fn stringify(&self) -> (r: String)
        ensures
            r@ == canvas_text(self@),
    {
        let mut s = String::new();
        push_str(&mut s, "{\"title\":\"REPLY_ENTIRE_BOARD\",\"width\":");
        push_decimal(&mut s, self.width);
        push_str(&mut s, ",\"height\":");
        push_decimal(&mut s, self.height);
        push_str(&mut s, ",\"pixelSize\":");
        push_decimal(&mut s, self.pixel_size);
        push_str(&mut s, ",\"pixels\":[");
        let ghost head = s@;
        let n = self.pixels.len();
        let mut i: usize = 0;
        while i < n
            invariant
                n == self.pixels@.len(),
                i <= n,
                s@ == head + cells_text(self.pixels@.take(i as int)),
            decreases n - i,
        {
            let ghost before = s@;
            if i > 0 {
                push_char(&mut s, ',');
            }
            self.pixels[i].push_text(&mut s);
            proof {
                let t = self.pixels@.take(i as int + 1);
                assert(t.drop_last() =~= self.pixels@.take(i as int));
                assert(t.last() == self.pixels@[i as int]);
                if i == 0 {
                    assert(s@ =~= head + cells_text(t));
                } else {
                    reveal_strlit(",");
                    assert(cells_text(t) == cells_text(t.drop_last()) + ","@ + pixel_text(t.last()));
                    assert(s@ =~= head + cells_text(t));
                }
            }
            i = i + 1;
        }
        assert(self.pixels@.take(n as int) =~= self.pixels@);
        push_str(&mut s, "]}");
        assert(s@ =~= canvas_text(self@));
        s
    }
}

/// A new board, and so its reply text, holds exactly `width * height` cells,
/// all black, whose ids run from 0 to `width * height - 1` in order.
pub proof fn lemma_new_board_cells(width: usize, height: usize)
    requires
        width * height <= usize::MAX,
    ensures
        fresh_cells(width as nat, height as nat).len() == width * height,
        forall|i: int|
            0 <= i < width * height ==> {
                let p = #[trigger] fresh_cells(width as nat, height as nat)[i];
                p.id == i && p.color == black()
            },
{
}

} // verus!
