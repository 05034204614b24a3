//! Buttons and layouts of buttons: where they are, what the mouse is over,
//! and how they look.
use vstd::prelude::*;
use crate::draw::{rgb, Align, Background, Color, ScreenCmd};
use crate::text::text;

verus! {

/// A box from its top left corner to its bottom right corner.
pub type BBox = ((i32, i32), (i32, i32));

/// A clickable button: its box, its label and the id it answers to.
pub struct Button {
    pub bbox: BBox,
    pub text: String,
    pub id: String,
}

/// Calls `str::to_lowercase`. Its result follows Unicode's lowercase
/// mapping, which is not written out here: it is named `lowercase_of`.
#[verifier::external_body]
fn lowercase(s: &str) -> (r: String)
    ensures
        r@ == lowercase_of(s@),
{
    s.to_lowercase()
}

/// What `str::to_lowercase` gives for a string.
pub uninterp spec fn lowercase_of(s: Seq<char>) -> Seq<char>;

/// `s` with every space turned into an underscore.
pub open spec fn underscored(s: Seq<char>) -> Seq<char> {
    s.map_values(|c: char| if c == ' ' { '_' } else { c })
}

/// The id of a button labelled `name`: the label with underscores for
/// spaces, in lower case.
pub open spec fn button_id(name: Seq<char>) -> Seq<char> {
    lowercase_of(underscored(name))
}

/// The box of the given size at `pos`.
pub open spec fn bbox_at(pos: (i32, i32), size: (i32, i32)) -> BBox {
    (pos, ((pos.0 + size.0) as i32, (pos.1 + size.1) as i32))
}

/// The box fits in `i32`s.
pub open spec fn bbox_fits(pos: (i32, i32), size: (i32, i32)) -> bool {
    &&& i32::MIN <= pos.0 + size.0 <= i32::MAX
    &&& i32::MIN <= pos.1 + size.1 <= i32::MAX
}

pub fn calculate_bbox(pos: (i32, i32), size: (i32, i32)) -> (b: BBox)
    requires
        bbox_fits(pos, size),
    ensures
        b == bbox_at(pos, size),
{
    (pos, (pos.0 + size.0, pos.1 + size.1))
}

/// `s` with every space turned into an underscore.
fn underscore(s: &str) -> (r: String)
    ensures
        r@ == underscored(s@),
{
    let mut r = String::new();
    let n = s.unicode_len();
    let mut i: usize = 0;
    while i < n
        invariant
            n == s@.len(),
            i <= n,
            r@ == underscored(s@.subrange(0, i as int)),
        decreases n - i,
    {
        let c = s.get_char(i);
        proof {
            reveal_strlit("_");
        }
        if c == ' ' {
            r.append("_");
        } else {
            r.append(s.substring_char(i, i + 1));
        }
        assert(r@ =~= underscored(s@.subrange(0, i + 1)));
        i += 1;
    }
    assert(s@.subrange(0, n as int) =~= s@);
    r
}

/// Whether `loc` hits the box as buttons test it: at or right of its left
/// edge and at or left of its right edge, at or above its first row and at
/// or below its second. With the rows taken in this order, only a box of
/// no height above zero can be hit.
pub open spec fn hits(b: BBox, loc: (i32, i32)) -> bool {
    (loc.0 >= b.0.0 && loc.1 <= b.0.1) && (loc.0 <= b.1.0 && loc.1 >= b.1.1)
}

/// Things that say which button, if any, is under the cursor.
pub trait MouseUI {
    fn bbox_colliding(&self, cursor: (i32, i32)) -> Option<String>;
}

/// Things that can be drawn with the cursor at a point.
pub trait DrawUI {
    fn draw(&self, cursor: (i32, i32)) -> Vec<ScreenCmd>;
}

impl Button {
    /// A button labelled `name` of the given size at `pos`.
    pub fn new(name: &str, pos: (i32, i32), size: (i32, i32)) -> (b: Button)
        requires
            bbox_fits(pos, size),
        ensures
            b.bbox == bbox_at(pos, size),
            b.text@ == name@,
            b.id@ == button_id(name@),
    {
        let spaced = underscore(name);
        Button { bbox: calculate_bbox(pos, size), text: text(name), id: lowercase(spaced.as_str()) }
    }
}

/// How a button looks with the cursor at `cursor`: black text on white when
/// the cursor hits it, on grey otherwise, centred on its top left corner;
/// the default colours are then set back to white on black.
pub open spec fn button_look(b: Button, cursor: (i32, i32), label: String) -> Seq<ScreenCmd> {
    seq![
        ScreenCmd::SetDefaultForeground(rgb(0, 0, 0)),
        ScreenCmd::SetDefaultBackground(if hits(b.bbox, cursor) { rgb(255, 255, 255) } else { rgb(100, 100, 100) }),
        ScreenCmd::PrintEx { x: b.bbox.0.0, y: b.bbox.0.1, flag: Background::Replace, align: Align::Center, text: label },
        ScreenCmd::SetDefaultForeground(rgb(255, 255, 255)),
        ScreenCmd::SetDefaultBackground(rgb(0, 0, 0)),
    ]
}

impl MouseUI for Button {
    /// The button's id when `loc` hits it.
    fn bbox_colliding(&self, loc: (i32, i32)) -> (r: Option<String>)
        ensures
            hits(self.bbox, loc) ==> (r matches Some(s) && s@ == self.id@),
            !hits(self.bbox, loc) ==> r is None,
    {
        let (bbs, bbe) = self.bbox;
        if (loc.0 >= bbs.0 && loc.1 <= bbs.1) && (loc.0 <= bbe.0 && loc.1 >= bbe.1) {
            Some(self.id.clone())
        } else {
            None
        }
    }
}

impl DrawUI for Button {
    fn draw(&self, cursor: (i32, i32)) -> (r: Vec<ScreenCmd>)
        ensures
            r@ == button_look(*self, cursor, self.text),
    {
        let bg = if self.bbox_colliding(cursor).is_some() {
            Color { r: 255, g: 255, b: 255 }
        } else {
            Color { r: 100, g: 100, b: 100 }
        };
        vec![
            ScreenCmd::SetDefaultForeground(Color { r: 0, g: 0, b: 0 }),
            ScreenCmd::SetDefaultBackground(bg),
            ScreenCmd::PrintEx {
                x: self.bbox.0.0,
                y: self.bbox.0.1,
                flag: Background::Replace,
                align: Align::Center,
                text: self.text.clone(),
            },
            ScreenCmd::SetDefaultForeground(Color { r: 255, g: 255, b: 255 }),
            ScreenCmd::SetDefaultBackground(Color { r: 0, g: 0, b: 0 }),
        ]
    }
}


/// Buttons laid out in rows.
pub struct Layout {
    pub buttons: Vec<Button>,
}

/// Where the `i`th button of a layout goes: `i` button widths along,
/// wrapped every `wrap` columns onto a new row one button height and a gap
/// further down.
pub open spec fn slot(i: int, pos: (i32, i32), size: (i32, i32), wrap: i32) -> (int, int) {
    let raw = i * size.0;
    (pos.0 + raw % (wrap as int), pos.1 + (raw / (wrap as int)) * (size.1 + 1))
}

/// The layout wraps at a positive width, its buttons have no negative
/// size, and every slot of `n` buttons, with its box, fits in `i32`s.
pub open spec fn layout_fits(n: int, pos: (i32, i32), size: (i32, i32), wrap: i32) -> bool {
    &&& wrap > 0
    &&& size.0 >= 0
    &&& size.1 >= 0
    &&& n <= i32::MAX
    &&& size.1 + 1 <= i32::MAX
    &&& forall|i: int| 0 <= i < n ==> #[trigger] slot_fits(i, pos, size, wrap)
}

/// The `i`th slot, and its box, fits in `i32`s.
pub open spec fn slot_fits(i: int, pos: (i32, i32), size: (i32, i32), wrap: i32) -> bool {
    let raw = i * size.0;
    let p = slot(i, pos, size, wrap);
    &&& raw <= i32::MAX
    &&& (raw / (wrap as int)) * (size.1 + 1) <= i32::MAX
    &&& i32::MIN <= p.0 <= i32::MAX
    &&& i32::MIN <= p.1 <= i32::MAX
    &&& bbox_fits((p.0 as i32, p.1 as i32), size)
}

/// The last of the buttons, among the first `n`, that `loc` hits.
pub open spec fn hit_from_back(bs: Seq<Button>, loc: (i32, i32), n: int) -> Option<int>
    decreases n,
{
    if n <= 0 {
        None
    } else if hits(bs[n - 1].bbox, loc) {
        Some(n - 1)
    } else {
        hit_from_back(bs, loc, n - 1)
    }
}

/// How the first `n` buttons look, one after the other.
pub open spec fn layout_look(bs: Seq<Button>, cursor: (i32, i32), n: int) -> Seq<ScreenCmd>
    decreases n,
{
    if n <= 0 {
        Seq::empty()
    } else {
        layout_look(bs, cursor, n - 1) + button_look(bs[n - 1], cursor, bs[n - 1].text)
    }
}

impl Layout {
    /// Buttons labelled `elements`, each of `button_size`, laid out from
    /// `pos`; see `slot`.
    pub fn new(elements: Vec<&str>, pos: (i32, i32), button_size: (i32, i32), wrap_at: i32) -> (l: Layout)
        requires
            layout_fits(elements@.len() as int, pos, button_size, wrap_at),
        ensures
            l.buttons@.len() == elements@.len(),
            forall|i: int|
                0 <= i < elements@.len() ==> {
                    let b = #[trigger] l.buttons@[i];
                    let p = slot(i, pos, button_size, wrap_at);
                    &&& b.bbox == bbox_at((p.0 as i32, p.1 as i32), button_size)
                    &&& b.text@ == elements@[i]@
                    &&& b.id@ == button_id(elements@[i]@)
                },
    {
        let mut buttons: Vec<Button> = Vec::new();
        let mut i: usize = 0;
        while i < elements.len()
            invariant
                layout_fits(elements@.len() as int, pos, button_size, wrap_at),
                i <= elements@.len(),
                buttons@.len() == i,
                forall|k: int|
                    0 <= k < i ==> {
                        let b = #[trigger] buttons@[k];
                        let p = slot(k, pos, button_size, wrap_at);
                        &&& b.bbox == bbox_at((p.0 as i32, p.1 as i32), button_size)
                        &&& b.text@ == elements@[k]@
                        &&& b.id@ == button_id(elements@[k]@)
                    },
            decreases elements@.len() - i,
        {
            let ghost p = slot(i as int, pos, button_size, wrap_at);
            assert(slot_fits(i as int, pos, button_size, wrap_at));
            assert(0 <= (i as int) * button_size.0) by (nonlinear_arith)
                requires
                    0 <= i,
                    0 <= button_size.0;
            let raw_x = (i as i32) * button_size.0;
            assert(0 <= raw_x / wrap_at <= raw_x) by (nonlinear_arith)
                requires
                    0 <= raw_x,
                    0 < wrap_at;
            let x = pos.0 + (raw_x % wrap_at);
            let y = pos.1 + (raw_x / wrap_at * (button_size.1 + 1));
            assert(x == p.0 && y == p.1);
            let b = Button::new(elements[i], (x, y), button_size);
            buttons.push(b);
            i += 1;
        }
        Layout { buttons }
    }
}

impl MouseUI for Layout {
    /// The id of the last button that `cursor` hits.
    fn bbox_colliding(&self, cursor: (i32, i32)) -> (r: Option<String>)
        ensures
            hit_from_back(self.buttons@, cursor, self.buttons@.len() as int) matches Some(i) ==> (r matches Some(s)
                && s@ == self.buttons@[i].id@),
            hit_from_back(self.buttons@, cursor, self.buttons@.len() as int) is None ==> r is None,
    {
        let mut n: usize = self.buttons.len();
        while n > 0
            invariant
                n <= self.buttons@.len(),
                hit_from_back(self.buttons@, cursor, self.buttons@.len() as int) == hit_from_back(
                    self.buttons@,
                    cursor,
                    n as int,
                ),
            decreases n,
        {
            if let Some(x) = self.buttons[n - 1].bbox_colliding(cursor) {
                return Some(x);
            }
            n -= 1;
        }
        None
    }
}

impl DrawUI for Layout {
    fn draw(&self, cursor: (i32, i32)) -> (r: Vec<ScreenCmd>)
        ensures
            r@ == layout_look(self.buttons@, cursor, self.buttons@.len() as int),
    {
        let mut out: Vec<ScreenCmd> = Vec::new();
        let mut i: usize = 0;
        while i < self.buttons.len()
            invariant
                i <= self.buttons@.len(),
                out@ == layout_look(self.buttons@, cursor, i as int),
            decreases self.buttons@.len() - i,
        {
            let mut look = self.buttons[i].draw(cursor);
            out.append(&mut look);
            i += 1;
        }
        out
    }
}


/// A layout whose buttons are exactly as wide as its wrap puts one button
/// per row: the `i`th button sits `i` rows (of the button's height and a
/// gap) below the first.
pub proof fn lemma_single_column(n: int, pos: (i32, i32), size: (i32, i32), wrap: i32)
    requires
        size.0 == wrap,
        wrap > 0,
        size.1 >= 0,
        0 <= n <= 1000,
        pos.0 + size.0 <= i32::MAX,
        0 <= pos.1,
        pos.1 + (n + 1) * (size.1 + 1) <= i32::MAX,
        n * wrap <= i32::MAX,
    ensures
        layout_fits(n, pos, size, wrap),
        forall|i: int| 0 <= i < n ==> #[trigger] slot(i, pos, size, wrap) == (pos.0 as int, pos.1 + i * (size.1 + 1)),
{
    assert forall|i: int| 0 <= i < n implies #[trigger] slot(i, pos, size, wrap) == (pos.0 as int, pos.1 + i * (size.1 + 1)) by {
        vstd::arithmetic::div_mod::lemma_mod_multiples_basic(i, wrap as int);
        vstd::arithmetic::div_mod::lemma_div_multiples_vanish(i, wrap as int);
        assert(i * size.0 == wrap * i) by (nonlinear_arith)
            requires size.0 == wrap;
    }
    assert forall|i: int| 0 <= i < n implies #[trigger] slot_fits(i, pos, size, wrap) by {
        vstd::arithmetic::div_mod::lemma_div_multiples_vanish(i, wrap as int);
        assert(i * size.0 == wrap * i) by (nonlinear_arith)
            requires size.0 == wrap;
        assert(i * size.0 <= n * wrap) by (nonlinear_arith)
            requires size.0 == wrap, 0 <= i < n, wrap > 0;
        assert(0 <= i * (size.1 + 1) && i * (size.1 + 1) + size.1 + 1 <= (n + 1) * (size.1 + 1)) by (nonlinear_arith)
            requires 0 <= i < n, size.1 >= 0;
        assert(slot(i, pos, size, wrap) == (pos.0 as int, pos.1 + i * (size.1 + 1)));
    }
    assert(size.1 + 1 <= (n + 1) * (size.1 + 1)) by (nonlinear_arith)
        requires 0 <= n, size.1 >= 0;
}

/// A text box: a label at a point, and the characters typed into it.
pub struct Textbox {
    pub label: String,
    pub pos: (i32, i32),
    pub size: (i32, i32),
    pub value: Vec<char>,
}

impl Textbox {
    /// An empty text box labelled `label`.
    pub fn new(label: &str, pos: (i32, i32), size: (i32, i32)) -> (t: Textbox)
        ensures
            t.label@ == label@,
            t.pos == pos,
            t.size == size,
            t.value@.len() == 0,
    {
        Textbox { label: text(label), pos, size, value: Vec::new() }
    }

    /// Types a character into the box.
    pub fn input(&mut self, c: char)
        ensures
            final(self).value@ == old(self).value@.push(c),
            final(self).label == old(self).label,
            final(self).pos == old(self).pos,
            final(self).size == old(self).size,
    {
        self.value.push(c);
    }
}

impl DrawUI for Textbox {
    /// The label, centred on the box's point.
    fn draw(&self, cursor: (i32, i32)) -> (r: Vec<ScreenCmd>)
        ensures
            r@.len() == 1,
            r@[0] matches ScreenCmd::PrintEx { x, y, flag, align, text } && x == self.pos.0 && y == self.pos.1
                && flag == Background::Replace && align == Align::Center && text@ == self.label@,
    {
        vec![
            ScreenCmd::PrintEx {
                x: self.pos.0,
                y: self.pos.1,
                flag: Background::Replace,
                align: Align::Center,
                text: self.label.clone(),
            },
        ]
    }
}

} // verus!
