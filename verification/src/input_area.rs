//! The text model behind a text edit: its text, the cursor, the selection and the
//! range being composed by an input method. Positions are byte offsets into the
//! UTF-8 text.
use vstd::prelude::*;
use vstd::utf8::*;

verus! {

broadcast use vstd::utf8::group_utf8_lib;

/// The UTF-8 bytes of a string.
pub open spec fn utf8(s: Seq<char>) -> Seq<u8> {
    encode_utf8(s)
}

/// `String::insert_str`: inserts `text` at byte `idx`. Panics when `idx` is past
/// the end or not on a char boundary, which `requires` rules out.
#[verifier::external_body]
fn string_insert_str(s: &mut String, idx: usize, text: &str)
    requires
        is_char_boundary(utf8(old(s)@), idx as int),
    ensures
        utf8(final(s)@) == utf8(old(s)@).subrange(0, idx as int) + utf8(text@) + utf8(
            old(s)@,
        ).subrange(idx as int, utf8(old(s)@).len() as int),
{
    s.insert_str(idx, text)
}

/// `String::replace_range`: replaces the bytes `start..end` with `text`. Panics when
/// the range is reversed, past the end or not on char boundaries, which
/// `requires` rules out.
#[verifier::external_body]
fn string_replace_range(s: &mut String, start: usize, end: usize, text: &str)
    requires
        start <= end,
        is_char_boundary(utf8(old(s)@), start as int),
        is_char_boundary(utf8(old(s)@), end as int),
    ensures
        utf8(final(s)@) == utf8(old(s)@).subrange(0, start as int) + utf8(text@) + utf8(
            old(s)@,
        ).subrange(end as int, utf8(old(s)@).len() as int),
{
    s.replace_range(start..end, text)
}

/// Something that happens to an input area.
pub enum InputAreaEvent {
    /// An input method replaces the composed range `start..start + length` with `text`.
    TextEditing { text: String, start: i32, length: i32 },
    /// Text is typed at the cursor.
    TextInput { text: String },
    /// The cursor moves by `offset` bytes.
    CursorMove { offset: i32 },
    /// A selection starts at the cursor.
    StartSelection,
    /// The selection ends.
    EndSelection,
}

#[derive(Clone, Debug, Default)]
pub struct InputArea {
    text: String,
    cursor: usize,
    selecting: bool,
    selection_start: usize,
    selection_end: usize,
    composing: bool,
    composition_start: usize,
    composition_end: usize,
}

/// The state of an input area.
pub struct InputAreaView {
    pub text: Seq<char>,
    pub cursor: nat,
    pub selecting: bool,
    pub selection_start: nat,
    pub selection_end: nat,
    pub composing: bool,
    pub composition_start: nat,
    pub composition_end: nat,
}

impl View for InputArea {
    type V = InputAreaView;

    closed spec fn view(&self) -> InputAreaView {
        InputAreaView {
            text: self.text@,
            cursor: self.cursor as nat,
            selecting: self.selecting,
            selection_start: self.selection_start as nat,
            selection_end: self.selection_end as nat,
            composing: self.composing,
            composition_start: self.composition_start as nat,
            composition_end: self.composition_end as nat,
        }
    }
}

/// The cursor after a move by `offset` from `cursor` in a text of `len` bytes: the
/// offset is added to the cursor taken as an `i32`, and the result is held between 0
/// and `len`.
pub open spec fn moved_cursor(cursor: usize, offset: i32, len: nat) -> nat {
    let p = (cursor as i32) + offset;
    let q: nat = if p < 0 {
        0
    } else {
        p as nat
    };
    if q < len {
        q
    } else {
        len
    }
}

/// Whether `e` can happen to `a`: the composed range and the typing position lie on
/// char boundaries, and the arithmetic fits.
pub open spec fn event_ok(a: InputAreaView, e: InputAreaEvent) -> bool {
    let b = utf8(a.text);
    match e {
        InputAreaEvent::TextEditing { text, start, length } => {
            &&& 0 <= start
            &&& 0 <= length
            &&& start + length <= i32::MAX
            &&& is_char_boundary(b, start as int)
            &&& is_char_boundary(b, start + length)
        },
        InputAreaEvent::TextInput { text } => {
            &&& is_char_boundary(b, a.cursor as int)
            &&& a.cursor + utf8(text@).len() <= usize::MAX
        },
        InputAreaEvent::CursorMove { offset } => i32::MIN <= ((a.cursor as usize) as i32) + offset
            <= i32::MAX,
        _ => true,
    }
}

/// What `e` makes of the state `a`.
pub open spec fn event_result(a: InputAreaView, e: InputAreaEvent, r: InputAreaView) -> bool {
    let b = utf8(a.text);
    match e {
        InputAreaEvent::TextEditing { text, start, length } => {
            let end = (start + length) as nat;
            &&& utf8(r.text) == b.subrange(0, start as int) + utf8(text@) + b.subrange(
                end as int,
                b.len() as int,
            )
            &&& r.composing
            &&& r.composition_start == start as nat
            &&& r.composition_end == end
            &&& r.cursor == end
            &&& r.selecting == a.selecting
            &&& r.selection_start == a.selection_start
            &&& r.selection_end == a.selection_end
        },
        InputAreaEvent::TextInput { text } => {
            &&& utf8(r.text) == b.subrange(0, a.cursor as int) + utf8(text@) + b.subrange(
                a.cursor as int,
                b.len() as int,
            )
            &&& r.cursor == a.cursor + utf8(text@).len()
            &&& !r.composing
            &&& r.composition_start == a.composition_start
            &&& r.composition_end == a.composition_end
            &&& r.selecting == a.selecting
            &&& r.selection_start == a.selection_start
            &&& r.selection_end == a.selection_end
        },
        InputAreaEvent::CursorMove { offset } => {
            let c = moved_cursor(a.cursor as usize, offset, b.len());
            &&& r.text == a.text
            &&& r.cursor == c
            &&& r.composing == a.composing
            &&& r.composition_start == a.composition_start
            &&& r.composition_end == a.composition_end
            &&& r.selecting == a.selecting
            &&& !a.selecting ==> r.selection_start == a.selection_start && r.selection_end
                == a.selection_end
            &&& a.selecting ==> if a.selection_start > c {
                r.selection_start == c && r.selection_end == a.selection_start
            } else {
                r.selection_start == a.selection_start && r.selection_end == c
            }
        },
        InputAreaEvent::StartSelection => {
            &&& r.text == a.text
            &&& r.cursor == a.cursor
            &&& r.selecting
            &&& r.selection_start == a.cursor
            &&& r.selection_end == a.cursor
            &&& r.composing == a.composing
            &&& r.composition_start == a.composition_start
            &&& r.composition_end == a.composition_end
        },
        InputAreaEvent::EndSelection => {
            &&& r.text == a.text
            &&& r.cursor == a.cursor
            &&& !r.selecting
            &&& r.selection_start == a.selection_start
            &&& r.selection_end == a.selection_end
            &&& r.composing == a.composing
            &&& r.composition_start == a.composition_start
            &&& r.composition_end == a.composition_end
        },
    }
}

impl InputArea {
    /// An empty area with the cursor at 0 and nothing selected or composed.
    pub fn new() -> (a: Self)
        ensures
            a@.text == Seq::<char>::empty(),
            a@.cursor == 0,
            !a@.selecting,
            a@.selection_start == 0,
            a@.selection_end == 0,
            !a@.composing,
            a@.composition_start == 0,
            a@.composition_end == 0,
    {
        Self {
            text: String::new(),
            cursor: 0,
            selecting: false,
            selection_start: 0,
            selection_end: 0,
            composing: false,
            composition_start: 0,
            composition_end: 0,
        }
    }

    /// Applies `event` (see [`event_result`]).
    pub fn event(&mut self, event: InputAreaEvent)
        requires
            event_ok(old(self)@, event),
        ensures
            event_result(old(self)@, event, final(self)@),
    {
        let ghost e = event;
        match event {
            InputAreaEvent::TextEditing { text, start, length } => {
                self.composing = true;
                self.composition_start = start as usize;
                self.composition_end = (start + length) as usize;
                string_replace_range(
                    &mut self.text,
                    self.composition_start,
                    self.composition_end,
                    text.as_str(),
                );
                self.cursor = self.composition_end;
            },
            InputAreaEvent::TextInput { text } => {
                string_insert_str(&mut self.text, self.cursor, text.as_str());
                let n = text.as_str().len();
                self.cursor = self.cursor + n;
                self.composing = false;
            },
            InputAreaEvent::CursorMove { offset } => {
                let p = #[verifier::truncate] (self.cursor as i32) + offset;
                let new_pos = if p < 0 {
                    0usize
                } else {
                    p as usize
                };
                let len = self.text.as_str().as_bytes().len();
                self.cursor = if new_pos < len {
                    new_pos
                } else {
                    len
                };
                if self.selecting {
                    self.selection_end = self.cursor;
                    if self.selection_start > self.selection_end {
                        let t = self.selection_start;
                        self.selection_start = self.selection_end;
                        self.selection_end = t;
                    }
                }
            },
            InputAreaEvent::StartSelection => {
                self.selecting = true;
                self.selection_start = self.cursor;
                self.selection_end = self.cursor;
            },
            InputAreaEvent::EndSelection => {
                self.selecting = false;
            },
        }
    }

    pub fn text(&self) -> (t: &str)
        ensures
            t@ == self@.text,
    {
        self.text.as_str()
    }

    pub fn cursor_pos(&self) -> (c: usize)
        ensures
            c == self@.cursor,
    {
        self.cursor
    }

    /// The selected range, while selecting.
    pub fn selection(&self) -> (r: Option<(usize, usize)>)
        ensures
            self@.selecting ==> r == Some(
                (self@.selection_start as usize, self@.selection_end as usize),
            ),
            !self@.selecting ==> r is None,
    {
        if self.selecting {
            Some((self.selection_start, self.selection_end))
        } else {
            None
        }
    }

    /// The composed range, while composing.
    pub fn composing(&self) -> (r: Option<(usize, usize)>)
        ensures
            self@.composing ==> r == Some(
                (self@.composition_start as usize, self@.composition_end as usize),
            ),
            !self@.composing ==> r is None,
    {
        if self.composing {
            Some((self.composition_start, self.composition_end))
        } else {
            None
        }
    }
}

/// Typing text at a cursor that lies on a char boundary leaves the cursor on a char
/// boundary, right after the typed text.
pub proof fn lemma_typing_keeps_cursor_on_boundary(
    old_text: Seq<char>,
    cursor: nat,
    typed: Seq<char>,
    new_text: Seq<char>,
)
    requires
        is_char_boundary(utf8(old_text), cursor as int),
        utf8(new_text) == utf8(old_text).subrange(0, cursor as int) + utf8(typed) + utf8(
            old_text,
        ).subrange(cursor as int, utf8(old_text).len() as int),
    ensures
        is_char_boundary(utf8(new_text), (cursor + utf8(typed).len()) as int),
{
    let b = utf8(old_text);
    let pre = b.subrange(0, cursor as int);
    let post = b.subrange(cursor as int, b.len() as int);
    let t = utf8(typed);
    assert(valid_utf8(b));
    assert(valid_utf8(pre));
    assert(valid_utf8(post));
    assert(valid_utf8(t));
    let nb = utf8(new_text);
    assert(valid_utf8(nb));
    let k = (cursor + t.len()) as int;
    if k < nb.len() {
        assert(post.len() > 0);
        assert(is_char_boundary(post, 0));
        assert(!is_continuation_byte(post[0]));
        assert(nb[k] == post[0]);
    }
}

/// While selecting, a cursor move leaves the selection ordered, with the cursor at
/// one of its ends.
pub proof fn lemma_cursor_move_orders_selection(a: InputAreaView, offset: i32, r: InputAreaView)
    requires
        a.selecting,
        event_result(a, InputAreaEvent::CursorMove { offset }, r),
    ensures
        r.selection_start <= r.selection_end,
        r.cursor == r.selection_start || r.cursor == r.selection_end,
        r.cursor <= utf8(r.text).len(),
{
}

/// A cursor move goes exactly `offset` bytes when that stays inside the text, and
/// stops at the start or the end of the text otherwise; it never leaves the text.
pub proof fn lemma_cursor_move_is_clamped(cursor: usize, offset: i32, len: nat)
    requires
        cursor <= i32::MAX,
    ensures
        moved_cursor(cursor, offset, len) <= len,
        0 <= cursor + offset <= len ==> moved_cursor(cursor, offset, len) == cursor + offset,
        cursor + offset < 0 ==> moved_cursor(cursor, offset, len) == 0,
        cursor + offset > len ==> moved_cursor(cursor, offset, len) == len,
{
    assert((cursor as i32) == cursor);
}

} // verus!
