use vstd::prelude::*;
use vstd::string::StrSliceExecFns;
use vstd::utf8::encode_utf8;
use vstd::utf8::encode_scalar;
use vstd::std_specs::iter::IteratorSpec;

verus! {

/// Number of bytes that the UTF-8 encoding of the first `k` characters of `s` takes.
pub open spec fn byte_offset(s: Seq<char>, k: int) -> nat {
    encode_utf8(s.subrange(0, k)).len()
}

/// Number of bytes that the UTF-8 encoding of `c` takes.
pub open spec fn utf8_len(c: char) -> nat {
    encode_scalar(c as u32).len()
}

proof fn lemma_encode_concat(a: Seq<char>, b: Seq<char>)
    ensures
        encode_utf8(a + b) == encode_utf8(a) + encode_utf8(b),
    decreases a.len(),
{
    if a.len() == 0 {
        assert(a + b =~= b);
        assert(encode_utf8(a) + encode_utf8(b) =~= encode_utf8(b));
    } else {
        assert((a + b).drop_first() =~= a.drop_first() + b);
        lemma_encode_concat(a.drop_first(), b);
        assert(encode_utf8(a + b) =~= encode_utf8(a) + encode_utf8(b));
    }
}

proof fn lemma_encode_single(c: char)
    ensures
        encode_utf8(seq![c]).len() == utf8_len(c),
{
    let s = seq![c];
    assert(s.drop_first() =~= Seq::<char>::empty());
    assert(encode_utf8(s) =~= encode_scalar(c as u32) + encode_utf8(s.drop_first()));
}

/// Each further character adds its own width to the byte offset.
proof fn lemma_byte_offset_step(s: Seq<char>, k: int)
    requires
        0 <= k < s.len(),
    ensures
        byte_offset(s, k + 1) == byte_offset(s, k) + utf8_len(s[k]),
{
    assert(s.subrange(0, k + 1) =~= s.subrange(0, k) + seq![s[k]]);
    lemma_encode_concat(s.subrange(0, k), seq![s[k]]);
    lemma_encode_single(s[k]);
}

/// The byte offset grows with the character offset, and never passes the whole encoding.
proof fn lemma_byte_offset_mono(s: Seq<char>, j: int, k: int)
    requires
        0 <= j <= k <= s.len(),
    ensures
        byte_offset(s, j) <= byte_offset(s, k),
        j < k ==> byte_offset(s, j) < byte_offset(s, k),
    decreases k - j,
{
    if j < k {
        lemma_byte_offset_mono(s, j, k - 1);
        lemma_byte_offset_step(s, k - 1);
        lemma_encode_single(s[k - 1]);
    }
}

/// Every character takes at least one byte.
proof fn lemma_byte_offset_at_least(s: Seq<char>, k: int)
    requires
        0 <= k <= s.len(),
    ensures
        k <= byte_offset(s, k),
    decreases k,
{
    if k > 0 {
        lemma_byte_offset_at_least(s, k - 1);
        lemma_byte_offset_step(s, k - 1);
        lemma_encode_single(s[k - 1]);
    }
}

/// Width in bytes of the UTF-8 encoding of `c`, as `char::len_utf8` gives it.
pub fn utf8_width(c: char) -> (n: usize)
    ensures
        n == utf8_len(c),
        1 <= n <= 4,
{
    let v = c as u32;
    if v <= 0x7F {
        1
    } else if v <= 0x7FF {
        2
    } else if v <= 0xFFFF {
        3
    } else {
        4
    }
}

/// Relies on str::len: the length of the string in bytes, which is the length of its UTF-8 encoding.
#[verifier::external_body]
fn byte_len(s: &str) -> (n: usize)
    ensures
        n as nat == encode_utf8(s@).len(),
{
    s.len()
}

/// Relies on String::insert: puts `c` at byte index `idx`, which lies on a character boundary.
#[verifier::external_body]
fn insert_at_byte(s: &mut String, idx: usize, c: char)
    requires
        exists|k: int| 0 <= k <= old(s)@.len() && idx == byte_offset(old(s)@, k),
    ensures
        forall|k: int|
            0 <= k <= old(s)@.len() && idx == #[trigger] byte_offset(old(s)@, k)
                ==> final(s)@ == old(s)@.insert(k, c),
{
    s.insert(idx, c)
}

/// Relies on String::remove: takes out the character that starts at byte index `idx`.
#[verifier::external_body]
fn remove_at_byte(s: &mut String, idx: usize) -> (r: char)
    requires
        exists|k: int| 0 <= k < old(s)@.len() && idx == byte_offset(old(s)@, k),
    ensures
        forall|k: int|
            0 <= k < old(s)@.len() && idx == #[trigger] byte_offset(old(s)@, k)
                ==> final(s)@ == old(s)@.remove(k) && r == old(s)@[k],
{
    s.remove(idx)
}

/// Byte index at which the character at `char_pos` starts, found by adding up the
/// widths of the characters before it.
fn byte_position(text: &String, char_pos: usize) -> (b: usize)
    requires
        char_pos <= text@.len(),
    ensures
        b == byte_offset(text@, char_pos as int),
{
    // The whole encoding fits in a usize, so each partial sum does too.
    let total = byte_len(text.as_str());
    let mut b: usize = 0;
    let mut i: usize = 0;
    let mut it = text.as_str().chars();
    proof {
        broadcast use vstd::string::axiom_spec_iter;
        assert(text@.subrange(0, text@.len() as int) =~= text@);
    }
    while i < char_pos
        invariant
            i <= char_pos <= text@.len(),
            b == byte_offset(text@, i as int),
            total as nat == byte_offset(text@, text@.len() as int),
            it.obeys_prophetic_iter_laws(),
            it.remaining() == text@.subrange(i as int, text@.len() as int),
        decreases char_pos - i,
    {
        let next = it.next();
        match next {
            Some(c) => {
                proof {
                    lemma_byte_offset_step(text@, i as int);
                    lemma_byte_offset_mono(text@, i as int + 1, text@.len() as int);
                }
                b = b + utf8_width(c);
                i = i + 1;
            },
            None => {
                proof {
                    assert(false);
                }
                i = char_pos;
            },
        }
    }
    b
}


/// Text typed into a name-entry popup, with the cursor given as a character offset.
pub struct InputState {
    pub current_input: String,
    pub cursor_pos: usize,
    /// Whether committing the text renames an existing entity rather than creating one.
    pub is_modifying: bool,
}

/// The three display segments of an input line: the text before the cursor, the
/// character under the cursor (a block glyph at the end of the text), and the text after it.
pub struct CursorSpans {
    pub before: String,
    pub at_cursor: String,
    pub after: String,
}

/// Inserting a character at a valid cursor position keeps every other character, in
/// order, and adds exactly one: reading the text back gives the text before the
/// cursor, the character, then the text after it.
pub proof fn lemma_insert_round_trip(text: Seq<char>, pos: int, c: char, after: Seq<char>)
    requires
        0 <= pos <= text.len(),
        after == text.insert(pos, c),
    ensures
        after.len() == text.len() + 1,
        after[pos] == c,
        after.subrange(0, pos) == text.subrange(0, pos),
        after.subrange(pos + 1, after.len() as int) == text.subrange(pos, text.len() as int),
        after.remove(pos) == text,
{
    assert(after.subrange(0, pos) =~= text.subrange(0, pos));
    assert(after.subrange(pos + 1, after.len() as int) =~= text.subrange(pos, text.len() as int));
    assert(after.remove(pos) =~= text);
}

/// The glyph shown when the cursor stands past the last character.
pub open spec fn block_glyph() -> Seq<char> {
    seq!['\u{2588}']
}

impl InputState {
    /// The cursor lies within the text.
    pub open spec fn wf(&self) -> bool {
        self.cursor_pos <= self.current_input@.len()
    }

    /// An empty input for creating an entity.
    pub fn new() -> (r: InputState)
        ensures
            r.wf(),
            r.current_input@ == Seq::<char>::empty(),
            r.cursor_pos == 0,
            !r.is_modifying,
    {
        InputState { current_input: String::new(), cursor_pos: 0, is_modifying: false }
    }

    /// An input pre-filled with an existing name, for renaming.
    pub fn for_modifying(name: &String) -> (r: InputState)
        ensures
            r.wf(),
            r.current_input@ == name@,
            r.cursor_pos == 0,
            r.is_modifying,
    {
        InputState { current_input: name.clone(), cursor_pos: 0, is_modifying: true }
    }

    pub fn get_text(&self) -> (r: &String)
        ensures
            r@ == self.current_input@,
    {
        &self.current_input
    }

    pub fn get_cursor_pos(&self) -> (r: usize)
        ensures
            r == self.cursor_pos,
    {
        self.cursor_pos
    }

    /// Inserts `c` at the cursor and moves the cursor past it.
    pub fn add_char(&mut self, c: char)
        requires
            old(self).wf(),
        ensures
            final(self).wf(),
            final(self).current_input@ == old(self).current_input@.insert(
                old(self).cursor_pos as int,
                c,
            ),
            final(self).cursor_pos == old(self).cursor_pos + 1,
            final(self).is_modifying == old(self).is_modifying,
    {
        let char_pos = self.cursor_pos;
        let byte_pos = byte_position(&self.current_input, char_pos);
        insert_at_byte(&mut self.current_input, byte_pos, c);
        // The byte length of the new text fits in a usize, and bounds its character count.
        let total = byte_len(self.current_input.as_str());
        proof {
            let t = self.current_input@;
            assert(t.subrange(0, t.len() as int) =~= t);
            lemma_byte_offset_at_least(t, t.len() as int);
            assert(t.len() <= total);
        }
        self.cursor_pos = char_pos + 1;
    }

    /// Removes the character before the cursor (backspace); nothing happens at the start.
    pub fn remove_char_before_cursor(&mut self)
        requires
            old(self).wf(),
        ensures
            final(self).wf(),
            final(self).is_modifying == old(self).is_modifying,
            old(self).cursor_pos == 0 ==> *final(self) == *old(self),
            old(self).cursor_pos > 0 ==> {
                &&& final(self).current_input@ == old(self).current_input@.remove(
                    old(self).cursor_pos - 1,
                )
                &&& final(self).cursor_pos == old(self).cursor_pos - 1
            },
    {
        let char_pos = self.cursor_pos;
        if char_pos > 0 {
            let byte_pos = byte_position(&self.current_input, char_pos - 1);
            remove_at_byte(&mut self.current_input, byte_pos);
            self.cursor_pos = char_pos - 1;
        }
    }

    /// Removes the character under the cursor (delete); nothing happens at the end.
    pub fn delete_char_after_cursor(&mut self)
        requires
            old(self).wf(),
        ensures
            final(self).wf(),
            final(self).is_modifying == old(self).is_modifying,
            final(self).cursor_pos == old(self).cursor_pos,
            old(self).cursor_pos == old(self).current_input@.len() ==> *final(self)
                == *old(self),
            old(self).cursor_pos < old(self).current_input@.len()
                ==> final(self).current_input@ == old(self).current_input@.remove(
                old(self).cursor_pos as int,
            ),
    {
        let pos = self.cursor_pos;
        let text_len = self.current_input.as_str().unicode_len();
        if pos < text_len {
            let byte_pos = byte_position(&self.current_input, pos);
            remove_at_byte(&mut self.current_input, byte_pos);
        }
    }

    /// Moves the cursor one character to the left, stopping at the start.
    pub fn move_cursor_left(&mut self)
        requires
            old(self).wf(),
        ensures
            final(self).wf(),
            final(self).current_input@ == old(self).current_input@,
            final(self).is_modifying == old(self).is_modifying,
            final(self).cursor_pos == if old(self).cursor_pos > 0 {
                (old(self).cursor_pos - 1) as usize
            } else {
                0
            },
    {
        let pos = self.cursor_pos;
        if pos > 0 {
            self.cursor_pos = pos - 1;
        }
    }

    /// Moves the cursor one character to the right, stopping at the end of the text.
    pub fn move_cursor_right(&mut self)
        requires
            old(self).wf(),
        ensures
            final(self).wf(),
            final(self).current_input@ == old(self).current_input@,
            final(self).is_modifying == old(self).is_modifying,
            final(self).cursor_pos == if old(self).cursor_pos < old(self).current_input@.len() {
                old(self).cursor_pos + 1
            } else {
                old(self).cursor_pos as int
            },
    {
        let pos = self.cursor_pos;
        let text_len = self.current_input.as_str().unicode_len();
        if pos < text_len {
            self.cursor_pos = pos + 1;
        }
    }

    /// Empties the text and puts the cursor at the start.
    pub fn clear(&mut self)
        ensures
            final(self).wf(),
            final(self).current_input@ == Seq::<char>::empty(),
            final(self).cursor_pos == 0,
            final(self).is_modifying == old(self).is_modifying,
    {
        self.current_input = String::new();
        self.cursor_pos = 0;
    }

    /// Splits the text round the cursor for display.
    pub fn create_cursor_text_spans(&self) -> (r: CursorSpans)
        requires
            self.wf(),
        ensures
            r.before@ == self.current_input@.subrange(0, self.cursor_pos as int),
            self.cursor_pos < self.current_input@.len() ==> {
                &&& r.at_cursor@ == seq![self.current_input@[self.cursor_pos as int]]
                &&& r.after@ == self.current_input@.subrange(
                    self.cursor_pos + 1,
                    self.current_input@.len() as int,
                )
            },
            self.cursor_pos == self.current_input@.len() ==> {
                &&& r.at_cursor@ == block_glyph()
                &&& r.after@ == Seq::<char>::empty()
            },
    {
        let text = self.current_input.as_str();
        let text_len = text.unicode_len();
        let pos = self.cursor_pos;
        let before = text.substring_char(0, pos).to_owned();
        if pos < text_len {
            let at_cursor = text.substring_char(pos, pos + 1).to_owned();
            let after = text.substring_char(pos + 1, text_len).to_owned();
            proof {
                assert(at_cursor@ =~= seq![self.current_input@[pos as int]]);
            }
            CursorSpans { before, at_cursor, after }
        } else {
            let glyph = "\u{2588}";
            proof {
                reveal_strlit("\u{2588}");
            }
            CursorSpans { before, at_cursor: glyph.to_owned(), after: String::new() }
        }
    }
}

} // verus!
