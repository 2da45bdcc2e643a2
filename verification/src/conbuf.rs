//! Text shown in the console window.

use vstd::prelude::*;
use vstd::string::{StrSliceExecFns, StringExecFns};
use crate::sys::ThreadTable;
use crate::text::push_char;
use crate::platform::{FontHandle, WindowHandle};
use vstd::utf8::{encode_scalar, encode_utf8};
use vstd::string::StringSliceAdditionalSpecFns;

verus! {

/// What the console window shows for `s`: each line break ("\n" or "\r",
/// with the character after it) becomes "\r\n" followed by that character
/// unless it completes the pair; any other character is kept and the one
/// after it is skipped. A trailing line break is dropped.
pub open spec fn cleaned(s: Seq<char>) -> Seq<char>
    decreases s.len(),
{
    if s.len() == 0 {
        Seq::empty()
    } else if s[0] == '\n' || s[0] == '\r' {
        if s.len() == 1 {
            Seq::empty()
        } else {
            let partner = if s[0] == '\n' { '\r' } else { '\n' };
            let kept = if s[1] != partner { seq![s[1]] } else { Seq::empty() };
            seq!['\r', '\n'] + kept + cleaned(s.subrange(2, s.len() as int))
        }
    } else if s.len() == 1 {
        seq![s[0]]
    } else {
        seq![s[0]] + cleaned(s.subrange(2, s.len() as int))
    }
}

proof fn lemma_cleaned_step(s: Seq<char>, i: int)
    requires
        0 <= i < s.len(),
    ensures
        cleaned(s.subrange(i, s.len() as int)) == if s[i] == '\n' || s[i] == '\r' {
            if i + 1 == s.len() {
                Seq::<char>::empty()
            } else {
                let partner = if s[i] == '\n' { '\r' } else { '\n' };
                let kept = if s[i + 1] != partner { seq![s[i + 1]] } else { Seq::<char>::empty() };
                seq!['\r', '\n'] + kept + cleaned(s.subrange(i + 2, s.len() as int))
            }
        } else if i + 1 == s.len() {
            seq![s[i]]
        } else {
            seq![s[i]] + cleaned(s.subrange(i + 2, s.len() as int))
        },
{
    let t = s.subrange(i, s.len() as int);
    if t.len() >= 2 {
        assert(t.subrange(2, t.len() as int) =~= s.subrange(i + 2, s.len() as int));
    }
}

/// Rewrites `text` for the console window (see [`cleaned`]).
pub fn clean_text(text: &str) -> (r: String)
    ensures
        r@ == cleaned(text@),
{
    let n = text.unicode_len();
    let mut clean = String::new();
    let mut i: usize = 0;
    assert(text@.subrange(0, n as int) =~= text@);
    while i < n
        invariant
            n == text@.len(),
            i <= n,
            clean@ + cleaned(text@.subrange(i as int, n as int)) == cleaned(text@),
        decreases n - i,
    {
        proof {
            lemma_cleaned_step(text@, i as int);
        }
        let c = text.get_char(i);
        if c == '\n' || c == '\r' {
            if i + 1 == n {
                assert(clean@ + Seq::<char>::empty() =~= clean@);
                assert(text@.subrange(n as int, n as int) =~= Seq::<char>::empty());
                i = n;
            } else {
                let c2 = text.get_char(i + 1);
                let partner = if c == '\n' { '\r' } else { '\n' };
                let ghost before = clean@;
                clean.append("\r\n");
                proof {
                    reveal_strlit("\r\n");
                }
                if c2 != partner {
                    push_char(&mut clean, c2);
                    assert(clean@ =~= before + seq!['\r', '\n'] + seq![c2]);
                } else {
                    assert(clean@ =~= before + seq!['\r', '\n'] + Seq::<char>::empty());
                }
                i = i + 2;
            }
        } else {
            let ghost before = clean@;
            push_char(&mut clean, c);
            if i + 1 == n {
                assert(text@.subrange(n as int, n as int) =~= Seq::<char>::empty());
                i = n;
            } else {
                i = i + 2;
            }
            assert(clean@ =~= before + seq![c]);
        }
    }
    assert(text@.subrange(n as int, n as int) =~= Seq::<char>::empty());
    clean
}


/// The text to append to the console window, from the main thread only:
/// none where the console has no buffer window or `current` is not the
/// main thread.
pub fn append_text_in_main_thread(has_buffer_window: bool, threads: &ThreadTable, current: u64, text: &str) -> (r: Option<String>)
    requires
        threads.wf(),
    ensures
        r matches Some(t) ==> t@ == text@,
        r is Some <==> has_buffer_window && threads.is_in_slot(current, 0),
{
    if !has_buffer_window {
        return None;
    }
    if threads.is_main_thread(current) {
        Some(text.to_owned())
    } else {
        None
    }
}

/// The characters a console text of up to 512 bytes holds.
pub uninterp spec fn console_text_chars(s: arrayvec::ArrayString<512>) -> Seq<char>;

/// Calls `ArrayString::new`: an empty text.
#[verifier::external_body]
fn new_console_text() -> (r: arrayvec::ArrayString<512>)
    ensures
        console_text_chars(r).len() == 0,
{
    arrayvec::ArrayString::new()
}

/// Calls `ArrayString::len`: the bytes the text takes in UTF-8, which its
/// capacity bounds.
#[verifier::external_body]
fn console_text_len(s: &arrayvec::ArrayString<512>) -> (r: usize)
    ensures
        r == encode_utf8(console_text_chars(*s)).len(),
        r <= 512,
{
    s.len()
}

/// Calls `ArrayString::push_str`, which appends `t` and panics where its
/// bytes do not fit in what is left of the capacity.
#[verifier::external_body]
fn push_console_text(s: &mut arrayvec::ArrayString<512>, t: &str)
    requires
        encode_utf8(console_text_chars(*old(s))).len() + t.spec_bytes().len() <= 512,
    ensures
        console_text_chars(*final(s)) == console_text_chars(*old(s)) + t@,
{
    s.push_str(t)
}

/// Calls `ArrayString::push`, which appends `c` and panics where its bytes
/// do not fit in what is left of the capacity.
#[verifier::external_body]
fn push_console_char(s: &mut arrayvec::ArrayString<512>, c: char)
    requires
        encode_utf8(console_text_chars(*old(s))).len() + encode_utf8(seq![c]).len() <= 512,
    ensures
        console_text_chars(*final(s)) == console_text_chars(*old(s)).push(c),
{
    s.push(c)
}

/// The UTF-8 encoding of two texts one after the other is the encoding of
/// the first followed by that of the second.
proof fn lemma_encode_concat(a: Seq<char>, b: Seq<char>)
    ensures
        encode_utf8(a + b) == encode_utf8(a) + encode_utf8(b),
    decreases a.len(),
{
    if a.len() == 0 {
        assert(a + b =~= b);
        assert(encode_utf8(a) + encode_utf8(b) =~= encode_utf8(b));
    } else {
        lemma_encode_concat(a.drop_first(), b);
        assert((a + b).drop_first() =~= a.drop_first() + b);
        assert((a + b)[0] == a[0]);
        assert(encode_utf8(a + b) =~= encode_scalar(a[0] as u32) + (encode_utf8(a.drop_first()) + encode_utf8(b)));
    }
}

/// Each character takes from one to four bytes.
proof fn lemma_encode_len_bounds(a: Seq<char>)
    ensures
        a.len() <= encode_utf8(a).len() <= 4 * a.len(),
    decreases a.len(),
{
    if a.len() > 0 {
        lemma_encode_len_bounds(a.drop_first());
        let n = encode_scalar(a[0] as u32).len();
        assert(1 <= n <= 4);
    }
}

/// A line break takes one byte.
proof fn lemma_encode_newline()
    ensures
        encode_utf8(seq!['\n']).len() == 1,
{
    let s = seq!['\n'];
    assert(s.drop_first() =~= Seq::<char>::empty());
    assert(s[0] as u32 == 10u32);
    assert(encode_scalar(10u32).len() == 1);
    assert(encode_utf8(s) == encode_scalar(s[0] as u32) + encode_utf8(s.drop_first()));
    assert(encode_utf8(Seq::<char>::empty()).len() == 0);
}

/// The console window's handles, the error shown in it, its texts, and its
/// size.
pub struct ConsoleData {
    pub window: Option<WindowHandle>,
    pub buffer_window: Option<WindowHandle>,
    pub cod_logo_window: Option<WindowHandle>,
    pub buffer_font: Option<FontHandle>,
    pub input_line_window: Option<WindowHandle>,
    pub error_string: String,
    pub console_text: arrayvec::ArrayString<512>,
    pub returned_text: arrayvec::ArrayString<512>,
    pub window_width: i16,
    pub window_height: i16,
}

impl ConsoleData {
    /// The characters of the console text.
    pub open spec fn text(&self) -> Seq<char> {
        console_text_chars(self.console_text)
    }

    /// The bytes the console text takes.
    pub open spec fn text_bytes(&self) -> nat {
        encode_utf8(self.text()).len()
    }

    /// Appends `text` and a line break to the console text. They must fit
    /// in the text's 512 bytes.
    pub fn append_console_text(&mut self, text: String)
        requires
            old(self).text_bytes() + encode_utf8(text@).len() + 1 <= 512,
        ensures
            final(self).text() == old(self).text() + text@ + seq!['\n'],
            final(self).returned_text == old(self).returned_text,
            final(self).error_string == old(self).error_string,
            final(self).window_width == old(self).window_width,
            final(self).window_height == old(self).window_height,
    {
        let ghost before = self.text();
        push_console_text(&mut self.console_text, text.as_str());
        proof {
            lemma_encode_concat(before, text@);
            lemma_encode_newline();
        }
        push_console_char(&mut self.console_text, '\n');
        assert(self.text() =~= before + text@ + seq!['\n']);
    }

    /// Appends `text` and a line break to the console text where they fit
    /// in its 512 bytes, and says whether they did; otherwise the text is
    /// left as it was.
    pub fn try_append_console_text(&mut self, text: String) -> (r: bool)
        ensures
            r == (old(self).text_bytes() + encode_utf8(text@).len() + 1 <= 512),
            r ==> final(self).text() == old(self).text() + text@ + seq!['\n'],
            !r ==> final(self).text() == old(self).text(),
            final(self).returned_text == old(self).returned_text,
    {
        let used = console_text_len(&self.console_text);
        let t = text.as_str();
        if t.unicode_len() >= 512 {
            proof {
                lemma_encode_len_bounds(text@);
            }
            return false;
        }
        proof {
            lemma_encode_len_bounds(text@);
        }
        let added = t.len();
        assert(t.spec_bytes() == encode_utf8(text@));
        if used + added < 512 {
            self.append_console_text(text);
            true
        } else {
            false
        }
    }
}

impl Default for ConsoleData {
    /// No window, no error, empty texts, and a window of 620 by 450.
    fn default() -> (r: Self)
        ensures
            r.window is None,
            r.buffer_window is None,
            r.cod_logo_window is None,
            r.buffer_font is None,
            r.input_line_window is None,
            r.error_string@.len() == 0,
            r.text().len() == 0,
            console_text_chars(r.returned_text).len() == 0,
            r.window_width == 620,
            r.window_height == 450,
    {
        ConsoleData {
            window: None,
            buffer_window: None,
            cod_logo_window: None,
            buffer_font: None,
            input_line_window: None,
            error_string: String::new(),
            console_text: new_console_text(),
            returned_text: new_console_text(),
            window_width: 620,
            window_height: 450,
        }
    }
}

} // verus!
