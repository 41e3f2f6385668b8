//! Eagerly rendered HTML: a [`Component`] holds finished markup, and the
//! [`Render`] trait appends a value's rendering to a buffer, escaping text
//! on the way.  Components compose by rendering into each other's buffers.

use vstd::prelude::*;
use crate::strings::i64_to_string;
use crate::strings::push_char;
use crate::strings::spec_i64_chars;
use crate::strings::spec_u64_chars;
use crate::strings::u64_to_string;

verus! {

broadcast use crate::viewlib::group_deep_view;

/// A piece of finished HTML.
#[derive(Debug, PartialEq, Eq)]
pub struct Component {
    pub html: String,
}

/// A group of child components; an alias kept for call sites that pass
/// children through.
pub type Elements = Component;

/// The escaping of one character: the five HTML-special characters become
/// entities, every other character stands as it is.
pub open spec fn spec_escape_char(c: char) -> Seq<char> {
    if c == '<' {
        seq!['&', 'l', 't', ';']
    } else if c == '>' {
        seq!['&', 'g', 't', ';']
    } else if c == '&' {
        seq!['&', 'a', 'm', 'p', ';']
    } else if c == '"' {
        seq!['&', 'q', 'u', 'o', 't', ';']
    } else if c == '\'' {
        seq!['&', '#', '3', '9', ';']
    } else {
        seq![c]
    }
}

/// The escaping of a text: each character escaped, in order.
pub open spec fn spec_escape(s: Seq<char>) -> Seq<char>
    decreases s.len(),
{
    if s.len() == 0 {
        Seq::<char>::empty()
    } else {
        spec_escape_char(s[0]) + spec_escape(s.drop_first())
    }
}

fn push_escaped_char(buffer: &mut String, c: char)
    ensures
        final(buffer)@ == old(buffer)@ + spec_escape_char(c),
{
    if c == '<' {
        buffer.append("&lt;");
        proof {
            reveal_strlit("&lt;");
            assert(buffer@ =~= old(buffer)@ + spec_escape_char(c));
        }
    } else if c == '>' {
        buffer.append("&gt;");
        proof {
            reveal_strlit("&gt;");
            assert(buffer@ =~= old(buffer)@ + spec_escape_char(c));
        }
    } else if c == '&' {
        buffer.append("&amp;");
        proof {
            reveal_strlit("&amp;");
            assert(buffer@ =~= old(buffer)@ + spec_escape_char(c));
        }
    } else if c == '"' {
        buffer.append("&quot;");
        proof {
            reveal_strlit("&quot;");
            assert(buffer@ =~= old(buffer)@ + spec_escape_char(c));
        }
    } else if c == '\'' {
        buffer.append("&#39;");
        proof {
            reveal_strlit("&#39;");
            assert(buffer@ =~= old(buffer)@ + spec_escape_char(c));
        }
    } else {
        push_char(buffer, c);
        proof {
            assert(buffer@ =~= old(buffer)@ + spec_escape_char(c));
        }
    }
}

/// Appends the escaped text to the buffer.
pub fn render_escaped(input: &str, buffer: &mut String)
    ensures
        final(buffer)@ == old(buffer)@ + spec_escape(input@),
{
    let len = input.unicode_len();
    let mut i: usize = 0;
    proof {
        assert(input@.skip(0) =~= input@);
        assert(old(buffer)@ + Seq::<char>::empty() =~= old(buffer)@);
    }
    while i < len
        invariant
            i <= len,
            len == input@.len(),
            buffer@ + spec_escape(input@.skip(i as int)) == old(buffer)@ + spec_escape(input@),
        decreases len - i,
    {
        proof {
            assert(input@.skip(i as int)[0] == input@[i as int]);
            assert(input@.skip(i as int).drop_first() =~= input@.skip(i as int + 1));
        }
        let ghost pre = buffer@;
        let c = input.get_char(i);
        push_escaped_char(buffer, c);
        proof {
            assert(buffer@ + spec_escape(input@.skip(i as int + 1)) =~= pre + spec_escape(
                input@.skip(i as int),
            ));
        }
        i = i + 1;
    }
    proof {
        assert(spec_escape(input@.skip(i as int)) =~= Seq::<char>::empty());
        assert(buffer@ + Seq::<char>::empty() =~= buffer@);
    }
}

/// The text with the five HTML-special characters replaced by entities.
pub fn escape(input: &str) -> (r: String)
    ensures
        r@ == spec_escape(input@),
{
    let mut buffer = String::new();
    render_escaped(input, &mut buffer);
    proof {
        assert(buffer@ =~= spec_escape(input@));
    }
    buffer
}

/// A value that can append its rendering to a buffer.
pub trait Render {
    /// What rendering this value appends.
    spec fn spec_rendered(&self) -> Seq<char>;

    /// Appends the value's rendering to the buffer.
    fn render_to_string(&self, buffer: &mut String)
        ensures
            final(buffer)@ == old(buffer)@ + self.spec_rendered(),
    ;
}

impl Render for Component {
    open spec fn spec_rendered(&self) -> Seq<char> {
        self.html@
    }

    fn render_to_string(&self, buffer: &mut String) {
        buffer.append(self.html.as_str());
    }
}

impl Render for String {
    open spec fn spec_rendered(&self) -> Seq<char> {
        spec_escape(self@)
    }

    fn render_to_string(&self, buffer: &mut String) {
        render_escaped(self.as_str(), buffer);
    }
}

impl Render for &str {
    open spec fn spec_rendered(&self) -> Seq<char> {
        spec_escape(self@)
    }

    fn render_to_string(&self, buffer: &mut String) {
        render_escaped(self, buffer);
    }
}

/// The renderings of a sequence of values, concatenated.
pub open spec fn spec_rendered_all<T: Render>(s: Seq<T>) -> Seq<char>
    decreases s.len(),
{
    if s.len() == 0 {
        Seq::<char>::empty()
    } else {
        s[0].spec_rendered() + spec_rendered_all(s.drop_first())
    }
}

impl<T: Render> Render for Vec<T> {
    open spec fn spec_rendered(&self) -> Seq<char> {
        spec_rendered_all(self@)
    }

    fn render_to_string(&self, buffer: &mut String) {
        let mut i: usize = 0;
        proof {
            assert(self@.skip(0) =~= self@);
            assert(old(buffer)@ + Seq::<char>::empty() =~= old(buffer)@);
        }
        while i < self.len()
            invariant
                i <= self@.len(),
                buffer@ + spec_rendered_all(self@.skip(i as int)) == old(buffer)@
                    + spec_rendered_all(self@),
            decreases self@.len() - i,
        {
            proof {
                assert(self@.skip(i as int)[0] == self@[i as int]);
                assert(self@.skip(i as int).drop_first() =~= self@.skip(i as int + 1));
            }
            let ghost pre = buffer@;
            self[i].render_to_string(buffer);
            proof {
                assert(buffer@ + spec_rendered_all(self@.skip(i as int + 1)) =~= pre
                    + spec_rendered_all(self@.skip(i as int)));
            }
            i = i + 1;
        }
        proof {
            assert(spec_rendered_all(self@.skip(i as int)) =~= Seq::<char>::empty());
            assert(buffer@ + Seq::<char>::empty() =~= buffer@);
            assert(buffer@ =~= old(buffer)@ + self.spec_rendered());
        }
    }
}

impl<T: Render> Render for Option<T> {
    open spec fn spec_rendered(&self) -> Seq<char> {
        match self {
            Some(t) => t.spec_rendered(),
            None => Seq::<char>::empty(),
        }
    }

    fn render_to_string(&self, buffer: &mut String) {
        match self {
            Some(t) => t.render_to_string(buffer),
            None => {
                proof {
                    assert(buffer@ + Seq::<char>::empty() =~= buffer@);
                }
            },
        }
    }
}

impl Render for i64 {
    open spec fn spec_rendered(&self) -> Seq<char> {
        spec_i64_chars(*self as int)
    }

    fn render_to_string(&self, buffer: &mut String) {
        let s = i64_to_string(*self);
        buffer.append(s.as_str());
    }
}

impl Render for u64 {
    open spec fn spec_rendered(&self) -> Seq<char> {
        spec_u64_chars(*self as nat)
    }

    fn render_to_string(&self, buffer: &mut String) {
        let s = u64_to_string(*self);
        buffer.append(s.as_str());
    }
}

impl Render for i32 {
    open spec fn spec_rendered(&self) -> Seq<char> {
        spec_i64_chars(*self as int)
    }

    fn render_to_string(&self, buffer: &mut String) {
        let s = i64_to_string(*self as i64);
        buffer.append(s.as_str());
    }
}

impl Render for u32 {
    open spec fn spec_rendered(&self) -> Seq<char> {
        spec_u64_chars(*self as nat)
    }

    fn render_to_string(&self, buffer: &mut String) {
        let s = u64_to_string(*self as u64);
        buffer.append(s.as_str());
    }
}

impl Render for i16 {
    open spec fn spec_rendered(&self) -> Seq<char> {
        spec_i64_chars(*self as int)
    }

    fn render_to_string(&self, buffer: &mut String) {
        let s = i64_to_string(*self as i64);
        buffer.append(s.as_str());
    }
}

impl Render for u16 {
    open spec fn spec_rendered(&self) -> Seq<char> {
        spec_u64_chars(*self as nat)
    }

    fn render_to_string(&self, buffer: &mut String) {
        let s = u64_to_string(*self as u64);
        buffer.append(s.as_str());
    }
}

impl Render for i8 {
    open spec fn spec_rendered(&self) -> Seq<char> {
        spec_i64_chars(*self as int)
    }

    fn render_to_string(&self, buffer: &mut String) {
        let s = i64_to_string(*self as i64);
        buffer.append(s.as_str());
    }
}

impl Render for u8 {
    open spec fn spec_rendered(&self) -> Seq<char> {
        spec_u64_chars(*self as nat)
    }

    fn render_to_string(&self, buffer: &mut String) {
        let s = u64_to_string(*self as u64);
        buffer.append(s.as_str());
    }
}

impl Render for usize {
    open spec fn spec_rendered(&self) -> Seq<char> {
        spec_u64_chars(*self as nat)
    }

    fn render_to_string(&self, buffer: &mut String) {
        let s = u64_to_string(*self as u64);
        buffer.append(s.as_str());
    }
}

impl Render for isize {
    open spec fn spec_rendered(&self) -> Seq<char> {
        spec_i64_chars(*self as int)
    }

    fn render_to_string(&self, buffer: &mut String) {
        let s = i64_to_string(*self as i64);
        buffer.append(s.as_str());
    }
}

} // verus!
