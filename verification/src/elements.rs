//! The element builder: an [`Element`] carries a tag name, accumulated
//! attribute text, utility classes with their style rules, and its children
//! rendered eagerly at construction.  Rendering an element writes its open
//! tag, its attributes, its class list, its children and — when it was built
//! with children — its closing tag.

use vstd::prelude::*;
use crate::html::escape;
use crate::html::spec_escape;
use crate::strings::spec_starts_with;
use crate::strings::starts_with;
use crate::strings::spec_dedup;
use crate::strings::dedup_strings;

verus! {

broadcast use crate::viewlib::group_deep_view;

/// An HTML element under construction.
#[derive(Debug, PartialEq, Eq)]
pub struct Element {
    pub name: String,
    pub attrs: String,
    pub class: String,
    pub css: Vec<String>,
    pub children: Option<String>,
    pub children_css: Vec<String>,
}

/// The spec-level value of an [`Element`].
#[verifier::ext_equal]
pub struct ElementV {
    pub name: Seq<char>,
    pub attrs: Seq<char>,
    pub class: Seq<char>,
    pub css: Seq<Seq<char>>,
    pub children: Option<Seq<char>>,
    pub children_css: Seq<Seq<char>>,
}

impl View for Element {
    type V = ElementV;

    open spec fn view(&self) -> ElementV {
        ElementV {
            name: self.name@,
            attrs: self.attrs@,
            class: self.class@,
            css: self.css.deep_view(),
            children: self.children.deep_view(),
            children_css: self.children_css.deep_view(),
        }
    }
}

/// A piece of markup rendered without escaping.
#[derive(Debug, PartialEq, Eq)]
pub struct Raw(pub String);

/// A value that renders as markup and contributes style rules.
pub trait Render {
    /// The markup this value renders to.
    spec fn spec_html(&self) -> Seq<char>;

    /// The style rules this value contributes, in order.
    spec fn spec_css(&self) -> Seq<Seq<char>>;

    /// Appends the markup to the buffer.
    fn render(&self, buffer: &mut String)
        ensures
            final(buffer)@ == old(buffer)@ + self.spec_html(),
    ;

    /// Appends the style rules to the list.
    fn styles(&self, styles: &mut Vec<String>)
        ensures
            final(styles).deep_view() == old(styles).deep_view() + self.spec_css(),
    ;
}

/// The markup of an element: its open tag with attribute text and class
/// list, then — when it was built with children — the children and the
/// closing tag.
pub open spec fn spec_element_html(e: ElementV) -> Seq<char> {
    let attrs_part: Seq<char> = if e.attrs.len() > 0 {
        seq![' '] + e.attrs
    } else {
        Seq::<char>::empty()
    };
    let class_part: Seq<char> = if e.class.len() > 0 {
        seq![' ', 'c', 'l', 'a', 's', 's', '=', '"'] + e.class + seq!['"']
    } else {
        Seq::<char>::empty()
    };
    let open_tag = seq!['<'] + e.name + attrs_part + class_part + seq!['>'];
    match e.children {
        Some(children) => open_tag + children + seq!['<', '/'] + e.name + seq!['>'],
        None => open_tag,
    }
}

/// The style rules of an element: its own, then its children's.
pub open spec fn spec_element_css(e: ElementV) -> Seq<Seq<char>> {
    e.css + e.children_css
}

impl Render for Element {
    open spec fn spec_html(&self) -> Seq<char> {
        spec_element_html(self@)
    }

    open spec fn spec_css(&self) -> Seq<Seq<char>> {
        spec_element_css(self@)
    }

    fn render(&self, buffer: &mut String) {
        let ghost pre = buffer@;
        buffer.append("<");
        buffer.append(self.name.as_str());
        if self.attrs.as_str().unicode_len() > 0 {
            buffer.append(" ");
            buffer.append(self.attrs.as_str());
        }
        if self.class.as_str().unicode_len() > 0 {
            buffer.append(" class=\"");
            buffer.append(self.class.as_str());
            buffer.append("\"");
        }
        buffer.append(">");
        match &self.children {
            Some(children) => {
                buffer.append(children.as_str());
                buffer.append("</");
                buffer.append(self.name.as_str());
                buffer.append(">");
            },
            None => {},
        }
        proof {
            reveal_strlit("<");
            reveal_strlit(" ");
            reveal_strlit(" class=\"");
            reveal_strlit("\"");
            reveal_strlit(">");
            reveal_strlit("</");
            assert("<"@ =~= seq!['<']);
            assert(" "@ =~= seq![' ']);
            assert(" class=\""@ =~= seq![' ', 'c', 'l', 'a', 's', 's', '=', '"']);
            assert("\""@ =~= seq!['"']);
            assert(">"@ =~= seq!['>']);
            assert("</"@ =~= seq!['<', '/']);
            assert(buffer@ =~= pre + spec_element_html(self@));
        }
    }

    fn styles(&self, styles: &mut Vec<String>) {
        let ghost pre = styles.deep_view();
        let mut i: usize = 0;
        proof {
            assert(self.css.deep_view().skip(0) =~= self.css.deep_view());
            assert(pre + Seq::<Seq<char>>::empty() =~= pre);
        }
        while i < self.css.len()
            invariant
                i <= self.css@.len(),
                styles.deep_view() == pre + self.css.deep_view().take(i as int),
            decreases self.css@.len() - i,
        {
            let s = self.css[i].clone();
            styles.push(s);
            proof {
                assert(pre + self.css.deep_view().take(i as int) + seq![
                    self.css.deep_view()[i as int],
                ] =~= pre + self.css.deep_view().take(i as int + 1));
            }
            i = i + 1;
        }
        let mut j: usize = 0;
        proof {
            assert(self.css.deep_view().take(i as int) =~= self.css.deep_view());
        }
        while j < self.children_css.len()
            invariant
                j <= self.children_css@.len(),
                styles.deep_view() == pre + self.css.deep_view() + self.children_css.deep_view().take(
                    j as int,
                ),
            decreases self.children_css@.len() - j,
        {
            let s = self.children_css[j].clone();
            styles.push(s);
            proof {
                assert(pre + self.css.deep_view() + self.children_css.deep_view().take(j as int)
                    + seq![self.children_css.deep_view()[j as int]] =~= pre
                    + self.css.deep_view() + self.children_css.deep_view().take(j as int + 1));
            }
            j = j + 1;
        }
        proof {
            assert(self.children_css.deep_view().take(j as int)
                =~= self.children_css.deep_view());
            assert(styles.deep_view() =~= pre + spec_element_css(self@));
        }
    }
}

impl Render for Raw {
    open spec fn spec_html(&self) -> Seq<char> {
        self.0@
    }

    open spec fn spec_css(&self) -> Seq<Seq<char>> {
        Seq::<Seq<char>>::empty()
    }

    fn render(&self, buffer: &mut String) {
        buffer.append(self.0.as_str());
    }

    fn styles(&self, styles: &mut Vec<String>) {
        proof {
            assert(styles.deep_view() + Seq::<Seq<char>>::empty() =~= styles.deep_view());
        }
    }
}

impl Render for String {
    open spec fn spec_html(&self) -> Seq<char> {
        spec_escape(self@)
    }

    open spec fn spec_css(&self) -> Seq<Seq<char>> {
        Seq::<Seq<char>>::empty()
    }

    fn render(&self, buffer: &mut String) {
        crate::html::render_escaped(self.as_str(), buffer);
    }

    fn styles(&self, styles: &mut Vec<String>) {
        proof {
            assert(styles.deep_view() + Seq::<Seq<char>>::empty() =~= styles.deep_view());
        }
    }
}

impl Render for &str {
    open spec fn spec_html(&self) -> Seq<char> {
        spec_escape(self@)
    }

    open spec fn spec_css(&self) -> Seq<Seq<char>> {
        Seq::<Seq<char>>::empty()
    }

    fn render(&self, buffer: &mut String) {
        crate::html::render_escaped(self, buffer);
    }

    fn styles(&self, styles: &mut Vec<String>) {
        proof {
            assert(styles.deep_view() + Seq::<Seq<char>>::empty() =~= styles.deep_view());
        }
    }
}

impl Render for () {
    open spec fn spec_html(&self) -> Seq<char> {
        Seq::<char>::empty()
    }

    open spec fn spec_css(&self) -> Seq<Seq<char>> {
        Seq::<Seq<char>>::empty()
    }

    fn render(&self, buffer: &mut String) {
        proof {
            assert(buffer@ + Seq::<char>::empty() =~= buffer@);
        }
    }

    fn styles(&self, styles: &mut Vec<String>) {
        proof {
            assert(styles.deep_view() + Seq::<Seq<char>>::empty() =~= styles.deep_view());
        }
    }
}

/// The markup of a sequence of children, concatenated.
pub open spec fn spec_html_all<T: Render>(s: Seq<T>) -> Seq<char>
    decreases s.len(),
{
    if s.len() == 0 {
        Seq::<char>::empty()
    } else {
        s[0].spec_html() + spec_html_all(s.drop_first())
    }
}

/// The style rules of a sequence of children, concatenated.
pub open spec fn spec_css_all<T: Render>(s: Seq<T>) -> Seq<Seq<char>>
    decreases s.len(),
{
    if s.len() == 0 {
        Seq::<Seq<char>>::empty()
    } else {
        s[0].spec_css() + spec_css_all(s.drop_first())
    }
}

impl<T: Render> Render for Vec<T> {
    open spec fn spec_html(&self) -> Seq<char> {
        spec_html_all(self@)
    }

    open spec fn spec_css(&self) -> Seq<Seq<char>> {
        spec_css_all(self@)
    }

    fn render(&self, buffer: &mut String) {
        let mut i: usize = 0;
        proof {
            assert(self@.skip(0) =~= self@);
            assert(old(buffer)@ + Seq::<char>::empty() =~= old(buffer)@);
        }
        while i < self.len()
            invariant
                i <= self@.len(),
                buffer@ + spec_html_all(self@.skip(i as int)) == old(buffer)@ + spec_html_all(
                    self@,
                ),
            decreases self@.len() - i,
        {
            proof {
                assert(self@.skip(i as int)[0] == self@[i as int]);
                assert(self@.skip(i as int).drop_first() =~= self@.skip(i as int + 1));
            }
            let ghost pre = buffer@;
            self[i].render(buffer);
            proof {
                assert(buffer@ + spec_html_all(self@.skip(i as int + 1)) =~= pre + spec_html_all(
                    self@.skip(i as int),
                ));
            }
            i = i + 1;
        }
        proof {
            assert(spec_html_all(self@.skip(i as int)) =~= Seq::<char>::empty());
            assert(buffer@ + Seq::<char>::empty() =~= buffer@);
            assert(buffer@ =~= old(buffer)@ + self.spec_html());
        }
    }

    fn styles(&self, styles: &mut Vec<String>) {
        let mut i: usize = 0;
        proof {
            assert(self@.skip(0) =~= self@);
            assert(old(styles).deep_view() + Seq::<Seq<char>>::empty() =~= old(
                styles,
            ).deep_view());
        }
        while i < self.len()
            invariant
                i <= self@.len(),
                styles.deep_view() + spec_css_all(self@.skip(i as int)) == old(
                    styles,
                ).deep_view() + spec_css_all(self@),
            decreases self@.len() - i,
        {
            proof {
                assert(self@.skip(i as int)[0] == self@[i as int]);
                assert(self@.skip(i as int).drop_first() =~= self@.skip(i as int + 1));
            }
            let ghost pre = styles.deep_view();
            self[i].styles(styles);
            proof {
                assert(styles.deep_view() + spec_css_all(self@.skip(i as int + 1)) =~= pre
                    + spec_css_all(self@.skip(i as int)));
            }
            i = i + 1;
        }
        proof {
            assert(spec_css_all(self@.skip(i as int)) =~= Seq::<Seq<char>>::empty());
            assert(styles.deep_view() + Seq::<Seq<char>>::empty() =~= styles.deep_view());
            assert(styles.deep_view() =~= old(styles).deep_view() + self.spec_css());
        }
    }
}

impl Element {
    fn new(name: &str, children: Option<(String, Vec<String>)>) -> (e: Element)
        ensures
            e@ == (ElementV {
                name: name@,
                attrs: Seq::<char>::empty(),
                class: Seq::<char>::empty(),
                css: Seq::<Seq<char>>::empty(),
                children: match children {
                    Some(c) => Some(c.0@),
                    None => None,
                },
                children_css: match children {
                    Some(c) => c.1.deep_view(),
                    None => Seq::<Seq<char>>::empty(),
                },
            }),
    {
        let e = match children {
            Some((html, css)) => Element {
                name: name.to_owned(),
                attrs: String::new(),
                class: String::new(),
                css: Vec::new(),
                children: Some(html),
                children_css: css,
            },
            None => Element {
                name: name.to_owned(),
                attrs: String::new(),
                class: String::new(),
                css: Vec::new(),
                children: None,
                children_css: Vec::new(),
            },
        };
        proof {
            assert(e.css.deep_view() =~= Seq::<Seq<char>>::empty());
            if e.children is None {
                assert(e.children_css.deep_view() =~= Seq::<Seq<char>>::empty());
            }
        }
        e
    }

    /// Appends one attribute, space-separated from what is already there;
    /// the value is escaped.
    pub fn attr(self, name: &str, value: &str) -> (e: Element)
        ensures
            e@ == (ElementV {
                attrs: spec_attrs_appended(self@.attrs, name@, value@),
                ..self@
            }),
    {
        let mut attrs = self.attrs;
        if attrs.as_str().unicode_len() > 0 {
            attrs.append(" ");
        }
        attrs.append(name);
        attrs.append("=\"");
        let escaped = escape(value);
        attrs.append(escaped.as_str());
        attrs.append("\"");
        let e = Element { attrs, ..self };
        proof {
            reveal_strlit(" ");
            reveal_strlit("=\"");
            reveal_strlit("\"");
            assert(" "@ =~= seq![' ']);
            assert("=\""@ =~= seq!['=', '"']);
            assert("\""@ =~= seq!['"']);
            assert(e.attrs@ =~= spec_attrs_appended(self.attrs@, name@, value@));
        }
        e
    }

    /// Appends one boolean attribute: its bare name, space-separated.
    pub fn bool_attr(self, name: &str) -> (e: Element)
        ensures
            e@ == (ElementV { attrs: spec_bool_attr_appended(self@.attrs, name@), ..self@ }),
    {
        let mut attrs = self.attrs;
        if attrs.as_str().unicode_len() > 0 {
            attrs.append(" ");
        }
        attrs.append(name);
        let e = Element { attrs, ..self };
        proof {
            reveal_strlit(" ");
            assert(" "@ =~= seq![' ']);
            assert(e.attrs@ =~= spec_bool_attr_appended(self.attrs@, name@));
        }
        e
    }

    /// Sets or extends the class list, space-separated.
    pub fn class(self, value: &str) -> (e: Element)
        ensures
            e@ == (ElementV { class: spec_class_appended(self@.class, value@), ..self@ }),
    {
        let mut class = self.class;
        if class.as_str().unicode_len() == 0 {
            class.append(value);
        } else {
            class.append(" ");
            class.append(value);
        }
        let e = Element { class, ..self };
        proof {
            reveal_strlit(" ");
            assert(" "@ =~= seq![' ']);
            assert(e.class@ =~= spec_class_appended(self.class@, value@));
        }
        e
    }

    /// Takes a class list with its style rules, as the utility-class
    /// generator produces them: the rules are kept for style collection and
    /// the classes join the class list.
    pub fn css(self, value: (&str, Vec<String>)) -> (e: Element)
        ensures
            e@ == (ElementV {
                class: spec_class_appended(self@.class, value.0@),
                css: self@.css + value.1.deep_view(),
                ..self@
            }),
    {
        let (classes, rules) = value;
        let mut css = self.css;
        let mut rules = rules;
        let ghost pre_css = css.deep_view();
        let ghost rv = rules.deep_view();
        css.append(&mut rules);
        proof {
            assert(css.deep_view() =~= pre_css + rv);
        }
        let with_css = Element { css, ..self };
        with_css.class(classes)
    }

    /// Appends the `x-replace` attribute.
    pub fn replace(self, value: &str) -> (e: Element)
        ensures
            e@ == (ElementV {
                attrs: spec_attrs_appended(self@.attrs, "x-replace"@, value@),
                ..self@
            }),
    {
        self.attr("x-replace", value)
    }

    /// Appends the `id` attribute.
    pub fn id(self, value: &str) -> (e: Element)
        ensures
            e@ == (ElementV { attrs: spec_attrs_appended(self@.attrs, "id"@, value@), ..self@ }),
    {
        self.attr("id", value)
    }

    /// Appends the `type` attribute.
    pub fn type_(self, value: &str) -> (e: Element)
        ensures
            e@ == (ElementV {
                attrs: spec_attrs_appended(self@.attrs, "type"@, value@),
                ..self@
            }),
    {
        self.attr("type", value)
    }

    /// Appends the `for` attribute.
    pub fn for_(self, value: &str) -> (e: Element)
        ensures
            e@ == (ElementV { attrs: spec_attrs_appended(self@.attrs, "for"@, value@), ..self@ }),
    {
        self.attr("for", value)
    }

    /// Appends the `charset` attribute.
    pub fn charset(self, value: &str) -> (e: Element)
        ensures
            e@ == (ElementV {
                attrs: spec_attrs_appended(self@.attrs, "charset"@, value@),
                ..self@
            }),
    {
        self.attr("charset", value)
    }

    /// Appends the `aria-label` attribute.
    pub fn aria_label(self, value: &str) -> (e: Element)
        ensures
            e@ == (ElementV {
                attrs: spec_attrs_appended(self@.attrs, "aria-label"@, value@),
                ..self@
            }),
    {
        self.attr("aria-label", value)
    }

    /// Appends the boolean `checked` attribute.
    pub fn checked(self) -> (e: Element)
        ensures
            e@ == (ElementV { attrs: spec_bool_attr_appended(self@.attrs, "checked"@), ..self@ }),
    {
        self.bool_attr("checked")
    }

    /// Appends the boolean `disabled` attribute.
    pub fn disabled(self) -> (e: Element)
        ensures
            e@ == (ElementV {
                attrs: spec_bool_attr_appended(self@.attrs, "disabled"@),
                ..self@
            }),
    {
        self.bool_attr("disabled")
    }

    /// Appends the boolean `defer` attribute.
    pub fn defer(self) -> (e: Element)
        ensures
            e@ == (ElementV { attrs: spec_bool_attr_appended(self@.attrs, "defer"@), ..self@ }),
    {
        self.bool_attr("defer")
    }
}

/// The attribute text after appending `name="escaped value"`, with a space
/// when text is already there.
pub open spec fn spec_attrs_appended(attrs: Seq<char>, name: Seq<char>, value: Seq<char>) -> Seq<
    char,
> {
    let sep: Seq<char> = if attrs.len() > 0 {
        seq![' ']
    } else {
        Seq::<char>::empty()
    };
    attrs + sep + name + seq!['=', '"'] + spec_escape(value) + seq!['"']
}

/// The attribute text after appending a bare boolean attribute name.
pub open spec fn spec_bool_attr_appended(attrs: Seq<char>, name: Seq<char>) -> Seq<char> {
    let sep: Seq<char> = if attrs.len() > 0 {
        seq![' ']
    } else {
        Seq::<char>::empty()
    };
    attrs + sep + name
}

/// The class list after appending more classes, space-separated.
pub open spec fn spec_class_appended(class: Seq<char>, value: Seq<char>) -> Seq<char> {
    if class.len() == 0 {
        value
    } else {
        class + seq![' '] + value
    }
}

/// An element with children: they are rendered at construction and their
/// style rules are kept.
pub fn element<R: Render>(name: &str, children: R) -> (e: Element)
    ensures
        e@ == (ElementV {
            name: name@,
            attrs: Seq::<char>::empty(),
            class: Seq::<char>::empty(),
            css: Seq::<Seq<char>>::empty(),
            children: Some(children.spec_html()),
            children_css: children.spec_css(),
        }),
{
    let mut html = String::new();
    children.render(&mut html);
    let mut css: Vec<String> = Vec::new();
    children.styles(&mut css);
    proof {
        assert(html@ =~= children.spec_html());
        assert(css.deep_view() =~= children.spec_css());
    }
    Element::new(name, Some((html, css)))
}

/// An element without children: it renders as a bare open tag.
pub fn self_closing_element(name: &str) -> (e: Element)
    ensures
        e@ == (ElementV {
            name: name@,
            attrs: Seq::<char>::empty(),
            class: Seq::<char>::empty(),
            css: Seq::<Seq<char>>::empty(),
            children: None,
            children_css: Seq::<Seq<char>>::empty(),
        }),
{
    Element::new(name, None)
}

/// An element with an empty name: it renders only its children.
pub fn anon_element<R: Render>(children: R) -> (e: Element)
    ensures
        e@ == (ElementV {
            name: Seq::<char>::empty(),
            attrs: Seq::<char>::empty(),
            class: Seq::<char>::empty(),
            css: Seq::<Seq<char>>::empty(),
            children: Some(children.spec_html()),
            children_css: children.spec_css(),
        }),
{
    let e = element("", children);
    proof {
        reveal_strlit("");
        assert(""@ =~= Seq::<char>::empty());
    }
    e
}

/// Wraps markup that is rendered as it is, without escaping.
pub fn danger(html: &str) -> (r: Raw)
    ensures
        r.0@ == html@,
{
    Raw(html.to_owned())
}

/// The document type declaration, rendered as `<!DOCTYPE html>`.
pub fn doctype() -> (e: Element)
    ensures
        e@.name == "!DOCTYPE html"@,
        e@.attrs == Seq::<char>::empty(),
        e@.class == Seq::<char>::empty(),
        e@.css == Seq::<Seq<char>>::empty(),
        e@.children is None,
        e@.children_css == Seq::<Seq<char>>::empty(),
{
    self_closing_element("!DOCTYPE html")
}

/// Renders a value to a fresh string.
pub fn render<R: Render>(renderable: R) -> (r: String)
    ensures
        r@ == renderable.spec_html(),
{
    let mut buffer = String::new();
    renderable.render(&mut buffer);
    proof {
        assert(buffer@ =~= renderable.spec_html());
    }
    buffer
}

/// The style rules with the `@media` rules kept apart: first every other
/// rule, then the `@media` ones, both in first-occurrence order.
pub open spec fn spec_partition_media(rules: Seq<Seq<char>>, media: bool) -> Seq<Seq<char>>
    decreases rules.len(),
{
    if rules.len() == 0 {
        rules
    } else if spec_starts_with(rules[0], "@media"@) == media {
        seq![rules[0]] + spec_partition_media(rules.drop_first(), media)
    } else {
        spec_partition_media(rules.drop_first(), media)
    }
}

/// The concatenation of a sequence of texts.
pub open spec fn spec_concat_all(parts: Seq<Seq<char>>) -> Seq<char>
    decreases parts.len(),
{
    if parts.len() == 0 {
        Seq::<char>::empty()
    } else {
        parts[0] + spec_concat_all(parts.drop_first())
    }
}

/// What the style sheet of a value holds: its rules with repetitions
/// dropped, every plain rule before every `@media` rule, concatenated.
pub open spec fn spec_styles_output(rules: Seq<Seq<char>>) -> Seq<char> {
    let deduped = spec_dedup(rules);
    spec_concat_all(
        spec_partition_media(deduped, false) + spec_partition_media(deduped, true),
    )
}

fn partition_media(rules: &Vec<String>, media: bool) -> (r: Vec<String>)
    ensures
        r.deep_view() == spec_partition_media(rules.deep_view(), media),
{
    let mut r: Vec<String> = Vec::new();
    let mut i: usize = 0;
    let ghost all = rules.deep_view();
    proof {
        assert(all.skip(0) =~= all);
        assert(r.deep_view() + spec_partition_media(all, media) =~= spec_partition_media(
            all,
            media,
        ));
    }
    while i < rules.len()
        invariant
            i <= rules@.len(),
            all == rules.deep_view(),
            r.deep_view() + spec_partition_media(all.skip(i as int), media)
                == spec_partition_media(all, media),
        decreases rules@.len() - i,
    {
        let ghost pre = r.deep_view();
        proof {
            assert(all.skip(i as int)[0] == all[i as int]);
            assert(all.skip(i as int).drop_first() =~= all.skip(i as int + 1));
        }
        if starts_with(rules[i].as_str(), "@media") == media {
            r.push(rules[i].clone());
            proof {
                assert(pre.push(all[i as int]) + spec_partition_media(
                    all.skip(i as int + 1),
                    media,
                ) =~= pre + spec_partition_media(all.skip(i as int), media));
            }
        }
        i = i + 1;
    }
    proof {
        assert(spec_partition_media(all.skip(i as int), media) =~= Seq::<Seq<char>>::empty());
        assert(r.deep_view() + Seq::<Seq<char>>::empty() =~= r.deep_view());
    }
    r
}

fn concat_all(parts: &Vec<String>) -> (r: String)
    ensures
        r@ == spec_concat_all(parts.deep_view()),
{
    let mut r = String::new();
    let mut i: usize = 0;
    let ghost all = parts.deep_view();
    proof {
        assert(all.skip(0) =~= all);
    }
    while i < parts.len()
        invariant
            i <= parts@.len(),
            all == parts.deep_view(),
            r@ + spec_concat_all(all.skip(i as int)) == spec_concat_all(all),
        decreases parts@.len() - i,
    {
        let ghost pre = r@;
        proof {
            assert(all.skip(i as int)[0] == all[i as int]);
            assert(all.skip(i as int).drop_first() =~= all.skip(i as int + 1));
        }
        r.append(parts[i].as_str());
        proof {
            assert(r@ + spec_concat_all(all.skip(i as int + 1)) =~= pre + spec_concat_all(
                all.skip(i as int),
            ));
        }
        i = i + 1;
    }
    proof {
        assert(spec_concat_all(all.skip(i as int)) =~= Seq::<char>::empty());
        assert(r@ + Seq::<char>::empty() =~= r@);
    }
    r
}

/// Collects a value's style rules into one style sheet: repetitions are
/// dropped, and every plain rule is written before every `@media` rule.
pub fn styles<R: Render>(renderable: &R) -> (r: String)
    ensures
        r@ == spec_styles_output(renderable.spec_css()),
{
    let mut collected: Vec<String> = Vec::new();
    renderable.styles(&mut collected);
    proof {
        assert(collected.deep_view() =~= renderable.spec_css());
    }
    let deduped = dedup_strings(&collected);
    let mut plain = partition_media(&deduped, false);
    let mut media = partition_media(&deduped, true);
    let ghost pv = plain.deep_view();
    let ghost mv = media.deep_view();
    plain.append(&mut media);
    proof {
        assert(plain.deep_view() =~= pv + mv);
    }
    concat_all(&plain)
}

/// An `html` element.
pub fn html<R: Render>(children: R) -> (e: Element)
    ensures
        e@ == (ElementV {
            name: "html"@,
            attrs: Seq::<char>::empty(),
            class: Seq::<char>::empty(),
            css: Seq::<Seq<char>>::empty(),
            children: Some(children.spec_html()),
            children_css: children.spec_css(),
        }),
{
    element("html", children)
}

/// A `head` element.
pub fn head<R: Render>(children: R) -> (e: Element)
    ensures
        e@ == (ElementV {
            name: "head"@,
            attrs: Seq::<char>::empty(),
            class: Seq::<char>::empty(),
            css: Seq::<Seq<char>>::empty(),
            children: Some(children.spec_html()),
            children_css: children.spec_css(),
        }),
{
    element("head", children)
}

/// A `title` element.
pub fn title<R: Render>(children: R) -> (e: Element)
    ensures
        e@ == (ElementV {
            name: "title"@,
            attrs: Seq::<char>::empty(),
            class: Seq::<char>::empty(),
            css: Seq::<Seq<char>>::empty(),
            children: Some(children.spec_html()),
            children_css: children.spec_css(),
        }),
{
    element("title", children)
}

/// A `body` element.
pub fn body<R: Render>(children: R) -> (e: Element)
    ensures
        e@ == (ElementV {
            name: "body"@,
            attrs: Seq::<char>::empty(),
            class: Seq::<char>::empty(),
            css: Seq::<Seq<char>>::empty(),
            children: Some(children.spec_html()),
            children_css: children.spec_css(),
        }),
{
    element("body", children)
}

/// A `div` element.
pub fn div<R: Render>(children: R) -> (e: Element)
    ensures
        e@ == (ElementV {
            name: "div"@,
            attrs: Seq::<char>::empty(),
            class: Seq::<char>::empty(),
            css: Seq::<Seq<char>>::empty(),
            children: Some(children.spec_html()),
            children_css: children.spec_css(),
        }),
{
    element("div", children)
}

/// A `p` element.
pub fn p<R: Render>(children: R) -> (e: Element)
    ensures
        e@ == (ElementV {
            name: "p"@,
            attrs: Seq::<char>::empty(),
            class: Seq::<char>::empty(),
            css: Seq::<Seq<char>>::empty(),
            children: Some(children.spec_html()),
            children_css: children.spec_css(),
        }),
{
    element("p", children)
}

/// A `span` element.
pub fn span<R: Render>(children: R) -> (e: Element)
    ensures
        e@ == (ElementV {
            name: "span"@,
            attrs: Seq::<char>::empty(),
            class: Seq::<char>::empty(),
            css: Seq::<Seq<char>>::empty(),
            children: Some(children.spec_html()),
            children_css: children.spec_css(),
        }),
{
    element("span", children)
}

/// A `ul` element.
pub fn ul<R: Render>(children: R) -> (e: Element)
    ensures
        e@ == (ElementV {
            name: "ul"@,
            attrs: Seq::<char>::empty(),
            class: Seq::<char>::empty(),
            css: Seq::<Seq<char>>::empty(),
            children: Some(children.spec_html()),
            children_css: children.spec_css(),
        }),
{
    element("ul", children)
}

/// An `li` element.
pub fn li<R: Render>(children: R) -> (e: Element)
    ensures
        e@ == (ElementV {
            name: "li"@,
            attrs: Seq::<char>::empty(),
            class: Seq::<char>::empty(),
            css: Seq::<Seq<char>>::empty(),
            children: Some(children.spec_html()),
            children_css: children.spec_css(),
        }),
{
    element("li", children)
}

/// A `table` element.
pub fn table<R: Render>(children: R) -> (e: Element)
    ensures
        e@ == (ElementV {
            name: "table"@,
            attrs: Seq::<char>::empty(),
            class: Seq::<char>::empty(),
            css: Seq::<Seq<char>>::empty(),
            children: Some(children.spec_html()),
            children_css: children.spec_css(),
        }),
{
    element("table", children)
}

/// A `tr` element.
pub fn tr<R: Render>(children: R) -> (e: Element)
    ensures
        e@ == (ElementV {
            name: "tr"@,
            attrs: Seq::<char>::empty(),
            class: Seq::<char>::empty(),
            css: Seq::<Seq<char>>::empty(),
            children: Some(children.spec_html()),
            children_css: children.spec_css(),
        }),
{
    element("tr", children)
}

/// A `td` element.
pub fn td<R: Render>(children: R) -> (e: Element)
    ensures
        e@ == (ElementV {
            name: "td"@,
            attrs: Seq::<char>::empty(),
            class: Seq::<char>::empty(),
            css: Seq::<Seq<char>>::empty(),
            children: Some(children.spec_html()),
            children_css: children.spec_css(),
        }),
{
    element("td", children)
}

/// An `h1` element.
pub fn h1<R: Render>(children: R) -> (e: Element)
    ensures
        e@ == (ElementV {
            name: "h1"@,
            attrs: Seq::<char>::empty(),
            class: Seq::<char>::empty(),
            css: Seq::<Seq<char>>::empty(),
            children: Some(children.spec_html()),
            children_css: children.spec_css(),
        }),
{
    element("h1", children)
}

/// A `form` element.
pub fn form<R: Render>(children: R) -> (e: Element)
    ensures
        e@ == (ElementV {
            name: "form"@,
            attrs: Seq::<char>::empty(),
            class: Seq::<char>::empty(),
            css: Seq::<Seq<char>>::empty(),
            children: Some(children.spec_html()),
            children_css: children.spec_css(),
        }),
{
    element("form", children)
}

/// A `label` element.
pub fn label<R: Render>(children: R) -> (e: Element)
    ensures
        e@ == (ElementV {
            name: "label"@,
            attrs: Seq::<char>::empty(),
            class: Seq::<char>::empty(),
            css: Seq::<Seq<char>>::empty(),
            children: Some(children.spec_html()),
            children_css: children.spec_css(),
        }),
{
    element("label", children)
}

/// A `button` element.
pub fn button<R: Render>(children: R) -> (e: Element)
    ensures
        e@ == (ElementV {
            name: "button"@,
            attrs: Seq::<char>::empty(),
            class: Seq::<char>::empty(),
            css: Seq::<Seq<char>>::empty(),
            children: Some(children.spec_html()),
            children_css: children.spec_css(),
        }),
{
    element("button", children)
}

/// An `a` element.
pub fn a<R: Render>(children: R) -> (e: Element)
    ensures
        e@ == (ElementV {
            name: "a"@,
            attrs: Seq::<char>::empty(),
            class: Seq::<char>::empty(),
            css: Seq::<Seq<char>>::empty(),
            children: Some(children.spec_html()),
            children_css: children.spec_css(),
        }),
{
    element("a", children)
}

/// A `script` element.
pub fn script<R: Render>(children: R) -> (e: Element)
    ensures
        e@ == (ElementV {
            name: "script"@,
            attrs: Seq::<char>::empty(),
            class: Seq::<char>::empty(),
            css: Seq::<Seq<char>>::empty(),
            children: Some(children.spec_html()),
            children_css: children.spec_css(),
        }),
{
    element("script", children)
}

/// An `input` element, rendered without a closing tag.
pub fn input() -> (e: Element)
    ensures
        e@ == (ElementV {
            name: "input"@,
            attrs: Seq::<char>::empty(),
            class: Seq::<char>::empty(),
            css: Seq::<Seq<char>>::empty(),
            children: None,
            children_css: Seq::<Seq<char>>::empty(),
        }),
{
    self_closing_element("input")
}

/// A `meta` element, rendered without a closing tag.
pub fn meta() -> (e: Element)
    ensures
        e@ == (ElementV {
            name: "meta"@,
            attrs: Seq::<char>::empty(),
            class: Seq::<char>::empty(),
            css: Seq::<Seq<char>>::empty(),
            children: None,
            children_css: Seq::<Seq<char>>::empty(),
        }),
{
    self_closing_element("meta")
}

/// A `br` element, rendered without a closing tag.
pub fn br() -> (e: Element)
    ensures
        e@ == (ElementV {
            name: "br"@,
            attrs: Seq::<char>::empty(),
            class: Seq::<char>::empty(),
            css: Seq::<Seq<char>>::empty(),
            children: None,
            children_css: Seq::<Seq<char>>::empty(),
        }),
{
    self_closing_element("br")
}

/// A `link` element, rendered without a closing tag.
pub fn link() -> (e: Element)
    ensures
        e@ == (ElementV {
            name: "link"@,
            attrs: Seq::<char>::empty(),
            class: Seq::<char>::empty(),
            css: Seq::<Seq<char>>::empty(),
            children: None,
            children_css: Seq::<Seq<char>>::empty(),
        }),
{
    self_closing_element("link")
}

} // verus!
