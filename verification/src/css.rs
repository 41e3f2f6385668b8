//! The utility-class generator: turns declaration lines such as
//! `"color: var(--gray-300)"` into a class name and a style rule, handling
//! pseudo-class and media-query modifiers written as prefixes of the
//! declaration.

use vstd::prelude::*;
use crate::strings::dedup_strings;
use crate::strings::join;
use crate::strings::push_char;
use crate::strings::replace_all;
use crate::strings::spec_dedup;
use crate::strings::spec_join;
use crate::strings::spec_replace;
use crate::strings::spec_split_char;
use crate::strings::spec_starts_with;
use crate::strings::spec_trim;
use crate::strings::spec_trim_end_char;
use crate::strings::split_char;
use crate::strings::starts_with;
use crate::strings::str_eq;
use crate::strings::trim;
use crate::strings::trim_end_char;

verus! {

broadcast use crate::viewlib::group_deep_view;

/// Drops repeated dash-separated words, keeping each word's first
/// occurrence.
pub open spec fn spec_replace_repeated(s: Seq<char>) -> Seq<char> {
    spec_join(spec_dedup(spec_split_char(s, '-')), seq!['-'])
}

/// The executable counterpart of [`spec_replace_repeated`].
pub fn replace_repeated_strings(s: &str) -> (r: String)
    ensures
        r@ == spec_replace_repeated(s@),
{
    let parts = split_char(s, '-');
    let deduped = dedup_strings(&parts);
    proof {
        reveal_strlit("-");
        assert("-"@ =~= seq!['-']);
    }
    join(&deduped, "-")
}

/// The class name of a declaration line: spaces are dropped, variable
/// references and colons become dashes, a trailing parenthesis is trimmed,
/// and repeated words are removed.
pub open spec fn spec_class_name(rule: Seq<char>) -> Seq<char> {
    let no_spaces = spec_replace(rule, " "@, ""@);
    let vars = spec_replace(no_spaces, ":var(--"@, "-"@);
    let dashed = spec_replace(vars, ":"@, "-"@);
    spec_replace_repeated(spec_trim_end_char(dashed, ')'))
}

/// Derives the utility class name of one declaration line.
pub fn class_name(rule: &str) -> (r: String)
    ensures
        r@ == spec_class_name(rule@),
{
    let no_spaces = replace_all(rule, " ", "");
    let vars = replace_all(no_spaces.as_str(), ":var(--", "-");
    let dashed = replace_all(vars.as_str(), ":", "-");
    let trimmed = trim_end_char(dashed.as_str(), ')');
    replace_repeated_strings(trimmed.as_str())
}

/// A declaration-line modifier: a pseudo-class suffix, or a media query.
#[derive(Debug, PartialEq, Eq)]
pub enum Modifier {
    Pseudo(String),
    Media(String),
}

/// The spec-level value of a [`Modifier`].
pub enum ModifierV {
    Pseudo(Seq<char>),
    Media(Seq<char>),
}

impl DeepView for Modifier {
    type V = ModifierV;

    open spec fn deep_view(&self) -> ModifierV {
        match self {
            Modifier::Pseudo(p) => ModifierV::Pseudo(p@),
            Modifier::Media(m) => ModifierV::Media(m@),
        }
    }
}

/// Wraps a rule in another block: `with{s}`.
pub open spec fn spec_surround(s: Seq<char>, with: Seq<char>) -> Seq<char> {
    with + seq!['{'] + s + seq!['}']
}

/// The executable counterpart of [`spec_surround`].
pub fn surround(s: &str, with: &str) -> (r: String)
    ensures
        r@ == spec_surround(s@, with@),
{
    let mut r = with.to_owned();
    push_char(&mut r, '{');
    r.append(s);
    push_char(&mut r, '}');
    proof {
        assert(r@ =~= spec_surround(s@, with@));
    }
    r
}

/// The modifier a prefix word stands for: the known screen and scheme words
/// become media queries, an `aria-` word becomes an attribute selector, and
/// anything else a plain pseudo-class.
pub open spec fn spec_modifier(part: Seq<char>) -> ModifierV {
    if part == "dark"@ {
        ModifierV::Media("prefers-color-scheme:dark"@)
    } else if part == "sm"@ {
        ModifierV::Media("min-width:640px"@)
    } else if part == "md"@ {
        ModifierV::Media("min-width:768px"@)
    } else if part == "lg"@ {
        ModifierV::Media("min-width:1024px"@)
    } else if part == "xl"@ {
        ModifierV::Media("min-width:1280px"@)
    } else if part == "2xl"@ {
        ModifierV::Media("min-width:1536px"@)
    } else if part == "portrait"@ {
        ModifierV::Media("orientation:portrait"@)
    } else if part == "landscape"@ {
        ModifierV::Media("orientation:landscape"@)
    } else if part == "motion-safe"@ {
        ModifierV::Media("prefers-reduced-motion:no-prefence"@)
    } else if part == "motion-reduce"@ {
        ModifierV::Media("prefers-reduced-motion:reduce"@)
    } else if spec_starts_with(part, "aria-"@) {
        ModifierV::Pseudo(seq!['['] + part + "=\"true\"]"@)
    } else {
        ModifierV::Pseudo(part)
    }
}

/// Classifies one prefix word as a modifier.
pub fn modifier(part: &str) -> (r: Modifier)
    ensures
        r.deep_view() == spec_modifier(part@),
{
    if str_eq(part, "dark") {
        Modifier::Media("prefers-color-scheme:dark".to_owned())
    } else if str_eq(part, "sm") {
        Modifier::Media("min-width:640px".to_owned())
    } else if str_eq(part, "md") {
        Modifier::Media("min-width:768px".to_owned())
    } else if str_eq(part, "lg") {
        Modifier::Media("min-width:1024px".to_owned())
    } else if str_eq(part, "xl") {
        Modifier::Media("min-width:1280px".to_owned())
    } else if str_eq(part, "2xl") {
        Modifier::Media("min-width:1536px".to_owned())
    } else if str_eq(part, "portrait") {
        Modifier::Media("orientation:portrait".to_owned())
    } else if str_eq(part, "landscape") {
        Modifier::Media("orientation:landscape".to_owned())
    } else if str_eq(part, "motion-safe") {
        Modifier::Media("prefers-reduced-motion:no-prefence".to_owned())
    } else if str_eq(part, "motion-reduce") {
        Modifier::Media("prefers-reduced-motion:reduce".to_owned())
    } else if starts_with(part, "aria-") {
        let mut p = String::new();
        push_char(&mut p, '[');
        p.append(part);
        p.append("=\"true\"]");
        proof {
            assert(p@ =~= seq!['['] + part@ + "=\"true\"]"@);
        }
        Modifier::Pseudo(p)
    } else {
        Modifier::Pseudo(part.to_owned())
    }
}

/// The pseudo-class suffix a modifier contributes, when it is one.
pub open spec fn spec_pseudo(m: ModifierV) -> Option<Seq<char>> {
    match m {
        ModifierV::Pseudo(p) => Some(seq![':'] + p),
        ModifierV::Media(_) => None,
    }
}

/// The pseudo-class suffix of a modifier.
pub fn pseudo(m: &Modifier) -> (r: Option<String>)
    ensures
        r.deep_view() == spec_pseudo(m.deep_view()),
{
    match m {
        Modifier::Pseudo(p) => {
            let mut s = String::new();
            push_char(&mut s, ':');
            s.append(p.as_str());
            proof {
                assert(s@ =~= seq![':'] + p@);
            }
            Some(s)
        },
        Modifier::Media(_) => None,
    }
}

/// The media query a modifier contributes, when it is one.
pub open spec fn spec_media(m: ModifierV) -> Option<Seq<char>> {
    match m {
        ModifierV::Pseudo(_) => None,
        ModifierV::Media(q) => Some("@media("@ + q + seq![')']),
    }
}

/// The media query of a modifier.
pub fn media(m: &Modifier) -> (r: Option<String>)
    ensures
        r.deep_view() == spec_media(m.deep_view()),
{
    match m {
        Modifier::Pseudo(_) => None,
        Modifier::Media(q) => {
            let mut s = "@media(".to_owned();
            s.append(q.as_str());
            push_char(&mut s, ')');
            proof {
                assert(s@ =~= "@media("@ + q@ + seq![')']);
            }
            Some(s)
        },
    }
}

/// The pseudo-class suffixes of the modifiers, last to first, concatenated.
pub open spec fn spec_pseudos_reversed(mods: Seq<ModifierV>) -> Seq<char>
    decreases mods.len(),
{
    if mods.len() == 0 {
        Seq::<char>::empty()
    } else {
        (match spec_pseudo(mods.last()) {
            Some(p) => p,
            None => Seq::<char>::empty(),
        }) + spec_pseudos_reversed(mods.drop_last())
    }
}

/// The rule wrapped in the modifiers' media queries, the first query
/// outermost.
pub open spec fn spec_media_wrapped(css: Seq<char>, mods: Seq<ModifierV>) -> Seq<char>
    decreases mods.len(),
{
    if mods.len() == 0 {
        css
    } else {
        match spec_media(mods.last()) {
            Some(q) => spec_media_wrapped(spec_surround(css, q), mods.drop_last()),
            None => spec_media_wrapped(css, mods.drop_last()),
        }
    }
}

fn pseudos_reversed(mods: &Vec<Modifier>) -> (r: String)
    ensures
        r@ == spec_pseudos_reversed(mods.deep_view()),
{
    let mut r = String::new();
    let mut n: usize = mods.len();
    proof {
        assert(mods.deep_view().take(mods@.len() as int) =~= mods.deep_view());
    }
    while n > 0
        invariant
            n <= mods@.len(),
            r@ + spec_pseudos_reversed(mods.deep_view().take(n as int)) == spec_pseudos_reversed(
                mods.deep_view(),
            ),
        decreases n,
    {
        let ghost pre = r@;
        proof {
            assert(mods.deep_view().take(n as int).last() == mods.deep_view()[n - 1]);
            assert(mods.deep_view().take(n as int).drop_last() =~= mods.deep_view().take(
                n as int - 1,
            ));
        }
        match pseudo(&mods[n - 1]) {
            Some(p) => {
                r.append(p.as_str());
                proof {
                    assert(r@ + spec_pseudos_reversed(mods.deep_view().take(n as int - 1)) =~= pre
                        + spec_pseudos_reversed(mods.deep_view().take(n as int)));
                }
            },
            None => {},
        }
        n = n - 1;
    }
    proof {
        assert(spec_pseudos_reversed(mods.deep_view().take(0)) =~= Seq::<char>::empty());
        assert(r@ + Seq::<char>::empty() =~= r@);
    }
    r
}

fn media_wrapped(css: String, mods: &Vec<Modifier>) -> (r: String)
    ensures
        r@ == spec_media_wrapped(css@, mods.deep_view()),
{
    let mut r = css;
    let mut n: usize = mods.len();
    proof {
        assert(mods.deep_view().take(mods@.len() as int) =~= mods.deep_view());
    }
    while n > 0
        invariant
            n <= mods@.len(),
            spec_media_wrapped(r@, mods.deep_view().take(n as int)) == spec_media_wrapped(
                css@,
                mods.deep_view(),
            ),
        decreases n,
    {
        proof {
            assert(mods.deep_view().take(n as int).last() == mods.deep_view()[n - 1]);
            assert(mods.deep_view().take(n as int).drop_last() =~= mods.deep_view().take(
                n as int - 1,
            ));
        }
        match media(&mods[n - 1]) {
            Some(q) => {
                r = surround(r.as_str(), q.as_str());
            },
            None => {},
        }
        n = n - 1;
    }
    proof {
        assert(spec_media_wrapped(r@, mods.deep_view().take(0)) == r@);
    }
    r
}

/// The trimmed pieces of a sequence of texts.
pub open spec fn spec_trim_all(parts: Seq<Seq<char>>) -> Seq<Seq<char>>
    decreases parts.len(),
{
    if parts.len() == 0 {
        parts
    } else {
        seq![spec_trim(parts[0])] + spec_trim_all(parts.drop_first())
    }
}

fn trim_all(parts: &Vec<String>) -> (r: Vec<String>)
    ensures
        r.deep_view() == spec_trim_all(parts.deep_view()),
{
    let mut r: Vec<String> = Vec::new();
    let mut i: usize = 0;
    let ghost all = parts.deep_view();
    proof {
        assert(all.skip(0) =~= all);
        assert(r.deep_view() + spec_trim_all(all) =~= spec_trim_all(all));
    }
    while i < parts.len()
        invariant
            i <= parts@.len(),
            all == parts.deep_view(),
            r.deep_view() + spec_trim_all(all.skip(i as int)) == spec_trim_all(all),
        decreases parts@.len() - i,
    {
        let ghost pre = r.deep_view();
        proof {
            assert(all.skip(i as int)[0] == all[i as int]);
            assert(all.skip(i as int).drop_first() =~= all.skip(i as int + 1));
        }
        let t = trim(parts[i].as_str());
        r.push(t);
        proof {
            assert(pre.push(spec_trim(all[i as int])) + spec_trim_all(all.skip(i as int + 1))
                =~= pre + spec_trim_all(all.skip(i as int)));
        }
        i = i + 1;
    }
    proof {
        assert(spec_trim_all(all.skip(i as int)) =~= Seq::<Seq<char>>::empty());
        assert(r.deep_view() + Seq::<Seq<char>>::empty() =~= r.deep_view());
    }
    r
}

/// The modifiers of the leading pieces.
pub open spec fn spec_modifiers(parts: Seq<Seq<char>>) -> Seq<ModifierV>
    decreases parts.len(),
{
    if parts.len() == 0 {
        Seq::<ModifierV>::empty()
    } else {
        seq![spec_modifier(parts[0])] + spec_modifiers(parts.drop_first())
    }
}

fn modifiers_of(parts: &Vec<String>, upto: usize) -> (r: Vec<Modifier>)
    requires
        upto <= parts@.len(),
    ensures
        r.deep_view() == spec_modifiers(parts.deep_view().take(upto as int)),
{
    let mut r: Vec<Modifier> = Vec::new();
    let mut i: usize = 0;
    let ghost all = parts.deep_view().take(upto as int);
    proof {
        assert(all.skip(0) =~= all);
        assert(r.deep_view() + spec_modifiers(all) =~= spec_modifiers(all));
    }
    while i < upto
        invariant
            i <= upto,
            upto <= parts@.len(),
            all == parts.deep_view().take(upto as int),
            r.deep_view() + spec_modifiers(all.skip(i as int)) == spec_modifiers(all),
        decreases upto - i,
    {
        let ghost pre = r.deep_view();
        proof {
            assert(all.skip(i as int)[0] == all[i as int]);
            assert(all[i as int] == parts.deep_view()[i as int]);
            assert(all.skip(i as int).drop_first() =~= all.skip(i as int + 1));
        }
        let m = modifier(parts[i].as_str());
        r.push(m);
        proof {
            assert(pre.push(spec_modifier(all[i as int])) + spec_modifiers(all.skip(i as int + 1))
                =~= pre + spec_modifiers(all.skip(i as int)));
        }
        i = i + 1;
    }
    proof {
        assert(spec_modifiers(all.skip(i as int)) =~= Seq::<ModifierV>::empty());
        assert(r.deep_view() + Seq::<ModifierV>::empty() =~= r.deep_view());
    }
    r
}

/// The style rule of one class and declaration line.  With at most one
/// colon the line is written as it stands; with more, the leading pieces
/// are modifiers: pseudo-classes join the class name (last first) and media
/// queries wrap the rule (first outermost), while the last two pieces are
/// the property and its value.
pub open spec fn spec_rule_css(class: Seq<char>, rule: Seq<char>) -> Seq<char> {
    let parts = spec_trim_all(spec_split_char(rule, ':'));
    if parts.len() <= 2 {
        seq!['.'] + class + seq!['{'] + spec_join(parts, seq![':']) + seq![';', '}']
    } else {
        let mods = spec_modifiers(parts.take(parts.len() - 2));
        let full_class = class + spec_pseudos_reversed(mods);
        let body = spec_join(parts.skip(parts.len() - 2), seq![':']);
        let css = seq!['.'] + full_class + seq!['{'] + body + seq![';', '}'];
        spec_media_wrapped(css, mods)
    }
}

fn rule_css(class: &str, rule: &str) -> (r: String)
    ensures
        r@ == spec_rule_css(class@, rule@),
{
    let split = split_char(rule, ':');
    let parts = trim_all(&split);
    proof {
        reveal_strlit(":");
        assert(":"@ =~= seq![':']);
    }
    if parts.len() <= 2 {
        let body = join(&parts, ":");
        let mut r = String::new();
        push_char(&mut r, '.');
        r.append(class);
        push_char(&mut r, '{');
        r.append(body.as_str());
        r.append(";}");
        proof {
            reveal_strlit(";}");
            assert(";}"@ =~= seq![';', '}']);
            assert(r@ =~= spec_rule_css(class@, rule@));
        }
        r
    } else {
        let upto = parts.len() - 2;
        let mods = modifiers_of(&parts, upto);
        let pseudos = pseudos_reversed(&mods);
        let mut tail: Vec<String> = Vec::new();
        let mut i: usize = upto;
        proof {
            assert(parts.deep_view().skip(upto as int).take(0) =~= Seq::<Seq<char>>::empty());
            assert(tail.deep_view() =~= parts.deep_view().skip(upto as int).take(0));
        }
        while i < parts.len()
            invariant
                upto <= i <= parts@.len(),
                upto == parts@.len() - 2,
                tail.deep_view() == parts.deep_view().skip(upto as int).take(i - upto),
            decreases parts@.len() - i,
        {
            let t = parts[i].clone();
            tail.push(t);
            proof {
                assert(tail.deep_view() =~= parts.deep_view().skip(upto as int).take(
                    i + 1 - upto,
                ));
            }
            i = i + 1;
        }
        proof {
            assert(parts.deep_view().skip(upto as int).take(i - upto) =~= parts.deep_view().skip(
                upto as int,
            ));
        }
        let body = join(&tail, ":");
        let mut css = String::new();
        push_char(&mut css, '.');
        css.append(class);
        css.append(pseudos.as_str());
        push_char(&mut css, '{');
        css.append(body.as_str());
        css.append(";}");
        proof {
            reveal_strlit(";}");
            assert(";}"@ =~= seq![';', '}']);
            let partsv = parts.deep_view();
            let modsv = spec_modifiers(partsv.take(partsv.len() - 2));
            assert(css@ =~= seq!['.'] + (class@ + spec_pseudos_reversed(modsv)) + seq!['{']
                + spec_join(partsv.skip(partsv.len() - 2), seq![':']) + seq![';', '}']);
        }
        media_wrapped(css, &mods)
    }
}

/// The style rules of a list of (class, declaration line) pairs, in order.
pub open spec fn spec_generate_css(rules: Seq<(Seq<char>, Seq<char>)>) -> Seq<Seq<char>>
    decreases rules.len(),
{
    if rules.len() == 0 {
        Seq::<Seq<char>>::empty()
    } else {
        seq![spec_rule_css(rules[0].0, rules[0].1)] + spec_generate_css(rules.drop_first())
    }
}

/// Generates the style rules of a list of (class, declaration line) pairs.
pub fn generate_css(rules: &Vec<(String, String)>) -> (r: Vec<String>)
    ensures
        r.deep_view() == spec_generate_css(rules.deep_view()),
{
    let mut r: Vec<String> = Vec::new();
    let mut i: usize = 0;
    let ghost all = rules.deep_view();
    proof {
        assert(all.skip(0) =~= all);
        assert(r.deep_view() + spec_generate_css(all) =~= spec_generate_css(all));
    }
    while i < rules.len()
        invariant
            i <= rules@.len(),
            all == rules.deep_view(),
            r.deep_view() + spec_generate_css(all.skip(i as int)) == spec_generate_css(all),
        decreases rules@.len() - i,
    {
        let ghost pre = r.deep_view();
        proof {
            assert(all.skip(i as int)[0] == all[i as int]);
            assert(all.skip(i as int).drop_first() =~= all.skip(i as int + 1));
        }
        let c = rule_css(rules[i].0.as_str(), rules[i].1.as_str());
        r.push(c);
        proof {
            assert(pre.push(spec_rule_css(all[i as int].0, all[i as int].1))
                + spec_generate_css(all.skip(i as int + 1)) =~= pre + spec_generate_css(
                all.skip(i as int),
            ));
        }
        i = i + 1;
    }
    proof {
        assert(spec_generate_css(all.skip(i as int)) =~= Seq::<Seq<char>>::empty());
        assert(r.deep_view() + Seq::<Seq<char>>::empty() =~= r.deep_view());
    }
    r
}

/// The class names of the declaration lines, in order.
pub open spec fn spec_class_names(lines: Seq<Seq<char>>) -> Seq<Seq<char>>
    decreases lines.len(),
{
    if lines.len() == 0 {
        Seq::<Seq<char>>::empty()
    } else {
        seq![spec_class_name(lines[0])] + spec_class_names(lines.drop_first())
    }
}

/// What the generator yields for a list of declaration lines: the derived
/// class names joined with spaces, and one style rule per line.
pub open spec fn spec_css_output(lines: Seq<Seq<char>>) -> (Seq<char>, Seq<Seq<char>>) {
    let names = spec_class_names(lines);
    (spec_join(names, seq![' ']), spec_generate_css(names.zip_with(lines)))
}

/// Turns declaration lines into the space-joined class list and the style
/// rules, as the utility-class generator hands them to an element.
pub fn css(lines: &Vec<String>) -> (r: (String, Vec<String>))
    ensures
        (r.0@, r.1.deep_view()) == spec_css_output(lines.deep_view()),
{
    let mut names: Vec<String> = Vec::new();
    let mut pairs: Vec<(String, String)> = Vec::new();
    let mut i: usize = 0;
    let ghost all = lines.deep_view();
    let ghost namesv = spec_class_names(all);
    proof {
        assert(all.skip(0) =~= all);
        lemma_class_names_len(all);
        assert(names.deep_view() + spec_class_names(all) =~= spec_class_names(all));
        assert(pairs.deep_view() =~= namesv.zip_with(all).take(0));
    }
    while i < lines.len()
        invariant
            i <= lines@.len(),
            all == lines.deep_view(),
            namesv == spec_class_names(all),
            names.deep_view() + spec_class_names(all.skip(i as int)) == namesv,
            pairs.deep_view() == namesv.zip_with(all).take(i as int),
        decreases lines@.len() - i,
    {
        let ghost pre_names = names.deep_view();
        proof {
            assert(all.skip(i as int)[0] == all[i as int]);
            assert(all.skip(i as int).drop_first() =~= all.skip(i as int + 1));
            lemma_class_names_index(all, i as int);
        }
        let name = class_name(lines[i].as_str());
        names.push(name.clone());
        pairs.push((name, lines[i].clone()));
        proof {
            assert(pre_names.push(spec_class_name(all[i as int])) + spec_class_names(
                all.skip(i as int + 1),
            ) =~= pre_names + spec_class_names(all.skip(i as int)));
            assert(pairs.deep_view() =~= namesv.zip_with(all).take(i as int + 1));
        }
        i = i + 1;
    }
    proof {
        assert(spec_class_names(all.skip(i as int)) =~= Seq::<Seq<char>>::empty());
        assert(names.deep_view() + Seq::<Seq<char>>::empty() =~= names.deep_view());
        assert(pairs.deep_view() =~= namesv.zip_with(all));
        reveal_strlit(" ");
        assert(" "@ =~= seq![' ']);
    }
    let classes = join(&names, " ");
    let rules = generate_css(&pairs);
    (classes, rules)
}

/// The class name at an index distributes over the list.
pub proof fn lemma_class_names_index(lines: Seq<Seq<char>>, i: int)
    requires
        0 <= i < lines.len(),
    ensures
        spec_class_names(lines)[i] == spec_class_name(lines[i]),
        spec_class_names(lines).len() == lines.len(),
    decreases lines.len(),
{
    if i > 0 {
        lemma_class_names_index(lines.drop_first(), i - 1);
    } else {
        lemma_class_names_len(lines.drop_first());
    }
}

pub proof fn lemma_class_names_len(lines: Seq<Seq<char>>)
    ensures
        spec_class_names(lines).len() == lines.len(),
    decreases lines.len(),
{
    if lines.len() > 0 {
        lemma_class_names_len(lines.drop_first());
    }
}

} // verus!
