//! Verified string utilities: decimal rendering of integers, prefix tests,
//! splitting, joining, trimming and substring replacement.  Every function is
//! specified against a spec-level function on `Seq<char>`.

use vstd::prelude::*;

verus! {

/// Relies on `String::push`: appends exactly one character to the string.
#[verifier::external_body]
pub fn push_char(s: &mut String, c: char)
    ensures
        final(s)@ == old(s)@.push(c),
{
    s.push(c);
}

/// The decimal digit character for a value in 0..10.
pub open spec fn spec_digit_char(d: nat) -> char {
    ((48 + d) as u8) as char
}

/// The decimal digit string of a non-negative integer, most significant
/// digit first.
pub open spec fn spec_u64_chars(n: nat) -> Seq<char>
    decreases n,
{
    if n < 10 {
        seq![spec_digit_char(n)]
    } else {
        spec_u64_chars(n / 10).push(spec_digit_char(n % 10))
    }
}

/// The decimal string of a signed integer: a minus sign followed by the
/// digits of the magnitude when negative, the bare digits otherwise.
pub open spec fn spec_i64_chars(n: int) -> Seq<char> {
    if n < 0 {
        seq!['-'] + spec_u64_chars((-n) as nat)
    } else {
        spec_u64_chars(n as nat)
    }
}

fn digit_char(d: u8) -> (c: char)
    requires
        d < 10,
    ensures
        c == spec_digit_char(d as nat),
{
    (48 + d) as char
}

fn push_u64_digits(n: u64, buf: &mut String)
    ensures
        final(buf)@ == old(buf)@ + spec_u64_chars(n as nat),
    decreases n,
{
    if n < 10 {
        let c = digit_char(n as u8);
        push_char(buf, c);
        proof {
            assert(buf@ =~= old(buf)@ + spec_u64_chars(n as nat));
        }
    } else {
        push_u64_digits(n / 10, buf);
        let c = digit_char((n % 10) as u8);
        push_char(buf, c);
        proof {
            assert(buf@ =~= old(buf)@ + spec_u64_chars(n as nat));
        }
    }
}

/// Renders a non-negative integer in decimal.
pub fn u64_to_string(n: u64) -> (r: String)
    ensures
        r@ == spec_u64_chars(n as nat),
{
    let mut s = String::new();
    push_u64_digits(n, &mut s);
    proof {
        assert(s@ =~= spec_u64_chars(n as nat));
    }
    s
}

/// Renders a signed integer in decimal, with a leading minus sign when
/// negative.
pub fn i64_to_string(n: i64) -> (r: String)
    ensures
        r@ == spec_i64_chars(n as int),
{
    if n >= 0 {
        u64_to_string(n as u64)
    } else {
        let magnitude = (-(n as i128)) as u64;
        let mut s = String::new();
        push_char(&mut s, '-');
        push_u64_digits(magnitude, &mut s);
        proof {
            assert(s@ =~= spec_i64_chars(n as int));
        }
        s
    }
}

/// Whether `p` is a prefix of `s`.
pub open spec fn spec_starts_with(s: Seq<char>, p: Seq<char>) -> bool {
    p.len() <= s.len() && s.subrange(0, p.len() as int) == p
}

/// Prefix test over characters.
pub fn starts_with(s: &str, p: &str) -> (r: bool)
    ensures
        r == spec_starts_with(s@, p@),
{
    let s_len = s.unicode_len();
    let p_len = p.unicode_len();
    if p_len > s_len {
        return false;
    }
    let mut i: usize = 0;
    while i < p_len
        invariant
            i <= p_len,
            p_len <= s_len,
            s_len == s@.len(),
            p_len == p@.len(),
            forall|j: int| 0 <= j < i ==> s@[j] == p@[j],
        decreases p_len - i,
    {
        if s.get_char(i) != p.get_char(i) {
            proof {
                assert(s@.subrange(0, p@.len() as int)[i as int] != p@[i as int]);
            }
            return false;
        }
        i = i + 1;
    }
    proof {
        assert(s@.subrange(0, p@.len() as int) =~= p@);
    }
    true
}

/// Content equality of two string slices.
pub fn str_eq(a: &str, b: &str) -> (r: bool)
    ensures
        r == (a@ == b@),
{
    a.to_owned() == b.to_owned()
}

/// The pieces of `s` between occurrences of `sep`; the separator itself is
/// dropped.  An empty string yields one empty piece, and a separator at
/// either end yields an empty piece there.
pub open spec fn spec_split_char(s: Seq<char>, sep: char) -> Seq<Seq<char>>
    decreases s.len(),
{
    if s.len() == 0 {
        seq![Seq::<char>::empty()]
    } else if s[0] == sep {
        seq![Seq::<char>::empty()] + spec_split_char(s.drop_first(), sep)
    } else {
        let rest = spec_split_char(s.drop_first(), sep);
        seq![seq![s[0]] + rest[0]] + rest.drop_first()
    }
}

pub proof fn lemma_split_char_len(s: Seq<char>, sep: char)
    ensures
        spec_split_char(s, sep).len() >= 1,
    decreases s.len(),
{
    if s.len() > 0 {
        lemma_split_char_len(s.drop_first(), sep);
    }
}

/// Splits on a separator character.
pub fn split_char(s: &str, sep: char) -> (r: Vec<String>)
    ensures
        r.deep_view() == spec_split_char(s@, sep),
    decreases s@.len(),
{
    let len = s.unicode_len();
    if len == 0 {
        let mut v: Vec<String> = Vec::new();
        v.push(String::new());
        proof {
            assert(v.deep_view() =~= spec_split_char(s@, sep));
        }
        v
    } else {
        let c0 = s.get_char(0);
        let rest_str = s.substring_char(1, len);
        let mut rest = split_char(rest_str, sep);
        proof {
            assert(rest_str@ =~= s@.drop_first());
            lemma_split_char_len(rest_str@, sep);
            assert(rest.deep_view().len() == rest@.len());
        }
        if c0 == sep {
            rest.insert(0, String::new());
            proof {
                assert(rest.deep_view() =~= spec_split_char(s@, sep));
            }
            rest
        } else {
            let first = rest.remove(0);
            let mut new_first = String::new();
            push_char(&mut new_first, c0);
            new_first.append(first.as_str());
            rest.insert(0, new_first);
            proof {
                assert(rest.deep_view() =~= spec_split_char(s@, sep));
            }
            rest
        }
    }
}

/// The pieces joined with `sep` between consecutive pieces.
pub open spec fn spec_join(parts: Seq<Seq<char>>, sep: Seq<char>) -> Seq<char>
    decreases parts.len(),
{
    if parts.len() == 0 {
        Seq::<char>::empty()
    } else if parts.len() == 1 {
        parts[0]
    } else {
        parts[0] + sep + spec_join(parts.drop_first(), sep)
    }
}

fn join_from(parts: &Vec<String>, sep: &str, i: usize) -> (r: String)
    requires
        i <= parts@.len(),
    ensures
        r@ == spec_join(parts.deep_view().skip(i as int), sep@),
    decreases parts@.len() - i,
{
    if i == parts.len() {
        proof {
            assert(parts.deep_view().skip(i as int).len() == 0);
        }
        String::new()
    } else if i + 1 == parts.len() {
        let r = parts[i].clone();
        proof {
            assert(parts.deep_view().skip(i as int).len() == 1);
            assert(parts.deep_view().skip(i as int)[0] == parts@[i as int]@);
        }
        r
    } else {
        let mut r = parts[i].clone();
        r.append(sep);
        let rest = join_from(parts, sep, i + 1);
        r.append(rest.as_str());
        proof {
            let tail = parts.deep_view().skip(i as int);
            assert(tail.drop_first() =~= parts.deep_view().skip(i as int + 1));
            assert(tail[0] == parts@[i as int]@);
            assert(r@ =~= spec_join(tail, sep@));
        }
        r
    }
}

/// Joins the pieces with a separator.
pub fn join(parts: &Vec<String>, sep: &str) -> (r: String)
    ensures
        r@ == spec_join(parts.deep_view(), sep@),
{
    let r = join_from(parts, sep, 0);
    proof {
        assert(parts.deep_view().skip(0) =~= parts.deep_view());
    }
    r
}

/// `s` with every non-overlapping occurrence of `from`, leftmost first,
/// replaced by `to`; `s` itself when `from` is empty.
pub open spec fn spec_replace(s: Seq<char>, from: Seq<char>, to: Seq<char>) -> Seq<char>
    decreases s.len(),
{
    if from.len() == 0 || s.len() < from.len() {
        s
    } else if s.subrange(0, from.len() as int) == from {
        to + spec_replace(s.skip(from.len() as int), from, to)
    } else {
        seq![s[0]] + spec_replace(s.drop_first(), from, to)
    }
}

/// Replaces every occurrence of `from` by `to`, scanning left to right.
pub fn replace_all(s: &str, from: &str, to: &str) -> (r: String)
    ensures
        r@ == spec_replace(s@, from@, to@),
    decreases s@.len(),
{
    let n = s.unicode_len();
    let m = from.unicode_len();
    if m == 0 || n < m {
        return s.to_owned();
    }
    if starts_with(s, from) {
        let mut r = to.to_owned();
        let rest_str = s.substring_char(m, n);
        let rest = replace_all(rest_str, from, to);
        r.append(rest.as_str());
        proof {
            assert(rest_str@ =~= s@.skip(from@.len() as int));
            assert(r@ =~= spec_replace(s@, from@, to@));
        }
        r
    } else {
        let mut r = String::new();
        push_char(&mut r, s.get_char(0));
        let rest_str = s.substring_char(1, n);
        let rest = replace_all(rest_str, from, to);
        r.append(rest.as_str());
        proof {
            assert(rest_str@ =~= s@.drop_first());
            assert(r@ =~= spec_replace(s@, from@, to@));
        }
        r
    }
}

/// An ASCII whitespace character.
pub open spec fn spec_is_space(c: char) -> bool {
    c == ' ' || c == '\t' || c == '\n' || c == '\r'
}

/// `s` without leading ASCII whitespace.
pub open spec fn spec_trim_start(s: Seq<char>) -> Seq<char>
    decreases s.len(),
{
    if s.len() > 0 && spec_is_space(s[0]) {
        spec_trim_start(s.drop_first())
    } else {
        s
    }
}

/// `s` without trailing ASCII whitespace.
pub open spec fn spec_trim_end(s: Seq<char>) -> Seq<char>
    decreases s.len(),
{
    if s.len() > 0 && spec_is_space(s.last()) {
        spec_trim_end(s.drop_last())
    } else {
        s
    }
}

/// `s` without leading or trailing ASCII whitespace.
pub open spec fn spec_trim(s: Seq<char>) -> Seq<char> {
    spec_trim_end(spec_trim_start(s))
}

fn is_space(c: char) -> (r: bool)
    ensures
        r == spec_is_space(c),
{
    c == ' ' || c == '\t' || c == '\n' || c == '\r'
}

fn trim_start(s: &str) -> (r: String)
    ensures
        r@ == spec_trim_start(s@),
    decreases s@.len(),
{
    let n = s.unicode_len();
    if n == 0 {
        return s.to_owned();
    }
    let c0 = s.get_char(0);
    if is_space(c0) {
        let rest = s.substring_char(1, n);
        proof {
            assert(rest@ =~= s@.drop_first());
        }
        trim_start(rest)
    } else {
        s.to_owned()
    }
}

fn trim_end(s: &str) -> (r: String)
    ensures
        r@ == spec_trim_end(s@),
    decreases s@.len(),
{
    let n = s.unicode_len();
    if n == 0 {
        return s.to_owned();
    }
    let cl = s.get_char(n - 1);
    if is_space(cl) {
        let rest = s.substring_char(0, n - 1);
        proof {
            assert(rest@ =~= s@.drop_last());
        }
        trim_end(rest)
    } else {
        s.to_owned()
    }
}

/// Removes leading and trailing ASCII whitespace.
pub fn trim(s: &str) -> (r: String)
    ensures
        r@ == spec_trim(s@),
{
    let t = trim_start(s);
    trim_end(t.as_str())
}

/// `s` without its trailing run of `c` characters.
pub open spec fn spec_trim_end_char(s: Seq<char>, c: char) -> Seq<char>
    decreases s.len(),
{
    if s.len() > 0 && s.last() == c {
        spec_trim_end_char(s.drop_last(), c)
    } else {
        s
    }
}

/// Removes every trailing occurrence of `c`.
pub fn trim_end_char(s: &str, c: char) -> (r: String)
    ensures
        r@ == spec_trim_end_char(s@, c),
    decreases s@.len(),
{
    let n = s.unicode_len();
    if n == 0 {
        return s.to_owned();
    }
    let cl = s.get_char(n - 1);
    if cl == c {
        let rest = s.substring_char(0, n - 1);
        proof {
            assert(rest@ =~= s@.drop_last());
        }
        trim_end_char(rest, c)
    } else {
        s.to_owned()
    }
}

/// The ASCII uppercase counterpart of a character.
pub open spec fn spec_ascii_upper(c: char) -> char {
    if 97 <= c as u32 && c as u32 <= 122 {
        (((c as u32) - 32) as u8) as char
    } else {
        c
    }
}

/// The ASCII lowercase counterpart of a character.
pub open spec fn spec_ascii_lower(c: char) -> char {
    if 65 <= c as u32 && c as u32 <= 90 {
        (((c as u32) + 32) as u8) as char
    } else {
        c
    }
}

pub open spec fn spec_is_ascii_upper(c: char) -> bool {
    65 <= c as u32 && c as u32 <= 90
}

fn ascii_upper(c: char) -> (r: char)
    ensures
        r == spec_ascii_upper(c),
{
    let b = c as u32;
    if 97 <= b && b <= 122 {
        ((b - 32) as u8) as char
    } else {
        c
    }
}

fn ascii_lower(c: char) -> (r: char)
    ensures
        r == spec_ascii_lower(c),
{
    let b = c as u32;
    if 65 <= b && b <= 90 {
        ((b + 32) as u8) as char
    } else {
        c
    }
}

/// A word with its first character raised to ASCII uppercase.
pub open spec fn spec_capitalize(w: Seq<char>) -> Seq<char> {
    if w.len() == 0 {
        w
    } else {
        seq![spec_ascii_upper(w[0])] + w.drop_first()
    }
}

/// The capitalized non-empty words, concatenated.
pub open spec fn spec_pascal_of_parts(parts: Seq<Seq<char>>) -> Seq<char>
    decreases parts.len(),
{
    if parts.len() == 0 {
        Seq::<char>::empty()
    } else {
        let head: Seq<char> = if parts[0].len() == 0 {
            Seq::<char>::empty()
        } else {
            spec_capitalize(parts[0])
        };
        head + spec_pascal_of_parts(parts.drop_first())
    }
}

/// `snake_case` turned into `PascalCase`: underscores are dropped and the
/// character after each of them, and the first, is raised to ASCII uppercase.
pub open spec fn spec_snake_to_pascal(s: Seq<char>) -> Seq<char> {
    spec_pascal_of_parts(spec_split_char(s, '_'))
}

fn pascal_of_parts_from(parts: &Vec<String>, i: usize) -> (r: String)
    requires
        i <= parts@.len(),
    ensures
        r@ == spec_pascal_of_parts(parts.deep_view().skip(i as int)),
    decreases parts@.len() - i,
{
    if i == parts.len() {
        proof {
            assert(parts.deep_view().skip(i as int).len() == 0);
        }
        String::new()
    } else {
        let word = &parts[i];
        let wlen = word.as_str().unicode_len();
        let mut head = String::new();
        if wlen > 0 {
            let c = word.as_str().get_char(0);
            push_char(&mut head, ascii_upper(c));
            let rest_word = word.as_str().substring_char(1, wlen);
            head.append(rest_word);
        }
        let tail = pascal_of_parts_from(parts, i + 1);
        head.append(tail.as_str());
        proof {
            let pv = parts.deep_view().skip(i as int);
            assert(pv.drop_first() =~= parts.deep_view().skip(i as int + 1));
            assert(pv[0] == parts@[i as int]@);
            if pv[0].len() > 0 {
                assert(head@ =~= spec_capitalize(pv[0]) + spec_pascal_of_parts(pv.drop_first()));
            }
            assert(head@ =~= spec_pascal_of_parts(pv));
        }
        head
    }
}

/// Converts a `snake_case` identifier to `PascalCase` (ASCII case mapping).
pub fn snake_to_pascal(s: &str) -> (r: String)
    ensures
        r@ == spec_snake_to_pascal(s@),
{
    let parts = split_char(s, '_');
    let r = pascal_of_parts_from(&parts, 0);
    proof {
        assert(parts.deep_view().skip(0) =~= parts.deep_view());
    }
    r
}

/// The tail of a `PascalCase` word rendered in `snake_case`: each ASCII
/// uppercase letter becomes an underscore and its lowercase form.
pub open spec fn spec_camel_tail(s: Seq<char>) -> Seq<char>
    decreases s.len(),
{
    if s.len() == 0 {
        s
    } else if spec_is_ascii_upper(s[0]) {
        seq!['_', spec_ascii_lower(s[0])] + spec_camel_tail(s.drop_first())
    } else {
        seq![s[0]] + spec_camel_tail(s.drop_first())
    }
}

/// `PascalCase` turned into `snake_case`: the first character is lowered,
/// every later ASCII uppercase letter becomes an underscore plus its
/// lowercase form.
pub open spec fn spec_pascal_to_camel(s: Seq<char>) -> Seq<char> {
    if s.len() == 0 {
        s
    } else {
        seq![spec_ascii_lower(s[0])] + spec_camel_tail(s.drop_first())
    }
}

fn camel_tail(s: &str) -> (r: String)
    ensures
        r@ == spec_camel_tail(s@),
    decreases s@.len(),
{
    let n = s.unicode_len();
    if n == 0 {
        return String::new();
    }
    let c0 = s.get_char(0);
    let mut r = String::new();
    if 65 <= c0 as u32 && c0 as u32 <= 90 {
        push_char(&mut r, '_');
        push_char(&mut r, ascii_lower(c0));
    } else {
        push_char(&mut r, c0);
    }
    let rest_str = s.substring_char(1, n);
    let rest = camel_tail(rest_str);
    r.append(rest.as_str());
    proof {
        assert(rest_str@ =~= s@.drop_first());
        assert(r@ =~= spec_camel_tail(s@));
    }
    r
}

/// Converts a `PascalCase` identifier to `snake_case` (ASCII case mapping).
pub fn pascal_to_camel(s: &str) -> (r: String)
    ensures
        r@ == spec_pascal_to_camel(s@),
{
    let n = s.unicode_len();
    if n == 0 {
        return String::new();
    }
    let mut r = String::new();
    push_char(&mut r, ascii_lower(s.get_char(0)));
    let rest_str = s.substring_char(1, n);
    let rest = camel_tail(rest_str);
    r.append(rest.as_str());
    proof {
        assert(rest_str@ =~= s@.drop_first());
        assert(r@ =~= spec_pascal_to_camel(s@));
    }
    r
}

/// The sequence with later repetitions of an element removed; the first
/// occurrence keeps its place.
pub open spec fn spec_dedup(s: Seq<Seq<char>>) -> Seq<Seq<char>>
    decreases s.len(),
{
    if s.len() == 0 {
        s
    } else {
        let rest = spec_dedup(s.drop_last());
        if s.drop_last().contains(s.last()) {
            rest
        } else {
            rest.push(s.last())
        }
    }
}

pub proof fn lemma_dedup_contains(s: Seq<Seq<char>>, x: Seq<char>)
    ensures
        spec_dedup(s).contains(x) == s.contains(x),
    decreases s.len(),
{
    if s.len() > 0 {
        let d = s.drop_last();
        lemma_dedup_contains(d, x);
        assert(s.contains(x) == (d.contains(x) || s.last() == x)) by {
            if d.contains(x) {
                let i = choose|i: int| 0 <= i < d.len() && d[i] == x;
                assert(s[i] == x);
            }
            if s.last() == x {
                assert(s[s.len() - 1] == x);
            }
            if s.contains(x) {
                let i = choose|i: int| 0 <= i < s.len() && s[i] == x;
                if i < s.len() - 1 {
                    assert(d[i] == x);
                }
            }
        }
        lemma_dedup_contains(d, s.last());
        if !d.contains(s.last()) {
            let p = spec_dedup(d).push(s.last());
            assert(p.contains(x) == (spec_dedup(d).contains(x) || s.last() == x)) by {
                if spec_dedup(d).contains(x) {
                    let i = choose|i: int|
                        0 <= i < spec_dedup(d).len() && spec_dedup(d)[i] == x;
                    assert(p[i] == x);
                }
                assert(p[p.len() - 1] == s.last());
                if p.contains(x) {
                    let i = choose|i: int| 0 <= i < p.len() && p[i] == x;
                    if i < p.len() - 1 {
                        assert(spec_dedup(d)[i] == x);
                    }
                }
            }
        }
    }
}

/// Whether the vector holds a string with the given content.
pub fn contains_string(v: &Vec<String>, x: &String) -> (r: bool)
    ensures
        r == v.deep_view().contains(x@),
{
    let mut i: usize = 0;
    while i < v.len()
        invariant
            i <= v@.len(),
            forall|j: int| 0 <= j < i ==> v.deep_view()[j] != x@,
        decreases v@.len() - i,
    {
        if str_eq(v[i].as_str(), x.as_str()) {
            proof {
                assert(v.deep_view()[i as int] == x@);
            }
            return true;
        }
        i = i + 1;
    }
    proof {
        if v.deep_view().contains(x@) {
            let j = choose|j: int| 0 <= j < v.deep_view().len() && v.deep_view()[j] == x@;
            assert(v.deep_view()[j] == x@);
        }
    }
    false
}

/// Removes later repetitions, keeping each string's first occurrence.
pub fn dedup_strings(v: &Vec<String>) -> (r: Vec<String>)
    ensures
        r.deep_view() == spec_dedup(v.deep_view()),
{
    let mut r: Vec<String> = Vec::new();
    let mut i: usize = 0;
    proof {
        assert(v.deep_view().take(0) =~= Seq::<Seq<char>>::empty());
        assert(r.deep_view() =~= spec_dedup(v.deep_view().take(0)));
    }
    while i < v.len()
        invariant
            i <= v@.len(),
            r.deep_view() == spec_dedup(v.deep_view().take(i as int)),
        decreases v@.len() - i,
    {
        proof {
            lemma_dedup_contains(v.deep_view().take(i as int), v.deep_view()[i as int]);
        }
        let item = v[i].clone();
        let keep = !contains_string(&r, &item);
        proof {
            assert(item@ == v.deep_view()[i as int]);
            assert(v.deep_view().take(i as int + 1).drop_last() =~= v.deep_view().take(i as int));
            assert(v.deep_view().take(i as int + 1).last() == v.deep_view()[i as int]);
        }
        if keep {
            r.push(item);
            proof {
                assert(r.deep_view() =~= spec_dedup(v.deep_view().take(i as int + 1)));
            }
        } else {
            proof {
                assert(r.deep_view() =~= spec_dedup(v.deep_view().take(i as int + 1)));
            }
        }
        i = i + 1;
    }
    proof {
        assert(v.deep_view().take(v@.len() as int) =~= v.deep_view());
    }
    r
}

} // verus!
