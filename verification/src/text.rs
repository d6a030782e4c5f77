//! Text primitives: conversions, ordering, splitting and white space, each
//! stated over the sequence of characters that a string shows.
use vstd::prelude::*;

verus! {

/// Appends one character (`String::push` appends the given `char` to the end
/// of the string).
pub assume_specification[ String::push ](s: &mut String, c: char)
    ensures
        final(s)@ == old(s)@.push(c),
;

/// A text as diagnostics show it: between quotes, with what could be mistaken
/// escaped.
pub uninterp spec fn debug_of(text: Seq<char>) -> Seq<char>;

/// Shows a text for diagnostics (the `Debug` form of `str`, through `format!`): a
/// function of the text alone.
#[verifier::external_body]
pub(crate) fn quoted(text: &str) -> (s: String)
    ensures
        s@ == debug_of(text@),
{
    format!("{:?}", text)
}

/// A label followed by a text.
pub(crate) fn labelled(label: &str, text: &str) -> (s: String)
    ensures
        s@ == label@ + text@,
{
    let mut s = label.to_owned();
    s.append(text);
    s
}

/// Whether a text occurs in another, at any place.
pub open spec fn occurs(text: Seq<char>, within: Seq<char>) -> bool {
    exists|i: int|
        0 <= i <= within.len() - text.len() && #[trigger] within.subrange(i, i + text.len())
            == text
}

/// Something that becomes an owned string: an owned string itself, or a
/// borrowed one that is copied.
pub trait IntoText: Sized {
    /// The characters of the string.
    spec fn text(&self) -> Seq<char>;

    /// The owned string.
    fn into_text(self) -> (s: String)
        ensures
            s@ == self.text(),
    ;
}

impl IntoText for String {
    open spec fn text(&self) -> Seq<char> {
        self@
    }

    fn into_text(self) -> (s: String) {
        self
    }
}

impl<'a> IntoText for &'a str {
    open spec fn text(&self) -> Seq<char> {
        (**self)@
    }

    fn into_text(self) -> (s: String) {
        self.to_owned()
    }
}

impl<'a> IntoText for &'a String {
    open spec fn text(&self) -> Seq<char> {
        (**self)@
    }

    fn into_text(self) -> (s: String) {
        self.clone()
    }
}

/// The characters of a string, in order.
pub fn chars_of(s: &str) -> (v: Vec<char>)
    ensures
        v@ == s@,
{
    let mut v: Vec<char> = Vec::new();
    for c in it: s.chars()
        invariant
            v@ == it.seq().take(it.index() as int),
            it.seq() == s@,
    {
        v.push(c);
        proof {
            assert(it.seq().take(it.index() + 1) =~= it.seq().take(it.index() as int).push(c));
        }
    }
    proof {
        assert(s@.take(s@.len() as int) =~= s@);
    }
    v
}

/// The string that shows `chars[from..to]`.
pub fn text_of(chars: &Vec<char>, from: usize, to: usize) -> (s: String)
    requires
        from <= to <= chars@.len(),
    ensures
        s@ == chars@.subrange(from as int, to as int),
{
    let mut s = String::new();
    let mut i: usize = from;
    while i < to
        invariant
            from <= i <= to <= chars@.len(),
            s@ == chars@.subrange(from as int, i as int),
        decreases to - i,
    {
        s.push(chars[i]);
        proof {
            assert(chars@.subrange(from as int, i + 1) =~= chars@.subrange(from as int, i as int).push(
                chars@[i as int],
            ));
        }
        i = i + 1;
    }
    s
}

/// Whether two strings show the same characters.
pub fn same(a: &str, b: &str) -> (r: bool)
    ensures
        r == (a@ == b@),
{
    a.to_owned() == b.to_owned()
}

/// The lexicographic order of strings by code point, strict. UTF-8 keeps the
/// order of code points, so this is also the order of the encoded bytes.
pub open spec fn text_less(a: Seq<char>, b: Seq<char>) -> bool
    decreases a.len(),
{
    if b.len() == 0 {
        false
    } else if a.len() == 0 {
        true
    } else if a[0] == b[0] {
        text_less(a.skip(1), b.skip(1))
    } else {
        a[0] < b[0]
    }
}

/// Decides [`text_less`].
pub fn less(a: &str, b: &str) -> (r: bool)
    ensures
        r == text_less(a@, b@),
{
    let x = chars_of(a);
    let y = chars_of(b);
    let mut i: usize = 0;
    proof {
        assert(x@.skip(0) =~= x@);
        assert(y@.skip(0) =~= y@);
    }
    while i < x.len() && i < y.len() && x[i] == y[i]
        invariant
            i <= x@.len(),
            i <= y@.len(),
            text_less(x@, y@) == text_less(x@.skip(i as int), y@.skip(i as int)),
        decreases x@.len() - i,
    {
        proof {
            assert(x@.skip(i as int).skip(1) =~= x@.skip(i + 1));
            assert(y@.skip(i as int).skip(1) =~= y@.skip(i + 1));
        }
        i = i + 1;
    }
    if i >= y.len() {
        false
    } else if i >= x.len() {
        true
    } else {
        x[i] < y[i]
    }
}

/// No string comes before itself.
pub proof fn text_less_irreflexive(a: Seq<char>)
    ensures
        !text_less(a, a),
    decreases a.len(),
{
    if a.len() > 0 {
        text_less_irreflexive(a.skip(1));
    }
}

/// The order is transitive.
pub proof fn text_less_transitive(a: Seq<char>, b: Seq<char>, c: Seq<char>)
    requires
        text_less(a, b),
        text_less(b, c),
    ensures
        text_less(a, c),
    decreases a.len(),
{
    if a.len() > 0 && a[0] == b[0] && b[0] == c[0] {
        text_less_transitive(a.skip(1), b.skip(1), c.skip(1));
    }
}

/// Two different strings are ordered one way or the other.
pub proof fn text_less_total(a: Seq<char>, b: Seq<char>)
    ensures
        text_less(a, b) || text_less(b, a) || a == b,
    decreases a.len(),
{
    if a.len() > 0 && b.len() > 0 {
        if a[0] == b[0] {
            text_less_total(a.skip(1), b.skip(1));
            if a.skip(1) == b.skip(1) {
                assert(a =~= seq![a[0]] + a.skip(1));
                assert(b =~= seq![b[0]] + b.skip(1));
            }
        }
    } else {
        if a.len() == b.len() {
            assert(a =~= b);
        }
    }
}

/// The fields of `s` between the separators, empty fields included: one more
/// field than there are separators.
pub open spec fn fields(s: Seq<char>, sep: char) -> Seq<Seq<char>>
    decreases s.len(),
{
    if s.len() == 0 {
        seq![s]
    } else {
        let before = fields(s.drop_last(), sep);
        if s.last() == sep {
            before.push(Seq::empty())
        } else {
            before.update(before.len() - 1, before.last().push(s.last()))
        }
    }
}

/// There is always a field.
pub proof fn fields_nonempty(s: Seq<char>, sep: char)
    ensures
        fields(s, sep).len() >= 1,
    decreases s.len(),
{
    if s.len() > 0 {
        fields_nonempty(s.drop_last(), sep);
    }
}

/// The characters of each of a list of strings.
pub open spec fn texts(v: Seq<String>) -> Seq<Seq<char>> {
    Seq::new(v.len(), |i: int| v[i]@)
}

/// Splits a string at each separator.
pub fn split(s: &str, sep: char) -> (v: Vec<String>)
    ensures
        texts(v@) == fields(s@, sep),
{
    let chars = chars_of(s);
    let mut done: Vec<String> = Vec::new();
    let mut current = String::new();
    let mut i: usize = 0;
    proof {
        assert(chars@.take(0) =~= Seq::<char>::empty());
        assert(texts(done@).push(current@) =~= fields(chars@.take(0), sep));
    }
    while i < chars.len()
        invariant
            i <= chars@.len(),
            texts(done@).push(current@) == fields(chars@.take(i as int), sep),
        decreases chars@.len() - i,
    {
        let c = chars[i];
        let ghost before = texts(done@).push(current@);
        proof {
            let t = chars@.take(i + 1);
            assert(t.drop_last() =~= chars@.take(i as int));
            assert(t.last() == c);
        }
        if c == sep {
            done.push(current);
            current = String::new();
            proof {
                assert(texts(done@) =~= before);
                assert(texts(done@).push(current@) =~= before.push(Seq::empty()));
            }
        } else {
            let ghost was = current@;
            current.push(c);
            proof {
                assert(texts(done@).push(current@) =~= before.update(
                    before.len() - 1,
                    before.last().push(c),
                ));
            }
        }
        i = i + 1;
    }
    proof {
        assert(chars@.take(chars@.len() as int) =~= chars@);
    }
    let ghost all = texts(done@).push(current@);
    done.push(current);
    proof {
        assert(texts(done@) =~= all);
    }
    done
}

/// The characters with the Unicode property `White_Space`.
pub open spec fn is_white_space(c: char) -> bool {
    let u = c as u32;
    ||| 0x09 <= u <= 0x0d
    ||| u == 0x20
    ||| u == 0x85
    ||| u == 0xa0
    ||| u == 0x1680
    ||| 0x2000 <= u <= 0x200a
    ||| u == 0x2028
    ||| u == 0x2029
    ||| u == 0x202f
    ||| u == 0x205f
    ||| u == 0x3000
}

/// Whether a string shows nothing but white space.
pub open spec fn blank(s: Seq<char>) -> bool {
    forall|i: int| 0 <= i < s.len() ==> is_white_space(#[trigger] s[i])
}

/// Decides [`blank`].
pub fn is_blank(s: &str) -> (r: bool)
    ensures
        r == blank(s@),
{
    let chars = chars_of(s);
    let mut i: usize = 0;
    while i < chars.len()
        invariant
            i <= chars@.len(),
            chars@ == s@,
            forall|j: int| 0 <= j < i ==> is_white_space(#[trigger] chars@[j]),
        decreases chars@.len() - i,
    {
        let u: u32 = chars[i] as u32;
        let white: bool = (0x09 <= u && u <= 0x0d) || u == 0x20 || u == 0x85 || u == 0xa0 || u
            == 0x1680 || (0x2000 <= u && u <= 0x200a) || u == 0x2028 || u == 0x2029 || u == 0x202f
            || u == 0x205f || u == 0x3000;
        if !white {
            assert(!is_white_space(s@[i as int]));
            return false;
        }
        i = i + 1;
    }
    true
}

/// What comes before and after the first separator, or `None` without one.
pub open spec fn cut(s: Seq<char>, sep: char) -> Option<(Seq<char>, Seq<char>)>
    decreases s.len(),
{
    if s.len() == 0 {
        None
    } else if s[0] == sep {
        Some((Seq::empty(), s.skip(1)))
    } else {
        match cut(s.skip(1), sep) {
            Some((before, after)) => Some((seq![s[0]] + before, after)),
            None => None,
        }
    }
}

/// Splits a string at the first separator, leaving the separator out.
pub fn split_once(s: &str, sep: char) -> (r: Option<(String, String)>)
    ensures
        match (r, cut(s@, sep)) {
            (Some((a, b)), Some((x, y))) => a@ == x && b@ == y,
            (None, None) => true,
            _ => false,
        },
{
    let chars = chars_of(s);
    let mut i: usize = 0;
    proof {
        assert(chars@.skip(0) =~= chars@);
        assert(chars@.take(0) =~= Seq::<char>::empty());
    }
    while i < chars.len()
        invariant
            i <= chars@.len(),
            chars@ == s@,
            cut(s@, sep) == (match cut(chars@.skip(i as int), sep) {
                Some((before, after)) => Some((chars@.take(i as int) + before, after)),
                None => None::<(Seq<char>, Seq<char>)>,
            }),
        decreases chars@.len() - i,
    {
        let ghost rest = chars@.skip(i as int);
        proof {
            assert(rest.skip(1) =~= chars@.skip(i + 1));
            assert(rest[0] == chars@[i as int]);
        }
        if chars[i] == sep {
            let before = text_of(&chars, 0, i);
            let after = text_of(&chars, i + 1, chars.len());
            proof {
                assert(before@ =~= chars@.take(i as int) + Seq::<char>::empty());
                assert(after@ =~= chars@.skip(i + 1));
            }
            return Some((before, after));
        }
        proof {
            if let Some((before, after)) = cut(rest.skip(1), sep) {
                assert(chars@.take(i as int) + (seq![rest[0]] + before) =~= chars@.take(i + 1)
                    + before);
            }
        }
        i = i + 1;
    }
    None
}

/// A string cut right after a part that holds no separator yields that part.
pub proof fn cut_at(before: Seq<char>, sep: char, after: Seq<char>)
    requires
        forall|i: int| 0 <= i < before.len() ==> #[trigger] before[i] != sep,
    ensures
        cut(before + seq![sep] + after, sep) == Some((before, after)),
    decreases before.len(),
{
    let s = before + seq![sep] + after;
    if before.len() == 0 {
        assert(s.skip(1) =~= after);
        assert(before =~= Seq::<char>::empty());
    } else {
        let tail = before.skip(1);
        assert forall|i: int| 0 <= i < tail.len() implies #[trigger] tail[i] != sep by {
            assert(tail[i] == before[i + 1]);
        }
        cut_at(tail, sep, after);
        assert(s.skip(1) =~= tail + seq![sep] + after);
        assert(seq![before[0]] + tail =~= before);
        assert(s[0] == before[0]);
    }
}

/// A string without a separator is one field.
pub proof fn one_field(s: Seq<char>, sep: char)
    requires
        forall|i: int| 0 <= i < s.len() ==> #[trigger] s[i] != sep,
    ensures
        fields(s, sep) == seq![s],
    decreases s.len(),
{
    if s.len() > 0 {
        let head = s.drop_last();
        assert forall|i: int| 0 <= i < head.len() implies #[trigger] head[i] != sep by {
            assert(head[i] == s[i]);
        }
        one_field(head, sep);
        assert(s.last() != sep) by {
            assert(s[s.len() - 1] != sep);
        }
        assert(head.push(s.last()) =~= s);
        assert(fields(s, sep) =~= seq![s]);
    }
}

/// A separator and a part without one add that part as a field.
pub proof fn another_field(s: Seq<char>, sep: char, part: Seq<char>)
    requires
        forall|i: int| 0 <= i < part.len() ==> #[trigger] part[i] != sep,
    ensures
        fields(s + seq![sep] + part, sep) == fields(s, sep).push(part),
    decreases part.len(),
{
    let whole = s + seq![sep] + part;
    if part.len() == 0 {
        assert(whole.drop_last() =~= s);
        assert(part =~= Seq::<char>::empty());
    } else {
        let head = part.drop_last();
        assert forall|i: int| 0 <= i < head.len() implies #[trigger] head[i] != sep by {
            assert(head[i] == part[i]);
        }
        another_field(s, sep, head);
        assert(whole.drop_last() =~= s + seq![sep] + head);
        assert(whole.last() == part.last());
        assert(part.last() != sep) by {
            assert(part[part.len() - 1] != sep);
        }
        assert(head.push(part.last()) =~= part);
        assert(fields(whole, sep) =~= fields(s, sep).push(part));
    }
}

/// The parts of a text that is cut are what stands before and after its first separator:
/// put together with it they are the text, and the first holds none. A text that is not
/// cut holds none at all.
pub proof fn a_cut_is_at_the_first_separator(s: Seq<char>, sep: char)
    ensures
        match cut(s, sep) {
            Some((before, after)) => s == before + seq![sep] + after && !before.contains(sep),
            None => !s.contains(sep),
        },
    decreases s.len(),
{
    if s.len() > 0 {
        let tail = s.skip(1);
        assert(s =~= seq![s[0]] + tail);
        if s[0] == sep {
            assert(s =~= Seq::<char>::empty() + seq![sep] + tail);
        } else {
            a_cut_is_at_the_first_separator(tail, sep);
            match cut(tail, sep) {
                Some((before, after)) => {
                    let head = seq![s[0]] + before;
                    assert(s =~= head + seq![sep] + after);
                    assert forall|i: int| 0 <= i < head.len() implies #[trigger] head[i] != sep by {
                        if i > 0 {
                            assert(head[i] == before[i - 1]);
                            assert(before.contains(before[i - 1]));
                        }
                    }
                },
                None => {
                    assert forall|i: int| 0 <= i < s.len() implies #[trigger] s[i] != sep by {
                        if i > 0 {
                            assert(s[i] == tail[i - 1]);
                            assert(tail.contains(tail[i - 1]));
                        }
                    }
                },
            }
        }
    }
}

/// No field holds a separator, and there is one more field than separators: each that is
/// added to a text adds one field, and nothing else does.
pub proof fn a_separator_adds_a_field(s: Seq<char>, sep: char, c: char)
    ensures
        fields(s.push(c), sep).len() == fields(s, sep).len() + (if c == sep {
            1int
        } else {
            0
        }),
        forall|i: int| 0 <= i < fields(s, sep).len() ==> !(#[trigger] fields(s, sep)[i]).contains(
            sep,
        ),
    decreases s.len(),
{
    fields_nonempty(s, sep);
    assert(s.push(c).drop_last() =~= s);
    if s.len() > 0 {
        let head = s.drop_last();
        a_separator_adds_a_field(head, sep, c);
        fields_nonempty(head, sep);
        let before = fields(head, sep);
        assert forall|i: int| 0 <= i < fields(s, sep).len() implies !(#[trigger] fields(
            s,
            sep,
        )[i]).contains(sep) by {
            let f = fields(s, sep)[i];
            if s.last() != sep && i == before.len() - 1 {
                let last = before[before.len() - 1];
                assert(!last.contains(sep));
                assert(f == last.push(s.last()));
                assert forall|k: int| 0 <= k < f.len() implies #[trigger] f[k] != sep by {
                    if k < last.len() {
                        assert(last.contains(last[k]));
                    }
                }
            } else if i < before.len() {
                assert(f == before[i]);
            }
        }
    }
}

} // verus!
