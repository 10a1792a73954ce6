//! Character-level helpers for the line-oriented manifest scan.
//!
//! Text is modelled as a sequence of characters. The executable functions
//! work on a vector of characters and on index ranges into it, so that a
//! scan never copies a piece of text; each says which piece of the model
//! its indices denote.

use vstd::prelude::*;

verus! {

/// The classes of characters that are stripped from the ends of a value.
#[derive(Clone, Copy, Debug, PartialEq, Eq, Structural)]
pub enum CharClass {
    /// The characters with the Unicode property `White_Space`.
    Whitespace,
    /// The double quote.
    Quote,
}

/// Whether `c` has the Unicode property `White_Space`.
pub open spec fn is_whitespace(c: char) -> bool {
    let code = c as u32;
    ||| 0x09 <= code <= 0x0D
    ||| code == 0x20
    ||| code == 0x85
    ||| code == 0xA0
    ||| code == 0x1680
    ||| 0x2000 <= code <= 0x200A
    ||| code == 0x2028
    ||| code == 0x2029
    ||| code == 0x202F
    ||| code == 0x205F
    ||| code == 0x3000
}

/// Whether `c` belongs to `class`.
pub open spec fn in_class(class: CharClass, c: char) -> bool {
    match class {
        CharClass::Whitespace => is_whitespace(c),
        CharClass::Quote => c == '"',
    }
}

/// `s` without its longest prefix of characters of `class`.
pub open spec fn strip_start(s: Seq<char>, class: CharClass) -> Seq<char>
    decreases s.len(),
{
    if s.len() > 0 && in_class(class, s[0]) {
        strip_start(s.drop_first(), class)
    } else {
        s
    }
}

/// `s` without its longest suffix of characters of `class`.
pub open spec fn strip_end(s: Seq<char>, class: CharClass) -> Seq<char>
    decreases s.len(),
{
    if s.len() > 0 && in_class(class, s.last()) {
        strip_end(s.drop_last(), class)
    } else {
        s
    }
}

/// `s` with the characters of `class` removed from both ends.
pub open spec fn strip(s: Seq<char>, class: CharClass) -> Seq<char> {
    strip_end(strip_start(s, class), class)
}

/// `s` without surrounding whitespace.
pub open spec fn trim(s: Seq<char>) -> Seq<char> {
    strip(s, CharClass::Whitespace)
}

/// The number of characters of `s` that come before the first `stop`;
/// the whole length where `stop` does not occur.
pub open spec fn span_before(s: Seq<char>, stop: char) -> nat
    decreases s.len(),
{
    if s.len() == 0 || s[0] == stop {
        0
    } else {
        1 + span_before(s.drop_first(), stop)
    }
}

/// What comes before the first `stop` in `s`; all of `s` where `stop` does
/// not occur.
pub open spec fn before_first(s: Seq<char>, stop: char) -> Seq<char> {
    s.take(span_before(s, stop) as int)
}

/// What follows the first `stop` in `s`; nothing where `stop` does not
/// occur.
pub open spec fn after_first(s: Seq<char>, stop: char) -> Seq<char> {
    if span_before(s, stop) < s.len() {
        s.skip(span_before(s, stop) as int + 1)
    } else {
        Seq::empty()
    }
}

/// Whether every character of `s` belongs to `class`.
pub open spec fn all_in_class(s: Seq<char>, class: CharClass) -> bool {
    forall|i: int| 0 <= i < s.len() ==> in_class(class, #[trigger] s[i])
}

/// Whether `stop` occurs nowhere in `s`.
pub open spec fn free_of(s: Seq<char>, stop: char) -> bool {
    forall|i: int| 0 <= i < s.len() ==> #[trigger] s[i] != stop
}

/// The span before `stop` ends inside `s`, holds no `stop`, and is followed
/// by one unless it reaches the end.
pub proof fn lemma_span_before(s: Seq<char>, stop: char)
    ensures
        span_before(s, stop) <= s.len(),
        forall|i: int| 0 <= i < span_before(s, stop) ==> s[i] != stop,
        span_before(s, stop) < s.len() ==> s[span_before(s, stop) as int] == stop,
    decreases s.len(),
{
    if s.len() == 0 || s[0] == stop {
    } else {
        let rest = s.drop_first();
        lemma_span_before(rest, stop);
        assert forall|i: int| 0 <= i < span_before(s, stop) implies s[i] != stop by {
            if i > 0 {
                assert(s[i] == rest[i - 1]);
            }
        }
        if span_before(s, stop) < s.len() {
            assert(s[span_before(s, stop) as int] == rest[span_before(rest, stop) as int]);
        }
    }
}

/// A position that holds the first `stop` of `s`, or is the end of an `s`
/// without one, is the span before `stop`.
pub proof fn lemma_span_before_is(s: Seq<char>, stop: char, n: int)
    requires
        0 <= n <= s.len(),
        forall|i: int| 0 <= i < n ==> s[i] != stop,
        n < s.len() ==> s[n] == stop,
    ensures
        span_before(s, stop) == n,
    decreases s.len(),
{
    if s.len() == 0 || s[0] == stop {
    } else {
        let rest = s.drop_first();
        assert forall|i: int| 0 <= i < n - 1 implies rest[i] != stop by {
            assert(rest[i] == s[i + 1]);
        }
        lemma_span_before_is(rest, stop, n - 1);
    }
}

/// Stripping the start leaves a suffix of `s` that does not begin with a
/// character of `class`, and removes only characters of `class`.
pub proof fn lemma_strip_start(s: Seq<char>, class: CharClass)
    ensures
        strip_start(s, class).len() <= s.len(),
        strip_start(s, class) == s.skip(s.len() - strip_start(s, class).len()),
        strip_start(s, class).len() > 0 ==> !in_class(class, strip_start(s, class)[0]),
        forall|i: int|
            0 <= i < s.len() - strip_start(s, class).len() ==> in_class(class, #[trigger] s[i]),
    decreases s.len(),
{
    if s.len() > 0 && in_class(class, s[0]) {
        let rest = s.drop_first();
        lemma_strip_start(rest, class);
        let kept = strip_start(rest, class);
        assert(rest.skip(rest.len() - kept.len()) =~= s.skip(s.len() - kept.len()));
        assert forall|i: int| 0 <= i < s.len() - kept.len() implies in_class(
            class,
            #[trigger] s[i],
        ) by {
            if i > 0 {
                assert(s[i] == rest[i - 1]);
            }
        }
    } else {
        assert(s.skip(0) =~= s);
    }
}

/// Stripping the end leaves a prefix of `s` that does not end with a
/// character of `class`, and removes only characters of `class`.
pub proof fn lemma_strip_end(s: Seq<char>, class: CharClass)
    ensures
        strip_end(s, class).len() <= s.len(),
        strip_end(s, class) == s.take(strip_end(s, class).len() as int),
        strip_end(s, class).len() > 0 ==> !in_class(class, strip_end(s, class).last()),
        forall|i: int|
            strip_end(s, class).len() <= i < s.len() ==> in_class(class, #[trigger] s[i]),
    decreases s.len(),
{
    if s.len() > 0 && in_class(class, s.last()) {
        let rest = s.drop_last();
        lemma_strip_end(rest, class);
        let kept = strip_end(rest, class);
        assert(rest.take(kept.len() as int) =~= s.take(kept.len() as int));
        assert forall|i: int| kept.len() <= i < s.len() implies in_class(
            class,
            #[trigger] s[i],
        ) by {
            if i < s.len() - 1 {
                assert(s[i] == rest[i]);
            }
        }
    } else {
        assert(s.take(s.len() as int) =~= s);
    }
}

/// Padding of characters of `class` in front of `rest` is stripped with
/// whatever `rest` itself loses.
pub proof fn lemma_strip_start_of_padded(pad: Seq<char>, rest: Seq<char>, class: CharClass)
    requires
        all_in_class(pad, class),
    ensures
        strip_start(pad + rest, class) == strip_start(rest, class),
    decreases pad.len(),
{
    if pad.len() == 0 {
        assert(pad + rest =~= rest);
    } else {
        let whole = pad + rest;
        assert(whole[0] == pad[0]);
        assert(whole.drop_first() =~= pad.drop_first() + rest);
        assert forall|i: int| 0 <= i < pad.drop_first().len() implies in_class(
            class,
            #[trigger] pad.drop_first()[i],
        ) by {
            assert(pad.drop_first()[i] == pad[i + 1]);
        }
        lemma_strip_start_of_padded(pad.drop_first(), rest, class);
    }
}

/// Padding of characters of `class` behind `rest` is stripped with
/// whatever `rest` itself loses.
pub proof fn lemma_strip_end_of_padded(rest: Seq<char>, pad: Seq<char>, class: CharClass)
    requires
        all_in_class(pad, class),
    ensures
        strip_end(rest + pad, class) == strip_end(rest, class),
    decreases pad.len(),
{
    if pad.len() == 0 {
        assert(rest + pad =~= rest);
    } else {
        let whole = rest + pad;
        assert(whole.last() == pad.last());
        assert(whole.drop_last() =~= rest + pad.drop_last());
        assert forall|i: int| 0 <= i < pad.drop_last().len() implies in_class(
            class,
            #[trigger] pad.drop_last()[i],
        ) by {
            assert(pad.drop_last()[i] == pad[i]);
        }
        lemma_strip_end_of_padded(rest, pad.drop_last(), class);
    }
}

/// Text that neither begins nor ends with a character of `class` is kept
/// whole, whatever padding of that class surrounds it.
pub proof fn lemma_strip_of_padded(
    lead: Seq<char>,
    core: Seq<char>,
    trail: Seq<char>,
    class: CharClass,
)
    requires
        all_in_class(lead, class),
        all_in_class(trail, class),
        core.len() > 0 ==> !in_class(class, core[0]) && !in_class(class, core.last()),
    ensures
        strip(lead + core + trail, class) == core,
{
    assert(lead + core + trail =~= lead + (core + trail));
    lemma_strip_start_of_padded(lead, core + trail, class);
    if core.len() > 0 {
        assert((core + trail)[0] == core[0]);
        assert(strip_start(core + trail, class) == core + trail);
        lemma_strip_end_of_padded(core, trail, class);
    } else {
        assert(core + trail =~= trail + core);
        lemma_strip_start_of_padded(trail, core, class);
    }
}

/// Where `stop` does not occur in `before`, the first `stop` of
/// `before`, `stop`, `after` is the one in the middle.
pub proof fn lemma_first_stop_of_joined(before: Seq<char>, stop: char, after: Seq<char>)
    requires
        free_of(before, stop),
    ensures
        span_before(before + seq![stop] + after, stop) == before.len(),
        before_first(before + seq![stop] + after, stop) == before,
        after_first(before + seq![stop] + after, stop) == after,
{
    let whole = before + seq![stop] + after;
    assert forall|i: int| 0 <= i < before.len() implies whole[i] != stop by {
        assert(whole[i] == before[i]);
    }
    assert(whole[before.len() as int] == stop);
    lemma_span_before_is(whole, stop, before.len() as int);
    assert(whole.take(before.len() as int) =~= before);
    assert(whole.skip(before.len() as int + 1) =~= after);
}

/// Where `stop` does not occur in `s` at all, everything comes before it
/// and nothing after.
pub proof fn lemma_no_stop(s: Seq<char>, stop: char)
    requires
        free_of(s, stop),
    ensures
        span_before(s, stop) == s.len(),
        before_first(s, stop) == s,
        after_first(s, stop) == Seq::<char>::empty(),
{
    lemma_span_before_is(s, stop, s.len() as int);
    assert(s.take(s.len() as int) =~= s);
}

/// The characters of `text`, in order.
pub fn chars_of(text: &str) -> (chars: Vec<char>)
    ensures
        chars@ == text@,
{
    let mut chars: Vec<char> = Vec::new();
    for c in it: text.chars()
        invariant
            chars@ == it.seq().take(it.index() as int),
    {
        chars.push(c);
    }
    chars
}

/// Tells whether `c` is whitespace.
pub fn is_whitespace_char(c: char) -> (yes: bool)
    ensures
        yes == is_whitespace(c),
{
    let code: u32 = c as u32;
    (0x09 <= code && code <= 0x0D) || code == 0x20 || code == 0x85 || code == 0xA0 || code
        == 0x1680 || (0x2000 <= code && code <= 0x200A) || code == 0x2028 || code == 0x2029 || code
        == 0x202F || code == 0x205F || code == 0x3000
}

/// Tells whether `c` belongs to `class`.
pub fn char_in_class(class: CharClass, c: char) -> (yes: bool)
    ensures
        yes == in_class(class, c),
{
    match class {
        CharClass::Whitespace => is_whitespace_char(c),
        CharClass::Quote => c == '"',
    }
}

/// Where the piece `from..to` of `chars` begins once the characters of
/// `class` are stripped from its start.
pub fn strip_start_in(chars: &Vec<char>, from: usize, to: usize, class: CharClass) -> (start: usize)
    requires
        from <= to <= chars.len(),
    ensures
        from <= start <= to,
        chars@.subrange(start as int, to as int) == strip_start(
            chars@.subrange(from as int, to as int),
            class,
        ),
{
    let mut start: usize = from;
    while start < to && char_in_class(class, chars[start])
        invariant
            from <= start <= to <= chars.len(),
            strip_start(chars@.subrange(start as int, to as int), class) == strip_start(
                chars@.subrange(from as int, to as int),
                class,
            ),
        decreases to - start,
    {
        assert(chars@.subrange(start as int, to as int).drop_first() =~= chars@.subrange(
            start + 1,
            to as int,
        ));
        start = start + 1;
    }
    start
}

/// Where the piece `from..to` of `chars` ends once the characters of
/// `class` are stripped from its end.
pub fn strip_end_in(chars: &Vec<char>, from: usize, to: usize, class: CharClass) -> (end: usize)
    requires
        from <= to <= chars.len(),
    ensures
        from <= end <= to,
        chars@.subrange(from as int, end as int) == strip_end(
            chars@.subrange(from as int, to as int),
            class,
        ),
{
    let mut end: usize = to;
    while from < end && char_in_class(class, chars[end - 1])
        invariant
            from <= end <= to <= chars.len(),
            strip_end(chars@.subrange(from as int, end as int), class) == strip_end(
                chars@.subrange(from as int, to as int),
                class,
            ),
        decreases end - from,
    {
        assert(chars@.subrange(from as int, end as int).drop_last() =~= chars@.subrange(
            from as int,
            end - 1,
        ));
        end = end - 1;
    }
    end
}

/// The bounds of the piece `from..to` of `chars` once the characters of
/// `class` are stripped from both ends.
pub fn strip_in(chars: &Vec<char>, from: usize, to: usize, class: CharClass) -> (bounds: (
    usize,
    usize,
))
    requires
        from <= to <= chars.len(),
    ensures
        from <= bounds.0 <= bounds.1 <= to,
        chars@.subrange(bounds.0 as int, bounds.1 as int) == strip(
            chars@.subrange(from as int, to as int),
            class,
        ),
{
    let start = strip_start_in(chars, from, to, class);
    let end = strip_end_in(chars, start, to, class);
    (start, end)
}

/// Where the first `stop` at or after `from` stands in the piece `from..to`
/// of `chars`; `to` where the piece holds none.
pub fn find_in(chars: &Vec<char>, from: usize, to: usize, stop: char) -> (at: usize)
    requires
        from <= to <= chars.len(),
    ensures
        from <= at <= to,
        at - from == span_before(chars@.subrange(from as int, to as int), stop),
{
    let mut at: usize = from;
    while at < to && chars[at] != stop
        invariant
            from <= at <= to <= chars.len(),
            forall|i: int| from <= i < at ==> chars@[i] != stop,
        decreases to - at,
    {
        at = at + 1;
    }
    proof {
        let piece = chars@.subrange(from as int, to as int);
        lemma_span_before_is(piece, stop, at - from);
    }
    at
}

} // verus!
