//! The executable locator: from the text of the project manifest to the
//! path of the build output.
//!
//! The manifest is read loosely, line by line, with no knowledge of its
//! sections: the first line that declares a name decides. A declaration is
//! a line that, once trimmed, begins with `name`, followed by optional
//! whitespace and `=`. Its value is what stands between that `=` and the
//! next one (or the end of the line), trimmed of whitespace and then of
//! double quotes. A manifest whose first declaration sits under an
//! unexpected table is therefore read wrongly; that is the price of the
//! loose scan.

use crate::text::{
    after_first, all_in_class, before_first, chars_of, find_in, free_of, in_class,
    lemma_first_stop_of_joined, lemma_no_stop, lemma_span_before, lemma_strip_end,
    lemma_strip_of_padded, lemma_strip_start, lemma_strip_start_of_padded, span_before, strip,
    strip_in, strip_start, strip_start_in, trim, CharClass,
};
use vstd::prelude::*;
use vstd::string::*;

verus! {

/// The directory under which the build tool places its output.
pub const BUILD_ROOT: &'static str = "target";

/// The directory of the debug profile under the build root.
pub const DEBUG_PROFILE: &'static str = "debug";

/// What an executable's file name ends with on Windows.
pub const WINDOWS_SUFFIX: &'static str = ".exe";

/// The number of characters of the key that a declaration begins with.
pub const KEY_LENGTH: usize = 4;

/// The line feed, which ends a line.
pub const LINE_FEED: char = '\n';

/// The sign that separates a key from its value.
pub const EQUALS_SIGN: char = '=';

/// The family of platforms that the executable is built for.
#[derive(Clone, Copy, Debug, PartialEq, Eq, Structural)]
pub enum Platform {
    /// Paths are joined with `/`; executables carry no suffix.
    Unix,
    /// Paths are joined with `\`; executables end in `.exe`.
    Windows,
}

/// Why no executable could be located.
#[derive(Clone, Copy, Debug, PartialEq, Eq, Structural)]
pub enum LocateError {
    /// The manifest could not be read.
    NotFound,
    /// The manifest declares no package name, or an empty one.
    Malformed,
}

/// The key that a declaration of the package name begins with.
pub open spec fn declaration_key() -> Seq<char> {
    seq!['n', 'a', 'm', 'e']
}

/// Whether `s` begins with the key.
pub open spec fn begins_with_key(s: Seq<char>) -> bool {
    s.len() >= KEY_LENGTH && s.take(KEY_LENGTH as int) == declaration_key()
}

/// The first line of `text`: what comes before its first line feed.
pub open spec fn first_line(text: Seq<char>) -> Seq<char> {
    before_first(text, LINE_FEED)
}

/// What follows the first line of `text` and the line feed that ends it.
pub open spec fn after_first_line(text: Seq<char>) -> Seq<char> {
    after_first(text, LINE_FEED)
}

/// Whether `line` declares the package name: trimmed, it begins with the
/// key, and the first thing after the key that is not whitespace is `=`.
pub open spec fn is_declaration(line: Seq<char>) -> bool {
    let trimmed = trim(line);
    &&& begins_with_key(trimmed)
    &&& {
        let after_key = strip_start(trimmed.skip(KEY_LENGTH as int), CharClass::Whitespace);
        after_key.len() > 0 && after_key[0] == EQUALS_SIGN
    }
}

/// The value that `line` gives: the field between the first `=` and the
/// next, without surrounding whitespace and then without surrounding
/// double quotes.
pub open spec fn declared_value(line: Seq<char>) -> Seq<char> {
    let field = before_first(after_first(line, EQUALS_SIGN), EQUALS_SIGN);
    strip(trim(field), CharClass::Quote)
}

/// The first line of `text` that declares the package name, if any does.
pub open spec fn declaration_line(text: Seq<char>) -> Option<Seq<char>>
    decreases text.len(),
{
    if text.len() == 0 {
        None
    } else if is_declaration(first_line(text)) {
        Some(first_line(text))
    } else {
        proof {
            lemma_span_before(text, LINE_FEED);
        }
        declaration_line(after_first_line(text))
    }
}

/// The package name that `text` declares: the value of its first
/// declaration, unless there is none or the value is empty.
pub open spec fn declared_package_name(text: Seq<char>) -> Option<Seq<char>> {
    match declaration_line(text) {
        None => None,
        Some(line) => if declared_value(line).len() == 0 {
            None
        } else {
            Some(declared_value(line))
        },
    }
}

/// What joins the parts of a path on `platform`.
pub open spec fn separator(platform: Platform) -> Seq<char> {
    match platform {
        Platform::Unix => "/"@,
        Platform::Windows => "\\"@,
    }
}

/// What the file name of an executable ends with on `platform`.
pub open spec fn executable_suffix(platform: Platform) -> Seq<char> {
    match platform {
        Platform::Unix => Seq::empty(),
        Platform::Windows => WINDOWS_SUFFIX@,
    }
}

/// The path of the executable of the package `name` on `platform`: the
/// build root, the debug profile and the name, joined by the separator,
/// and then the suffix.
pub open spec fn path_of(name: Seq<char>, platform: Platform) -> Seq<char> {
    BUILD_ROOT@ + separator(platform) + DEBUG_PROFILE@ + separator(platform) + name
        + executable_suffix(platform)
}

/// The outcome of locating the executable from what reading the manifest
/// gave: its text, or nothing where it could not be read.
pub open spec fn located(manifest: Option<Seq<char>>, platform: Platform) -> Result<
    Seq<char>,
    LocateError,
> {
    match manifest {
        None => Err(LocateError::NotFound),
        Some(text) => match declared_package_name(text) {
            None => Err(LocateError::Malformed),
            Some(name) => Ok(path_of(name, platform)),
        },
    }
}

/// The text that was read, as a sequence of characters.
pub open spec fn text_of(manifest: Option<&str>) -> Option<Seq<char>> {
    match manifest {
        None => None,
        Some(text) => Some(text@),
    }
}

/// Tells whether the piece `from..to` of `chars` begins with the key.
pub fn begins_with_key_in(chars: &Vec<char>, from: usize, to: usize) -> (yes: bool)
    requires
        from <= to <= chars.len(),
    ensures
        yes == begins_with_key(chars@.subrange(from as int, to as int)),
{
    if to - from < KEY_LENGTH {
        return false;
    }
    let ghost head = chars@.subrange(from as int, to as int).take(KEY_LENGTH as int);
    let yes = chars[from] == 'n' && chars[from + 1] == 'a' && chars[from + 2] == 'm' && chars[from
        + 3] == 'e';
    proof {
        assert(head[0] == chars@[from as int]);
        assert(head[1] == chars@[from + 1]);
        assert(head[2] == chars@[from + 2]);
        assert(head[3] == chars@[from + 3]);
        if yes {
            assert(head =~= declaration_key());
        }
    }
    yes
}

/// Tells whether the piece `from..to` of `chars` declares the package name.
pub fn is_declaration_in(chars: &Vec<char>, from: usize, to: usize) -> (yes: bool)
    requires
        from <= to <= chars.len(),
    ensures
        yes == is_declaration(chars@.subrange(from as int, to as int)),
{
    let (start, end) = strip_in(chars, from, to, CharClass::Whitespace);
    if !begins_with_key_in(chars, start, end) {
        return false;
    }
    let ghost trimmed = chars@.subrange(start as int, end as int);
    assert(trimmed.skip(KEY_LENGTH as int) =~= chars@.subrange(start + KEY_LENGTH, end as int));
    let sign = strip_start_in(chars, start + KEY_LENGTH, end, CharClass::Whitespace);
    sign < end && chars[sign] == EQUALS_SIGN
}

/// The bounds in `chars` of the value that the piece `from..to` gives when
/// it is read as a declaration.
pub fn declared_value_in(chars: &Vec<char>, from: usize, to: usize) -> (bounds: (usize, usize))
    requires
        from <= to <= chars.len(),
    ensures
        from <= bounds.0 <= bounds.1 <= to,
        chars@.subrange(bounds.0 as int, bounds.1 as int) == declared_value(
            chars@.subrange(from as int, to as int),
        ),
{
    let ghost line = chars@.subrange(from as int, to as int);
    let sign = find_in(chars, from, to, EQUALS_SIGN);
    let after_sign = if sign < to {
        sign + 1
    } else {
        to
    };
    assert(after_first(line, EQUALS_SIGN) =~= chars@.subrange(after_sign as int, to as int));
    let next = find_in(chars, after_sign, to, EQUALS_SIGN);
    assert(before_first(after_first(line, EQUALS_SIGN), EQUALS_SIGN) =~= chars@.subrange(
        after_sign as int,
        next as int,
    ));
    let (start, end) = strip_in(chars, after_sign, next, CharClass::Whitespace);
    strip_in(chars, start, end, CharClass::Quote)
}

/// The bounds in `chars` of its first line that declares the package name.
pub fn declaration_line_in(chars: &Vec<char>) -> (bounds: Option<(usize, usize)>)
    ensures
        match bounds {
            None => declaration_line(chars@) is None,
            Some((from, to)) => {
                &&& from <= to <= chars.len()
                &&& is_declaration(chars@.subrange(from as int, to as int))
                &&& declaration_line(chars@) == Some(chars@.subrange(from as int, to as int))
            },
        },
{
    let len = chars.len();
    let mut from: usize = 0;
    assert(chars@.skip(0) =~= chars@);
    while from < len
        invariant
            from <= len == chars.len(),
            declaration_line(chars@) == declaration_line(chars@.skip(from as int)),
        decreases len - from,
    {
        let ghost rest = chars@.skip(from as int);
        assert(rest =~= chars@.subrange(from as int, len as int));
        let to = find_in(chars, from, len, LINE_FEED);
        assert(first_line(rest) =~= chars@.subrange(from as int, to as int));
        if is_declaration_in(chars, from, to) {
            return Some((from, to));
        }
        if to < len {
            assert(after_first_line(rest) =~= chars@.skip(to + 1));
            from = to + 1;
        } else {
            assert(after_first_line(rest) =~= chars@.skip(len as int));
            from = len;
        }
    }
    assert(chars@.skip(len as int).len() == 0);
    None
}

/// Reads the package name that the manifest text declares.
///
/// Gives the value of the first declaration, and nothing where the text
/// holds no declaration or the first one has an empty value.
pub fn package_name(manifest: &str) -> (name: Option<String>)
    ensures
        match name {
            Some(found) => declared_package_name(manifest@) == Some(found@),
            None => declared_package_name(manifest@) is None,
        },
{
    let chars = chars_of(manifest);
    match declaration_line_in(&chars) {
        None => None,
        Some((from, to)) => {
            let (start, end) = declared_value_in(&chars, from, to);
            if start == end {
                None
            } else {
                Some(manifest.substring_char(start, end).to_owned())
            }
        },
    }
}

/// The separator of `platform`, as text.
pub fn separator_of(platform: Platform) -> (text: &'static str)
    ensures
        text@ == separator(platform),
{
    match platform {
        Platform::Unix => "/",
        Platform::Windows => "\\",
    }
}

/// Composes the path of the executable of the package `name`.
pub fn executable_path(name: &str, platform: Platform) -> (path: String)
    ensures
        path@ == path_of(name@, platform),
{
    let mut path = String::from_str(BUILD_ROOT);
    path.append(separator_of(platform));
    path.append(DEBUG_PROFILE);
    path.append(separator_of(platform));
    path.append(name);
    match platform {
        Platform::Unix => {
            assert(path@ + Seq::<char>::empty() =~= path@);
        },
        Platform::Windows => {
            path.append(WINDOWS_SUFFIX);
        },
    }
    path
}

/// Locates the executable to run from what reading the manifest gave: the
/// text of the manifest, or nothing where it could not be read.
///
/// Fails with `NotFound` exactly when there is no text, and with
/// `Malformed` exactly when the text declares no package name or an empty
/// one. Otherwise gives the path of the package's executable on `platform`.
pub fn locate(manifest: Option<&str>, platform: Platform) -> (outcome: Result<String, LocateError>)
    ensures
        match outcome {
            Ok(path) => located(text_of(manifest), platform) == Ok::<Seq<char>, LocateError>(
                path@,
            ),
            Err(error) => located(text_of(manifest), platform) == Err::<Seq<char>, LocateError>(
                error,
            ),
        },
{
    match manifest {
        None => Err(LocateError::NotFound),
        Some(text) => match package_name(text) {
            None => Err(LocateError::Malformed),
            Some(name) => Ok(executable_path(name.as_str(), platform)),
        },
    }
}

/// How a declaration is laid out around the name it gives: the whitespace
/// before the key, between key and `=`, after `=` and at the end of the
/// line, and the double quotes on either side of the name.
pub struct Layout {
    pub indent: Seq<char>,
    pub before_sign: Seq<char>,
    pub after_sign: Seq<char>,
    pub opening: Seq<char>,
    pub closing: Seq<char>,
    pub trailing: Seq<char>,
}

/// Whether `layout` holds whitespace where whitespace belongs and double
/// quotes where quotes belong.
pub open spec fn is_layout(layout: Layout) -> bool {
    &&& all_in_class(layout.indent, CharClass::Whitespace)
    &&& all_in_class(layout.before_sign, CharClass::Whitespace)
    &&& all_in_class(layout.after_sign, CharClass::Whitespace)
    &&& all_in_class(layout.trailing, CharClass::Whitespace)
    &&& all_in_class(layout.opening, CharClass::Quote)
    &&& all_in_class(layout.closing, CharClass::Quote)
}

/// Whether `name` can be given by a declaration and read back unchanged:
/// it is not empty, holds no `=`, and neither begins nor ends with
/// whitespace or a double quote.
pub open spec fn is_plain_name(name: Seq<char>) -> bool {
    &&& name.len() > 0
    &&& free_of(name, EQUALS_SIGN)
    &&& !in_class(CharClass::Whitespace, name[0])
    &&& !in_class(CharClass::Whitespace, name.last())
    &&& !in_class(CharClass::Quote, name[0])
    &&& !in_class(CharClass::Quote, name.last())
}

/// The line that declares `name` in the given layout.
pub open spec fn declaration_of(name: Seq<char>, layout: Layout) -> Seq<char> {
    layout.indent + declaration_key() + layout.before_sign + seq![EQUALS_SIGN] + layout.after_sign
        + layout.opening + name + layout.closing + layout.trailing
}

/// A line that declares a plain name is a declaration and gives that very
/// name, however it is indented, spaced or quoted: `name = "foo"` gives
/// `foo`, and so do `name="foo"` and `name = foo`.
pub proof fn lemma_declaration_is_read(name: Seq<char>, layout: Layout)
    requires
        is_plain_name(name),
        is_layout(layout),
    ensures
        is_declaration(declaration_of(name, layout)),
        declared_value(declaration_of(name, layout)) == name,
{
    let blank = CharClass::Whitespace;
    let quote = CharClass::Quote;
    let key = declaration_key();
    let sign = seq![EQUALS_SIGN];
    let line = declaration_of(name, layout);
    let quoted = layout.opening + name + layout.closing;

    // The quoted name begins and ends with something that is not whitespace.
    assert(!in_class(blank, quoted[0])) by {
        if layout.opening.len() > 0 {
            assert(quoted[0] == layout.opening[0]);
        } else {
            assert(quoted[0] == name[0]);
        }
    }
    assert(!in_class(blank, quoted.last())) by {
        if layout.closing.len() > 0 {
            assert(quoted.last() == layout.closing.last());
        } else {
            assert(quoted.last() == name.last());
        }
    }

    // The line without its surrounding whitespace.
    let core = key + layout.before_sign + sign + layout.after_sign + quoted;
    assert(line =~= layout.indent + core + layout.trailing);
    assert(core[0] == 'n');
    assert(core.last() == quoted.last());
    lemma_strip_of_padded(layout.indent, core, layout.trailing, blank);
    assert(trim(line) == core);

    // After the key and the whitespace that follows it stands the sign.
    let from_sign = sign + layout.after_sign + quoted;
    assert(core.take(KEY_LENGTH as int) =~= key);
    assert(core.skip(KEY_LENGTH as int) =~= layout.before_sign + from_sign);
    lemma_strip_start_of_padded(layout.before_sign, from_sign, blank);
    assert(from_sign[0] == EQUALS_SIGN);
    assert(strip_start(from_sign, blank) == from_sign);

    // The first sign of the line is that one, and no other follows it.
    let front = layout.indent + key + layout.before_sign;
    let back = layout.after_sign + quoted + layout.trailing;
    assert(line =~= front + sign + back);
    assert(free_of(front, EQUALS_SIGN)) by {
        assert forall|i: int| 0 <= i < front.len() implies #[trigger] front[i] != EQUALS_SIGN by {
            if i < layout.indent.len() {
                assert(front[i] == layout.indent[i]);
            } else if i < layout.indent.len() + key.len() {
                assert(front[i] == key[i - layout.indent.len()]);
            } else {
                assert(front[i] == layout.before_sign[i - layout.indent.len() - key.len()]);
            }
        }
    }
    assert(free_of(back, EQUALS_SIGN)) by {
        assert forall|i: int| 0 <= i < back.len() implies #[trigger] back[i] != EQUALS_SIGN by {
            let a = layout.after_sign.len() as int;
            let o = layout.opening.len() as int;
            let n = name.len() as int;
            let c = layout.closing.len() as int;
            if i < a {
                assert(back[i] == layout.after_sign[i]);
            } else if i < a + o {
                assert(back[i] == layout.opening[i - a]);
            } else if i < a + o + n {
                assert(back[i] == name[i - a - o]);
            } else if i < a + o + n + c {
                assert(back[i] == layout.closing[i - a - o - n]);
            } else {
                assert(back[i] == layout.trailing[i - a - o - n - c]);
            }
        }
    }
    lemma_first_stop_of_joined(front, EQUALS_SIGN, back);
    lemma_no_stop(back, EQUALS_SIGN);

    // Whitespace goes first, then the quotes.
    assert(back =~= layout.after_sign + quoted + layout.trailing);
    lemma_strip_of_padded(layout.after_sign, quoted, layout.trailing, blank);
    lemma_strip_of_padded(layout.opening, name, layout.closing, quote);
}

/// Whether `text` is made of whole lines: it is empty or ends with a line
/// feed.
pub open spec fn ends_lines(text: Seq<char>) -> bool {
    text.len() > 0 ==> text.last() == LINE_FEED
}

/// Text is its first line, a line feed and the rest, where it holds a line
/// feed at all.
pub proof fn lemma_split_at_first_line(text: Seq<char>)
    requires
        span_before(text, LINE_FEED) < text.len(),
    ensures
        text == first_line(text) + seq![LINE_FEED] + after_first_line(text),
        free_of(first_line(text), LINE_FEED),
        after_first_line(text).len() < text.len(),
        ends_lines(text) ==> ends_lines(after_first_line(text)),
{
    lemma_span_before(text, LINE_FEED);
    let rest = after_first_line(text);
    assert(text =~= first_line(text) + seq![LINE_FEED] + rest);
    if rest.len() > 0 {
        assert(rest.last() == text.last());
    }
}

/// The first declaration decides: below whole lines of which none is a
/// declaration, a declaration is the one that is found, whatever follows
/// it.
pub proof fn lemma_first_declaration_decides(above: Seq<char>, line: Seq<char>, below: Seq<char>)
    requires
        ends_lines(above),
        declaration_line(above) is None,
        is_declaration(line),
        free_of(line, LINE_FEED),
    ensures
        declaration_line(above + line) == Some(line),
        declaration_line(above + line + seq![LINE_FEED] + below) == Some(line),
    decreases above.len(),
{
    let feed = seq![LINE_FEED];
    assert(line.len() > 0) by {
        lemma_strip_start(line, CharClass::Whitespace);
        lemma_strip_end(strip_start(line, CharClass::Whitespace), CharClass::Whitespace);
    }
    if above.len() == 0 {
        assert(above + line =~= line);
        assert(above + line + feed + below =~= line + feed + below);
        lemma_no_stop(line, LINE_FEED);
        lemma_first_stop_of_joined(line, LINE_FEED, below);
    } else {
        assert(span_before(above, LINE_FEED) < above.len()) by {
            lemma_span_before(above, LINE_FEED);
        }
        lemma_split_at_first_line(above);
        let first = first_line(above);
        let rest = after_first_line(above);
        lemma_first_declaration_decides(rest, line, below);
        lemma_first_stop_of_joined(first, LINE_FEED, rest + line);
        lemma_first_stop_of_joined(first, LINE_FEED, rest + line + feed + below);
        assert(above + line =~= first + feed + (rest + line));
        assert(above + line + feed + below =~= first + feed + (rest + line + feed + below));
    }
}

/// A manifest whose first declaration declares a plain name locates the
/// executable of that name: the lines above it, the layout of the
/// declaration and everything below it make no difference.
pub proof fn lemma_locates_declared_name(
    above: Seq<char>,
    name: Seq<char>,
    layout: Layout,
    below: Seq<char>,
    platform: Platform,
)
    requires
        ends_lines(above),
        declaration_line(above) is None,
        is_plain_name(name),
        is_layout(layout),
        free_of(declaration_of(name, layout), LINE_FEED),
    ensures
        located(Some(above + declaration_of(name, layout)), platform) == Ok::<
            Seq<char>,
            LocateError,
        >(path_of(name, platform)),
        located(
            Some(above + declaration_of(name, layout) + seq![LINE_FEED] + below),
            platform,
        ) == Ok::<Seq<char>, LocateError>(path_of(name, platform)),
{
    lemma_declaration_is_read(name, layout);
    lemma_first_declaration_decides(above, declaration_of(name, layout), below);
}

/// A manifest of which no line is a declaration is malformed.
pub proof fn lemma_no_declaration_is_malformed(text: Seq<char>, platform: Platform)
    requires
        declaration_line(text) is None,
    ensures
        located(Some(text), platform) == Err::<Seq<char>, LocateError>(LocateError::Malformed),
{
}

/// The path is spelled `target/debug/<name>` on Unix and
/// `target\debug\<name>.exe` on Windows.
pub proof fn lemma_path_spelling(name: Seq<char>, platform: Platform)
    ensures
        platform is Unix ==> path_of(name, platform) == "target/debug/"@ + name,
        platform is Windows ==> path_of(name, platform) == "target\\debug\\"@ + name + ".exe"@,
{
    reveal_strlit("target");
    reveal_strlit("debug");
    reveal_strlit(".exe");
    reveal_strlit("/");
    reveal_strlit("\\");
    reveal_strlit("target/debug/");
    reveal_strlit("target\\debug\\");
    match platform {
        Platform::Unix => {
            assert(path_of(name, platform) =~= "target/debug/"@ + name);
        },
        Platform::Windows => {
            assert(path_of(name, platform) =~= "target\\debug\\"@ + name + ".exe"@);
        },
    }
}

/// The path ends with the package name and then the platform's suffix.
pub proof fn lemma_path_ends_with_name(name: Seq<char>, platform: Platform)
    ensures
        path_of(name, platform).len() >= name.len() + executable_suffix(platform).len(),
        path_of(name, platform).skip(
            path_of(name, platform).len() - name.len() - executable_suffix(platform).len(),
        ) == name + executable_suffix(platform),
{
    let path = path_of(name, platform);
    let tail = name + executable_suffix(platform);
    assert(path.skip(path.len() - tail.len()) =~= tail);
}

/// Locating reads nothing but the manifest text and the platform: two
/// lookups on the same unchanged manifest give the same outcome.
pub proof fn lemma_locate_is_repeatable(
    manifest: Option<Seq<char>>,
    platform: Platform,
    first: Result<Seq<char>, LocateError>,
    second: Result<Seq<char>, LocateError>,
)
    requires
        first == located(manifest, platform),
        second == located(manifest, platform),
    ensures
        first == second,
{
}

/// Which failure comes when: `NotFound` exactly for a manifest that could
/// not be read, `Malformed` exactly for a text that declares no package
/// name or an empty one.
pub proof fn lemma_locate_failures(manifest: Option<Seq<char>>, platform: Platform)
    ensures
        located(manifest, platform) == Err::<Seq<char>, LocateError>(LocateError::NotFound)
            <==> manifest is None,
        located(manifest, platform) == Err::<Seq<char>, LocateError>(LocateError::Malformed)
            <==> (manifest matches Some(text) && declared_package_name(text) is None),
        manifest matches Some(text) ==> (declared_package_name(text) is None <==> (
            declaration_line(text) matches Some(line) ==> declared_value(line).len() == 0)),
{
}

} // verus!
