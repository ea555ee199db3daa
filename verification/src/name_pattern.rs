//! Case-insensitive literal matching of names, through the `regex` crate.

use vstd::prelude::*;

verus! {

#[verifier::external_type_specification]
#[verifier::external_body]
pub struct ExRegex(regex::Regex);

#[verifier::external_type_specification]
#[verifier::external_body]
pub struct ExRegexError(regex::Error);

/// Whether `c` has a meaning of its own in a regular expression and is
/// escaped by `regex::escape`.
pub open spec fn is_meta_character(c: char) -> bool {
    c == '\\' || c == '.' || c == '+' || c == '*' || c == '?' || c == '(' || c == ')'
        || c == '|' || c == '[' || c == ']' || c == '{' || c == '}' || c == '^' || c == '$'
        || c == '#' || c == '&' || c == '-' || c == '~'
}

/// The text with a backslash before each meta character: a pattern that
/// matches the text literally.
pub open spec fn escaped(text: Seq<char>) -> Seq<char>
    decreases text.len(),
{
    if text.len() == 0 {
        Seq::empty()
    } else if is_meta_character(text.last()) {
        escaped(text.drop_last()) + seq!['\\', text.last()]
    } else {
        escaped(text.drop_last()).push(text.last())
    }
}

/// Escaping works character by character: the escape of a concatenation is
/// the concatenation of the escapes, a meta character gets a backslash before
/// it, and any other character is kept as it is.
pub proof fn law_escaped(a: Seq<char>, b: Seq<char>, c: char)
    ensures
        escaped(a + b) == escaped(a) + escaped(b),
        is_meta_character(c) ==> escaped(seq![c]) == seq!['\\', c],
        !is_meta_character(c) ==> escaped(seq![c]) == seq![c],
    decreases b.len(),
{
    assert(seq![c].drop_last() =~= Seq::<char>::empty());
    assert(escaped(Seq::<char>::empty()) == Seq::<char>::empty());
    assert(seq![c].last() == c);
    if is_meta_character(c) {
        assert(escaped(seq![c]) =~= seq!['\\', c]);
    } else {
        assert(escaped(seq![c]) =~= seq![c]);
    }
    if b.len() == 0 {
        assert(a + b =~= a);
        assert(escaped(b) =~= Seq::<char>::empty());
        assert(escaped(a) + escaped(b) =~= escaped(a));
    } else {
        law_escaped(a, b.drop_last(), c);
        assert((a + b).drop_last() =~= a + b.drop_last());
        assert((a + b).last() == b.last());
        if is_meta_character(b.last()) {
            assert(escaped(a + b) =~= escaped(a) + escaped(b));
        } else {
            assert(escaped(a + b) =~= escaped(a) + escaped(b));
        }
    }
}

/// The meta characters are exactly the eighteen characters with a meaning of
/// their own in a regular expression.
pub proof fn law_meta_characters(c: char)
    ensures
        is_meta_character(c) == "\\.+*?()|[]{}^$#&-~"@.contains(c),
{
    reveal_strlit("\\.+*?()|[]{}^$#&-~");
    let set = "\\.+*?()|[]{}^$#&-~"@;
    if is_meta_character(c) {
        if c == '\\' { assert(set[0] == c); }
        else if c == '.' { assert(set[1] == c); }
        else if c == '+' { assert(set[2] == c); }
        else if c == '*' { assert(set[3] == c); }
        else if c == '?' { assert(set[4] == c); }
        else if c == '(' { assert(set[5] == c); }
        else if c == ')' { assert(set[6] == c); }
        else if c == '|' { assert(set[7] == c); }
        else if c == '[' { assert(set[8] == c); }
        else if c == ']' { assert(set[9] == c); }
        else if c == '{' { assert(set[10] == c); }
        else if c == '}' { assert(set[11] == c); }
        else if c == '^' { assert(set[12] == c); }
        else if c == '$' { assert(set[13] == c); }
        else if c == '#' { assert(set[14] == c); }
        else if c == '&' { assert(set[15] == c); }
        else if c == '-' { assert(set[16] == c); }
        else { assert(set[17] == c); }
    }
}

/// Text without meta characters is its own escape.
pub proof fn law_escaped_plain(text: Seq<char>)
    requires
        forall|i: int| 0 <= i < text.len() ==> !is_meta_character(#[trigger] text[i]),
    ensures
        escaped(text) == text,
    decreases text.len(),
{
    if text.len() > 0 {
        law_escaped_plain(text.drop_last());
        assert(text.drop_last().push(text.last()) =~= text);
        assert(!is_meta_character(text[text.len() - 1]));
    }
}

/// Whether `regex::Regex::new` accepts the pattern.
pub uninterp spec fn regex_compiles(pattern: Seq<char>) -> bool;

/// Whether the regular expression `pattern` matches somewhere in `haystack`.
pub uninterp spec fn regex_is_match(pattern: Seq<char>, haystack: Seq<char>) -> bool;

/// A regular expression together with the pattern it was compiled from.
/// Its only constructor is `compile_pattern`, so the two always agree.
pub(crate) struct CompiledPattern {
    pattern: String,
    regex: regex::Regex,
}

impl CompiledPattern {
    /// The pattern that the expression was compiled from.
    pub(crate) closed spec fn pattern(&self) -> Seq<char> {
        self.pattern@
    }
}

/// Calls `regex::escape`, which puts a backslash before each meta character
/// of the text (it loops over the characters and tests
/// `regex_syntax::is_meta_character`); the contract states that loop.
#[verifier::external_body]
pub(crate) fn escape_literal(text: &str) -> (res: String)
    ensures
        res@ == escaped(text@),
{
    regex::escape(text)
}

/// Calls `regex::Regex::new`. The contract claims that it succeeds exactly on
/// the patterns that `regex_compiles` names (it depends on the pattern alone)
/// and that the result keeps the pattern it was given.
#[verifier::external_body]
pub(crate) fn compile_pattern(pattern: String) -> (res: Result<CompiledPattern, regex::Error>)
    ensures
        res is Ok <==> regex_compiles(pattern@),
        res matches Ok(c) ==> c.pattern() == pattern@,
{
    match regex::Regex::new(&pattern) {
        Ok(regex) => Ok(CompiledPattern { pattern, regex }),
        Err(e) => Err(e),
    }
}

/// Calls `regex::Regex::is_match`. The contract claims that the answer is the
/// one that `regex_is_match` names for the pattern and the haystack.
#[verifier::external_body]
pub(crate) fn pattern_is_match(compiled: &CompiledPattern, haystack: &str) -> (res: bool)
    ensures
        res == regex_is_match(compiled.pattern(), haystack@),
{
    compiled.regex.is_match(haystack)
}

} // verus!
