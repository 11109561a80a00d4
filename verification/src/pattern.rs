//! Body-pattern compilation: a configured pattern is either a literal
//! substring, matched after escaping every regex metacharacter and wrapping
//! it unanchored, or, when it carries the raw marker `r"`, an unescaped
//! regular expression taken verbatim up to an optional trailing quote.

use vstd::prelude::*;

use crate::text::{starts_with, trim_spec, trim_str};

verus! {

/// Why a configured body pattern was rejected.
#[derive(Debug, Clone, Copy, PartialEq, Eq, Structural)]
pub enum PatternError {
    /// The pattern is empty once trimmed; a configuration error.
    EmptyPattern,
    /// The pattern does not compile as a regular expression.
    InvalidRegex,
}

/// The characters that carry significance in a regular expression and are
/// escaped when a literal pattern is compiled.
pub open spec fn is_meta_char(c: char) -> bool {
    c == '\\' || c == '.' || c == '+' || c == '*' || c == '?' || c == '(' || c == ')' || c == '|'
        || c == '[' || c == ']' || c == '{' || c == '}' || c == '^' || c == '$' || c == '#'
        || c == '&' || c == '-' || c == '~'
}

/// Exec test for [`is_meta_char`].
pub fn is_meta(c: char) -> (r: bool)
    ensures
        r == is_meta_char(c),
{
    c == '\\' || c == '.' || c == '+' || c == '*' || c == '?' || c == '(' || c == ')' || c == '|'
        || c == '[' || c == ']' || c == '{' || c == '}' || c == '^' || c == '$' || c == '#'
        || c == '&' || c == '-' || c == '~'
}

/// One character of an escaped literal: a metacharacter is preceded by a
/// backslash, any other character stands alone.
pub open spec fn escape_char(c: char) -> Seq<char> {
    if is_meta_char(c) {
        seq!['\\', c]
    } else {
        seq![c]
    }
}

/// A literal pattern with every regex metacharacter escaped.
pub open spec fn escape_spec(s: Seq<char>) -> Seq<char>
    decreases s.len(),
{
    if s.len() == 0 {
        Seq::empty()
    } else {
        escape_spec(s.drop_last()) + escape_char(s.last())
    }
}

/// Whether a trimmed pattern carries the raw marker `r"`.
pub open spec fn raw_marked(t: Seq<char>) -> bool {
    t.len() >= 2 && t[0] == 'r' && t[1] == '"'
}

/// The content of a raw-marked pattern: everything after the marker, less a
/// trailing quote when one is present; an unterminated raw pattern is
/// accepted as it stands.
pub open spec fn raw_content(t: Seq<char>) -> Seq<char> {
    let body = t.skip(2);
    if body.len() > 0 && body.last() == '"' {
        body.drop_last()
    } else {
        body
    }
}

/// The pattern text compiled from a configured body pattern: `None` when the
/// trimmed input is empty, the raw content for a raw-marked input, and the
/// escaped literal wrapped as an unanchored substring match otherwise.
pub open spec fn pattern_spec(input: Seq<char>) -> Option<Seq<char>> {
    let t = trim_spec(input);
    if t.len() == 0 {
        Option::None
    } else if raw_marked(t) {
        Option::Some(raw_content(t))
    } else {
        Option::Some(".*"@ + escape_spec(t) + ".*"@)
    }
}

/// Reads an escaped pattern back as the characters it denotes: a backslash
/// takes the character after it literally.
pub open spec fn unescape(p: Seq<char>) -> Seq<char>
    decreases p.len(),
{
    if p.len() == 0 {
        Seq::empty()
    } else if p[0] == '\\' && p.len() >= 2 {
        seq![p[1]] + unescape(p.skip(2))
    } else {
        seq![p[0]] + unescape(p.skip(1))
    }
}

proof fn lemma_escape_front(s: Seq<char>)
    requires
        s.len() > 0,
    ensures
        escape_spec(s) == escape_char(s[0]) + escape_spec(s.drop_first()),
    decreases s.len(),
{
    if s.len() == 1 {
        assert(s.drop_last() =~= Seq::<char>::empty());
        assert(s.drop_first() =~= Seq::<char>::empty());
        assert(escape_spec(s) =~= escape_char(s[0]) + escape_spec(s.drop_first()));
    } else {
        lemma_escape_front(s.drop_last());
        assert(s.drop_last()[0] == s[0]);
        assert(s.drop_last().drop_first() =~= s.drop_first().drop_last());
        assert(s.drop_first().last() == s.last());
        assert(escape_spec(s.drop_first()) == escape_spec(s.drop_first().drop_last())
            + escape_char(s.drop_first().last()));
        assert((escape_char(s[0]) + escape_spec(s.drop_first().drop_last())) + escape_char(s.last())
            =~= escape_char(s[0]) + (escape_spec(s.drop_first().drop_last()) + escape_char(
            s.last(),
        )));
    }
}

/// Escaping a literal loses nothing: reading the escaped form back, escape
/// for escape, yields exactly the literal.  In particular every
/// metacharacter of the literal ends up behind a backslash, taken
/// literally, never read as a regex operator.
pub proof fn lemma_escape_round_trip(s: Seq<char>)
    ensures
        unescape(escape_spec(s)) == s,
    decreases s.len(),
{
    if s.len() > 0 {
        lemma_escape_front(s);
        lemma_escape_round_trip(s.drop_first());
        let p = escape_spec(s);
        if is_meta_char(s[0]) {
            assert(p[0] == '\\' && p.len() >= 2 && p[1] == s[0]);
            assert(p.skip(2) =~= escape_spec(s.drop_first()));
            assert(seq![s[0]] + s.drop_first() =~= s);
        } else {
            assert(p[0] == s[0]);
            assert(p[0] != '\\');
            assert(p.skip(1) =~= escape_spec(s.drop_first()));
            assert(seq![s[0]] + s.drop_first() =~= s);
        }
    }
}

proof fn lemma_escape_take_step(s: Seq<char>, i: int)
    requires
        0 <= i < s.len(),
    ensures
        escape_spec(s.take(i + 1)) == escape_spec(s.take(i)) + escape_char(s[i]),
{
    assert(s.take(i + 1).drop_last() =~= s.take(i));
    assert(s.take(i + 1).last() == s[i]);
}

/// Escapes every regex metacharacter of a literal pattern.
fn escape_literal(s: &str) -> (r: String)
    ensures
        r@ == escape_spec(s@),
{
    let n = s.unicode_len();
    let mut out = String::new();
    proof {
        assert(s@.take(0) =~= Seq::<char>::empty());
    }
    let mut i: usize = 0;
    while i < n
        invariant
            0 <= i <= n,
            n == s@.len(),
            out@ == escape_spec(s@.take(i as int)),
        decreases n - i,
    {
        let piece = s.substring_char(i, i + 1);
        proof {
            assert(piece@ =~= seq![s@[i as int]]);
        }
        if is_meta(piece.get_char(0)) {
            out.append("\\");
            proof {
                reveal_strlit("\\");
            }
        }
        out.append(piece);
        proof {
            lemma_escape_take_step(s@, i as int);
            assert(escape_char(s@[i as int]) == if is_meta_char(s@[i as int]) {
                seq!['\\', s@[i as int]]
            } else {
                seq![s@[i as int]]
            });
        }
        i = i + 1;
    }
    proof {
        assert(s@.take(n as int) =~= s@);
    }
    out
}

/// Compiles a configured body pattern into the regular-expression text that
/// is matched against a response body.
///
/// An empty trimmed pattern is a configuration error.  A raw-marked pattern
/// is taken verbatim, less the marker and an optional trailing quote.  Any
/// other pattern is escaped and wrapped as an unanchored substring match.
pub fn generate_regex_pattern(input: &str) -> (r: Result<String, PatternError>)
    ensures
        r is Ok <==> pattern_spec(input@) is Some,
        r matches Ok(p) ==> p@ == pattern_spec(input@)->Some_0,
        r matches Err(e) ==> e == PatternError::EmptyPattern,
{
    let trimmed = trim_str(input);
    let n = trimmed.unicode_len();
    if n == 0 {
        return Err(PatternError::EmptyPattern);
    }
    if starts_with(trimmed, "r\"") {
        proof {
            reveal_strlit("r\"");
            assert("r\""@.len() == 2 && "r\""@[0] == 'r' && "r\""@[1] == '"');
            assert(trimmed@.take(2) == "r\""@);
            assert(trimmed@[0] == trimmed@.take(2)[0] && trimmed@[1] == trimmed@.take(2)[1]);
        }
        let body = trimmed.substring_char(2, n);
        proof {
            assert(body@ =~= trimmed@.skip(2));
        }
        let m = body.unicode_len();
        if m > 0 && body.get_char(m - 1) == '"' {
            let content = body.substring_char(0, m - 1);
            proof {
                assert(content@ =~= body@.drop_last());
            }
            Ok(content.to_owned())
        } else {
            Ok(body.to_owned())
        }
    } else {
        proof {
            reveal_strlit("r\"");
            if raw_marked(trimmed@) {
                assert(trimmed@.take(2) =~= "r\""@);
            }
        }
        let escaped = escape_literal(trimmed);
        let mut out = String::new();
        out.append(".*");
        out.append(escaped.as_str());
        out.append(".*");
        Ok(out)
    }
}

/// Whether a pattern text is accepted by the regular-expression compiler;
/// a function of the pattern alone.
pub uninterp spec fn regex_valid(pattern: Seq<char>) -> bool;

/// Whether a compiled pattern matches somewhere in a text; a function of
/// pattern and text alone.
pub uninterp spec fn regex_match(pattern: Seq<char>, text: Seq<char>) -> bool;

/// Relies on `regex::Regex::new` and `regex::Regex::is_match`: whether a
/// pattern compiles depends on the pattern text alone, and whether a
/// compiled pattern matches a text depends on the pattern and the text
/// alone.
#[verifier::external_body]
fn regex_is_match(pattern: &str, text: &str) -> (r: Result<bool, PatternError>)
    ensures
        r is Ok <==> regex_valid(pattern@),
        r matches Ok(m) ==> m == regex_match(pattern@, text@),
        r matches Err(e) ==> e == PatternError::InvalidRegex,
{
    match regex::Regex::new(pattern) {
        Ok(re) => Ok(re.is_match(text)),
        Err(_) => Err(PatternError::InvalidRegex),
    }
}

/// Whether the pattern compiled from a configured body pattern matches the
/// given text: the two error cases are an empty trimmed pattern and a raw
/// pattern that does not compile.
pub fn pattern_matches(input: &str, text: &str) -> (r: Result<bool, PatternError>)
    ensures
        r is Ok <==> (pattern_spec(input@) is Some && regex_valid(pattern_spec(input@)->Some_0)),
        r matches Ok(m) ==> m == regex_match(pattern_spec(input@)->Some_0, text@),
        r matches Err(e) ==> (e == PatternError::EmptyPattern <==> pattern_spec(input@) is None),
{
    let pattern = generate_regex_pattern(input)?;
    regex_is_match(pattern.as_str(), text)
}

} // verus!
