//! Splitting an editor command string into words, as a POSIX shell would,
//! through the `shell_words` crate.
use vstd::prelude::*;

verus! {

#[verifier::external_type_specification]
#[verifier::external_body]
pub struct ExParseError(shell_words::ParseError);

/// The words that `shell_words::split` finds in a string, or `None` where it
/// reports an unmatched quote.
pub uninterp spec fn shell_split_of(s: Seq<char>) -> Option<Seq<Seq<char>>>;

/// The characters that separate words outside of quotes.
pub open spec fn is_word_separator(c: char) -> bool {
    c == ' ' || c == '\t' || c == '\n'
}

/// Holds when the string consists of separators alone (the empty string too).
pub open spec fn is_blank(s: Seq<char>) -> bool {
    forall|i: int| 0 <= i < s.len() ==> is_word_separator(#[trigger] s[i])
}

/// The views of a sequence of strings.
pub open spec fn words_view(v: Seq<String>) -> Seq<Seq<char>> {
    v.map_values(|w: String| w@)
}

/// Relies on `shell_words::split`: its result depends on the characters of
/// the string alone, and a string made only of spaces, tabs and newlines
/// leaves the splitter in its delimiter state to the end, so no word comes out.
#[verifier::external_body]
fn split_words(s: &str) -> (r: Result<Vec<String>, shell_words::ParseError>)
    ensures
        r is Ok <==> shell_split_of(s@) is Some,
        r is Ok ==> shell_split_of(s@) == Some(words_view(r->Ok_0@)),
        is_blank(s@) ==> r is Ok && r->Ok_0@.len() == 0,
{
    shell_words::split(s)
}

/// Relies on the `Display` impl of `shell_words::ParseError` for its message.
#[verifier::external_body]
fn parse_error_text(e: &shell_words::ParseError) -> (r: String) {
    e.to_string()
}

/// Why a command string could not be split into words.
#[derive(Clone, Debug, PartialEq, Eq)]
pub struct SplitError {
    /// The splitter's own description of the fault.
    pub reason: String,
}

/// Splits `command` into words: quotes group characters into one word and are
/// removed, a backslash escapes the next character, and nothing is expanded.
pub fn split_command(command: &str) -> (r: Result<Vec<String>, SplitError>)
    ensures
        r is Ok <==> shell_split_of(command@) is Some,
        r is Ok ==> shell_split_of(command@) == Some(words_view(r->Ok_0@)),
        is_blank(command@) ==> r is Ok && r->Ok_0@.len() == 0,
{
    match split_words(command) {
        Ok(words) => Ok(words),
        Err(e) => Err(SplitError { reason: parse_error_text(&e) }),
    }
}

} // verus!
