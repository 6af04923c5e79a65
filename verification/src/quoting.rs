//! Shell-word quoting for command strings handed to a POSIX shell.

use vstd::prelude::*;
use vstd::string::*;

verus! {

/// Characters the shell gives meaning to; a word containing any of them,
/// and the empty word, must be quoted.
pub open spec fn is_special(c: char) -> bool {
    c == '\n' || c == '\'' || c == '|' || c == '&' || c == ';' || c == '<' || c == '>' || c == '('
        || c == ')' || c == '$' || c == '`' || c == '\\' || c == '"' || c == ' ' || c == '\t'
        || c == '*' || c == '?' || c == '[' || c == '#' || c == '~' || c == '=' || c == '%'
}

/// A word that may stand unquoted: non-empty and free of special
/// characters.
pub open spec fn spec_plain_word(s: Seq<char>) -> bool {
    s.len() > 0 && forall|i: int| 0 <= i < s.len() ==> !is_special(#[trigger] s[i])
}

/// The body of a single-quoted word: each `'` becomes `'\''`, every other
/// character stands as it is.
pub open spec fn spec_escape_quotes(s: Seq<char>) -> Seq<char>
    decreases s.len(),
{
    if s.len() == 0 {
        Seq::empty()
    } else {
        (if s[0] == '\'' {
            seq!['\'', '\\', '\'', '\'']
        } else {
            seq![s[0]]
        }) + spec_escape_quotes(s.drop_first())
    }
}

/// One word as the joiner emits it: plain words stand as they are, all
/// others are wrapped in single quotes with embedded quotes escaped.
pub open spec fn spec_quote(s: Seq<char>) -> Seq<char> {
    if spec_plain_word(s) {
        s
    } else {
        seq!['\''] + spec_escape_quotes(s) + seq!['\'']
    }
}

/// Words joined into one shell line, separated by single spaces.
pub open spec fn spec_join(ws: Seq<Seq<char>>) -> Seq<char>
    decreases ws.len(),
{
    if ws.len() == 0 {
        Seq::empty()
    } else if ws.len() == 1 {
        spec_quote(ws[0])
    } else {
        spec_join(ws.drop_last()) + seq![' '] + spec_quote(ws.last())
    }
}

/// Relies on shell_words::join: every word is quoted — as-is when non-empty
/// and free of shell-special characters, otherwise wrapped in single quotes
/// with each embedded `'` escaped as `'\''` — and the quoted words are
/// separated by single spaces.  (Its purely single-quoted emission style for
/// words with newlines but no quotes writes the same characters as the
/// escaping style, since there is then nothing to escape.)
#[verifier::external_body]
fn shell_join(words: &Vec<String>) -> (r: String)
    ensures
        r@ == spec_join(words.deep_view()),
{
    shell_words::join(words)
}

/// The editor command that sources the init file under `vim_dir`, quoted so
/// that a path with spaces or other special characters survives the shell.
pub fn build_vim_init(vim_dir: &str) -> (r: String)
    ensures
        r@ == spec_join(seq!["source"@, vim_dir@ + "/init.vim"@]),
{
    let mut words: Vec<String> = Vec::new();
    words.push(String::from_str("source"));
    words.push(String::from_str(vim_dir).concat("/init.vim"));
    let r = shell_join(&words);
    proof {
        assert(words.deep_view() =~= seq!["source"@, vim_dir@ + "/init.vim"@]);
    }
    r
}

} // verus!
