//! Quoting text for a POSIX shell.

use vstd::prelude::*;

verus! {

/// Whether a shell reads `c` as itself: a letter or digit of the basic
/// Latin alphabet, or one of `- _ = / , . +`.
pub open spec fn plain(c: char) -> bool {
    ||| 'a' <= c <= 'z'
    ||| 'A' <= c <= 'Z'
    ||| '0' <= c <= '9'
    ||| c == '-'
    ||| c == '_'
    ||| c == '='
    ||| c == '/'
    ||| c == ','
    ||| c == '.'
    ||| c == '+'
}

/// A character as it stands between single quotes: a single quote or an
/// exclamation mark closes the quotes, stands there with a backslash
/// before it, and opens them again; any other character stands as it is.
pub open spec fn quoted(c: char) -> Seq<char> {
    if c == '\'' || c == '!' {
        seq!['\'', '\\', c, '\'']
    } else {
        seq![c]
    }
}

/// The text `s` as one word of a POSIX shell: `s` itself where it is not
/// empty and holds plain characters only, else `s` between single quotes,
/// character by character.
pub open spec fn shell_escaped(s: Seq<char>) -> Seq<char> {
    if s.len() > 0 && forall|i: int| 0 <= i < s.len() ==> plain(#[trigger] s[i]) {
        s
    } else {
        seq!['\''] + s.map_values(|c: char| quoted(c)).flatten() + seq!['\'']
    }
}

/// A text that holds neither a single quote nor an exclamation mark is
/// kept as it is where it is not empty and all of it is plain, and else
/// stands unchanged between two single quotes.
pub proof fn lemma_text_without_marks(s: Seq<char>)
    requires
        forall|i: int| 0 <= i < s.len() ==> s[i] != '\'' && s[i] != '!',
    ensures
        s.map_values(|c: char| quoted(c)).flatten() == s,
        shell_escaped(s) == if s.len() > 0 && forall|i: int|
            0 <= i < s.len() ==> plain(#[trigger] s[i]) {
            s
        } else {
            seq!['\''] + s + seq!['\'']
        },
    decreases s.len(),
{
    let each = |c: char| quoted(c);
    if s.len() > 0 {
        let front = s.drop_last();
        lemma_text_without_marks(front);
        assert(s.map_values(each) =~= front.map_values(each).push(quoted(s.last())));
        front.map_values(each).lemma_flatten_push(quoted(s.last()));
    }
}

/// Quotes `s` so that a POSIX shell reads it as one word.
///
/// Calls `shell_escape::unix::escape`. That function hands a text of
/// plain characters back as it is, and puts any other text, the empty
/// one too, between single quotes, writing `'\''` for a single quote and
/// `'\!'` for an exclamation mark. Nothing of this is proved here.
#[verifier::external_body]
pub(crate) fn escape(s: &str) -> (r: String)
    ensures
        r@ == shell_escaped(s@),
{
    shell_escape::unix::escape(std::borrow::Cow::from(s)).into_owned()
}

} // verus!
