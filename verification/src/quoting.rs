//! Putting arbitrary text into a shell command.
//!
//! A value goes between single quotes, and each single quote inside it is written `'\''`: the
//! quotes are closed, a quote follows behind a backslash, and the quotes are opened again.
//! The module states what a POSIX shell makes of a text, as far as that is needed here, and
//! proves that it reads such a value back unchanged.
use vstd::prelude::*;
use vstd::string::*;

verus! {

/// `String::push` appends one character to the end of the text.
pub assume_specification[ String::push ](text: &mut String, c: char)
    ensures
        final(text)@ == old(text)@.push(c),
;

/// How a character is written between single quotes.
pub open spec fn escaped_char(c: char) -> Seq<char> {
    if c == '\'' {
        seq!['\'', '\\', '\'', '\'']
    } else {
        seq![c]
    }
}

/// How a text is written between single quotes: character by character.
pub open spec fn escaped(text: Seq<char>) -> Seq<char>
    decreases text.len(),
{
    if text.len() == 0 {
        Seq::empty()
    } else {
        escaped_char(text[0]) + escaped(text.drop_first())
    }
}

/// A text as one shell word: escaped, and between single quotes.
pub open spec fn quoted(text: Seq<char>) -> Seq<char> {
    seq!['\''] + escaped(text) + seq!['\'']
}

/// Writes a text the way it stands between single quotes.
pub fn escape(text: &str) -> (result: String)
    ensures
        result@ == escaped(text@),
{
    let mut result = String::new();
    assert(text@.skip(0) =~= text@);
    for c in it: text.chars()
        invariant
            it.seq() == text@,
            result@ + escaped(text@.skip(it.index() as int)) == escaped(text@),
    {
        let ghost before = result@;
        let ghost rest = text@.skip(it.index() as int);
        assert(rest[0] == c);
        assert(rest.drop_first() =~= text@.skip(it.index() as int + 1));
        if c == '\'' {
            result.append("'\\''");
            proof {
                reveal_strlit("'\\''");
                assert("'\\''"@ =~= escaped_char(c));
            }
        } else {
            result.push(c);
            assert(result@ =~= before + escaped_char(c));
        }
        assert(before + (escaped_char(c) + escaped(rest.drop_first())) =~= before + escaped_char(c)
            + escaped(rest.drop_first()));
    }
    assert(result@ + escaped(text@.skip(text@.len() as int)) =~= result@);
    result
}

/// A character that a shell takes as it stands, outside quotes and at any place of a word.
pub open spec fn plain_char(c: char) -> bool {
    ||| 'a' <= c <= 'z'
    ||| 'A' <= c <= 'Z'
    ||| '0' <= c <= '9'
    ||| c == '_'
    ||| c == '-'
    ||| c == '.'
    ||| c == '/'
    ||| c == ':'
    ||| c == '='
    ||| c == '@'
}

/// A text that a shell takes as it stands.
pub open spec fn plain(text: Seq<char>) -> bool {
    forall|i: int| 0 <= i < text.len() ==> plain_char(#[trigger] text[i])
}

/// A word and what is left behind it, with `front` put in front of the word.
pub open spec fn with_front(
    front: Seq<char>,
    read: Option<(Seq<char>, Seq<char>)>,
) -> Option<(Seq<char>, Seq<char>)> {
    match read {
        Some((word, rest)) => Some((front + word, rest)),
        None => None,
    }
}

/// The word that a shell reads at the start of `text`, and what it leaves: the word ends at the
/// first space outside quotes. `in_quotes` says whether a single quote is open. `None` stands for
/// quotes that are not closed, and for characters outside quotes that mean more to a shell than
/// themselves.
pub open spec fn read_word(text: Seq<char>, in_quotes: bool) -> Option<(Seq<char>, Seq<char>)>
    decreases text.len(),
{
    if in_quotes {
        if text.len() == 0 {
            None
        } else if text[0] == '\'' {
            read_word(text.drop_first(), false)
        } else {
            with_front(seq![text[0]], read_word(text.drop_first(), true))
        }
    } else if text.len() == 0 || text[0] == ' ' {
        Some((Seq::empty(), text))
    } else if text[0] == '\'' {
        read_word(text.drop_first(), true)
    } else if text[0] == '\\' && text.len() > 1 && text[1] != '\n' {
        with_front(seq![text[1]], read_word(text.skip(2), false))
    } else if plain_char(text[0]) {
        with_front(seq![text[0]], read_word(text.drop_first(), false))
    } else {
        None
    }
}

/// The words that a shell splits `text` into, where it can read all of them.
pub open spec fn words(text: Seq<char>) -> Option<Seq<Seq<char>>>
    decreases text.len(),
{
    if text.len() == 0 {
        Some(Seq::empty())
    } else if text[0] == ' ' {
        words(text.drop_first())
    } else {
        match read_word(text, false) {
            Some((word, rest)) if rest.len() < text.len() => match words(rest) {
                Some(more) => Some(seq![word] + more),
                None => None,
            },
            _ => None,
        }
    }
}

/// Whether a word ends in front of `rest`.
pub open spec fn ends_word(rest: Seq<char>) -> bool {
    rest.len() == 0 || rest[0] == ' '
}

/// Plain text is taken into the word as it stands.
pub(crate) proof fn lemma_read_plain(text: Seq<char>, rest: Seq<char>)
    requires
        plain(text),
    ensures
        read_word(text + rest, false) == with_front(text, read_word(rest, false)),
    decreases text.len(),
{
    if text.len() == 0 {
        assert(text + rest =~= rest);
        match read_word(rest, false) {
            Some((word, _)) => assert(text + word =~= word),
            None => {},
        }
    } else {
        let tail = text.drop_first();
        assert(plain_char(text[0]));
        assert((text + rest).drop_first() =~= tail + rest);
        lemma_read_plain(tail, rest);
        match read_word(rest, false) {
            Some((word, _)) => assert(seq![text[0]] + (tail + word) =~= text + word),
            None => {},
        }
    }
}

/// Inside open quotes, an escaped text up to the closing quote is read as the text.
pub(crate) proof fn lemma_read_escaped(text: Seq<char>, rest: Seq<char>)
    ensures
        read_word(escaped(text) + seq!['\''] + rest, true) == with_front(
            text,
            read_word(rest, false),
        ),
    decreases text.len(),
{
    let whole = escaped(text) + seq!['\''] + rest;
    if text.len() == 0 {
        assert(whole.drop_first() =~= rest);
        match read_word(rest, false) {
            Some((word, _)) => assert(text + word =~= word),
            None => {},
        }
    } else {
        let tail = text.drop_first();
        let shorter = escaped(tail) + seq!['\''] + rest;
        lemma_read_escaped(tail, rest);
        assert(whole =~= escaped_char(text[0]) + shorter);
        if text[0] == '\'' {
            let closed = whole.drop_first();
            assert(closed =~= seq!['\\', '\'', '\''] + shorter);
            let reopened = closed.skip(2);
            assert(reopened =~= seq!['\''] + shorter);
            assert(reopened.drop_first() =~= shorter);
            assert(read_word(whole, true) == read_word(closed, false));
            assert(read_word(closed, false) == with_front(seq!['\''], read_word(reopened, false)));
            assert(read_word(reopened, false) == read_word(shorter, true));
        } else {
            assert(whole.drop_first() =~= shorter);
        }
        match read_word(rest, false) {
            Some((word, _)) => assert(seq![text[0]] + (tail + word) =~= text + word),
            None => {},
        }
    }
}

/// A shell reads a quoted text back unchanged, whatever characters it holds.
pub proof fn quoting_is_read_back(text: Seq<char>, rest: Seq<char>)
    requires
        ends_word(rest),
    ensures
        read_word(quoted(text) + rest, false) == Some((text, rest)),
{
    assert((quoted(text) + rest).drop_first() =~= escaped(text) + seq!['\''] + rest);
    lemma_read_escaped(text, rest);
    assert(text + Seq::<char>::empty() =~= text);
}

/// Different texts are quoted differently.
pub proof fn quoting_tells_texts_apart(a: Seq<char>, b: Seq<char>)
    requires
        quoted(a) == quoted(b),
    ensures
        a == b,
{
    quoting_is_read_back(a, Seq::empty());
    quoting_is_read_back(b, Seq::empty());
}

/// A text without single quotes stands between single quotes as it is.
pub proof fn escaping_keeps_text_without_quotes(text: Seq<char>)
    requires
        !text.contains('\''),
    ensures
        escaped(text) == text,
    decreases text.len(),
{
    if text.len() > 0 {
        assert(text.contains(text[0]));
        assert forall|c: char| text.drop_first().contains(c) implies text.contains(c) by {
            let i = text.drop_first().index_of(c);
            assert(text[i + 1] == c);
        }
        escaping_keeps_text_without_quotes(text.drop_first());
        assert(seq![text[0]] + text.drop_first() =~= text);
    }
}

/// A plain text followed by a quoted one is a single word, which holds both.
pub(crate) proof fn lemma_read_assignment(name: Seq<char>, value: Seq<char>, rest: Seq<char>)
    requires
        plain(name),
        ends_word(rest),
    ensures
        read_word(name + quoted(value) + rest, false) == Some((name + value, rest)),
{
    assert(name + quoted(value) + rest =~= name + (quoted(value) + rest));
    lemma_read_plain(name, quoted(value) + rest);
    quoting_is_read_back(value, rest);
}

/// A word at the start of a text is the first of the text's words.
pub(crate) proof fn lemma_first_word(text: Seq<char>, word: Seq<char>, rest: Seq<char>)
    requires
        text.len() > 0,
        text[0] != ' ',
        read_word(text, false) == Some((word, rest)),
        rest.len() < text.len(),
        words(rest) is Some,
    ensures
        words(text) == Some(seq![word] + words(rest)->0),
{
}

/// A plain text in front of the end of a word is a word of its own.
pub(crate) proof fn lemma_plain_word(word: Seq<char>, rest: Seq<char>)
    requires
        plain(word),
        word.len() > 0,
        ends_word(rest),
        words(rest) is Some,
    ensures
        words(word + rest) == Some(seq![word] + words(rest)->0),
{
    lemma_read_plain(word, rest);
    assert(word + Seq::<char>::empty() =~= word);
    assert(plain_char(word[0]));
    lemma_first_word(word + rest, word, rest);
}

/// A space in front of a text adds no word.
pub(crate) proof fn lemma_skip_space(text: Seq<char>)
    ensures
        words(" "@ + text) == words(text),
        ends_word(" "@ + text),
{
    reveal_strlit(" ");
    assert((" "@ + text).drop_first() =~= text);
}

/// Escaping works on each part of a text by itself: a single quote becomes `'\''`, and every other
/// character stays.
pub proof fn escaping_joins(a: Seq<char>, b: Seq<char>, c: char)
    ensures
        escaped(a + b) == escaped(a) + escaped(b),
        escaped(Seq::empty()) == Seq::<char>::empty(),
        c != '\'' ==> escaped(seq![c]) == seq![c],
        c == '\'' ==> escaped(seq![c]) == "'\\''"@,
        quoted(a) == "'"@ + escaped(a) + "'"@,
    decreases a.len(),
{
    reveal_strlit("'\\''");
    reveal_strlit("'");
    assert("'"@ =~= seq!['\'']);
    assert(seq![c].drop_first() =~= Seq::empty());
    assert(escaped(seq![c].drop_first()) =~= Seq::empty());
    assert(escaped(seq![c]) =~= escaped_char(c));
    assert(escaped_char('\'') =~= "'\\''"@);
    if a.len() == 0 {
        assert(a + b =~= b);
        assert(escaped(a) + escaped(b) =~= escaped(b));
    } else {
        assert((a + b).drop_first() =~= a.drop_first() + b);
        escaping_joins(a.drop_first(), b, c);
        assert(escaped_char(a[0]) + (escaped(a.drop_first()) + escaped(b)) =~= escaped(a)
            + escaped(b));
    }
}

/// A piece of a shell command: a word, or an operator between words.
pub enum Token {
    Word(Seq<char>),
    Operator(Seq<char>),
}

/// How long the operator at the start of a text is: `&&`, `||` or `|`. There is none where the
/// length is zero.
pub open spec fn operator_len(text: Seq<char>) -> int {
    if text.len() >= 2 && text[0] == '&' && text[1] == '&' {
        2
    } else if text.len() >= 2 && text[0] == '|' && text[1] == '|' {
        2
    } else if text.len() >= 1 && text[0] == '|' {
        1
    } else {
        0
    }
}

/// The words and operators that a shell splits `text` into, where it can read all of them.
pub open spec fn tokens(text: Seq<char>) -> Option<Seq<Token>>
    decreases text.len(),
{
    if text.len() == 0 {
        Some(Seq::empty())
    } else if text[0] == ' ' {
        tokens(text.drop_first())
    } else if operator_len(text) > 0 {
        let n = operator_len(text);
        match tokens(text.skip(n)) {
            Some(more) => Some(seq![Token::Operator(text.take(n))] + more),
            None => None,
        }
    } else {
        match read_word(text, false) {
            Some((word, rest)) if rest.len() < text.len() => match tokens(rest) {
                Some(more) => Some(seq![Token::Word(word)] + more),
                None => None,
            },
            _ => None,
        }
    }
}

/// A plain text in front of the end of a word is a word of its own.
pub(crate) proof fn lemma_word_token(word: Seq<char>, rest: Seq<char>)
    requires
        plain(word),
        word.len() > 0,
        ends_word(rest),
        tokens(rest) is Some,
    ensures
        tokens(word + rest) == Some(seq![Token::Word(word)] + tokens(rest)->0),
{
    lemma_read_plain(word, rest);
    assert(word + Seq::<char>::empty() =~= word);
    assert(plain_char(word[0]));
    assert((word + rest)[0] == word[0]);
    if word.len() > 1 {
        assert(plain_char(word[1]));
        assert((word + rest)[1] == word[1]);
    }
    assert(operator_len(word + rest) == 0);
}

/// A plain text followed by a quoted one is a single word, which holds both.
pub(crate) proof fn lemma_quoted_token(name: Seq<char>, value: Seq<char>, rest: Seq<char>)
    requires
        plain(name),
        ends_word(rest),
        tokens(rest) is Some,
    ensures
        tokens(name + quoted(value) + rest) == Some(
            seq![Token::Word(name + value)] + tokens(rest)->0,
        ),
{
    let text = name + quoted(value) + rest;
    lemma_read_assignment(name, value, rest);
    assert(quoted(value)[0] == '\'');
    if name.len() > 0 {
        assert(plain_char(name[0]));
        assert(text[0] == name[0]);
        if name.len() > 1 {
            assert(plain_char(name[1]));
            assert(text[1] == name[1]);
        } else {
            assert(text[1] == '\'');
        }
    } else {
        assert(text[0] == '\'');
    }
    assert(operator_len(text) == 0);
}

/// A space in front of a text adds nothing.
pub(crate) proof fn lemma_space_token(text: Seq<char>)
    ensures
        tokens(" "@ + text) == tokens(text),
        ends_word(" "@ + text),
{
    reveal_strlit(" ");
    assert((" "@ + text).drop_first() =~= text);
}

/// An operator in front of a space is an operator of its own.
pub(crate) proof fn lemma_operator_token(operator: Seq<char>, rest: Seq<char>)
    requires
        operator == "&&"@ || operator == "||"@ || operator == "|"@,
        rest.len() > 0,
        rest[0] == ' ',
        tokens(rest) is Some,
    ensures
        tokens(operator + rest) == Some(seq![Token::Operator(operator)] + tokens(rest)->0),
{
    reveal_strlit("&&");
    reveal_strlit("||");
    reveal_strlit("|");
    let text = operator + rest;
    assert(text[0] == operator[0]);
    assert(operator_len(text) == operator.len());
    assert(text.skip(operator.len() as int) =~= rest);
    assert(text.take(operator.len() as int) =~= operator);
}

} // verus!
