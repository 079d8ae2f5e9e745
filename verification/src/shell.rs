//! Command lines for a POSIX shell: how a word is quoted, how a line of quoted
//! words is laid out, and how the shell reads such a line back.

use vstd::prelude::*;
use vstd::string::*;

verus! {

/// A character that the shell takes literally wherever it stands: an ASCII
/// letter or digit, or one of `- _ = / , . +`.
pub open spec fn is_plain(c: char) -> bool {
    ('a' <= c && c <= 'z') || ('A' <= c && c <= 'Z') || ('0' <= c && c <= '9') || c == '-' || c
        == '_' || c == '=' || c == '/' || c == ',' || c == '.' || c == '+'
}

/// Every character of `s` is plain.
pub open spec fn all_plain(s: Seq<char>) -> bool {
    forall|i: int| 0 <= i < s.len() ==> is_plain(#[trigger] s[i])
}

/// One character as it stands between single quotes. A single quote or an
/// exclamation mark closes the quotes, follows a backslash, and opens them
/// again; any other character stands for itself.
pub open spec fn quoted_char(c: char) -> Seq<char> {
    if c == '\'' || c == '!' {
        seq!['\'', '\\', c, '\'']
    } else {
        seq![c]
    }
}

/// The characters of `s` as they stand between single quotes.
pub open spec fn quoted_body(s: Seq<char>) -> Seq<char>
    decreases s.len(),
{
    if s.len() == 0 {
        Seq::empty()
    } else {
        quoted_char(s[0]) + quoted_body(s.drop_first())
    }
}

/// The word `s` as it is written on a command line: unchanged where it is not
/// empty and all plain, else between single quotes.
pub open spec fn escaped(s: Seq<char>) -> Seq<char> {
    if s.len() > 0 && all_plain(s) {
        s
    } else {
        seq!['\''] + quoted_body(s) + seq!['\'']
    }
}

/// The command line of `words`: each word escaped, one space between two.
pub open spec fn command_text(words: Seq<Seq<char>>) -> Seq<char>
    decreases words.len(),
{
    if words.len() == 0 {
        Seq::empty()
    } else if words.len() == 1 {
        escaped(words[0])
    } else {
        escaped(words[0]) + seq![' '] + command_text(words.drop_first())
    }
}

/// The character sequences of a list of strings.
pub open spec fn word_texts(words: Seq<String>) -> Seq<Seq<char>> {
    words.map_values(|w: String| w@)
}

/// A character that ends a word outside quotes.
pub open spec fn is_blank(c: char) -> bool {
    c == ' ' || c == '\t' || c == '\n'
}

/// How the shell reads on in a word outside quotes. `word` is what the word
/// holds so far. The result is the finished word and the text after it, or
/// `None` where the text leaves what is modelled here: a character outside
/// quotes that is neither plain nor blank, a quote or a backslash, or a
/// backslash before a line break or at the end.
pub open spec fn read_bare(text: Seq<char>, word: Seq<char>) -> Option<(Seq<char>, Seq<char>)>
    decreases text.len(), 1int,
{
    if text.len() == 0 || is_blank(text[0]) {
        Some((word, text))
    } else if text[0] == '\'' {
        read_quoted(text.drop_first(), word)
    } else if text[0] == '\\' {
        if text.len() >= 2 && text[1] != '\n' {
            read_bare(text.subrange(2, text.len() as int), word.push(text[1]))
        } else {
            None
        }
    } else if is_plain(text[0]) {
        read_bare(text.drop_first(), word.push(text[0]))
    } else {
        None
    }
}

/// How the shell reads on between single quotes: every character is taken as
/// it is, up to the closing quote. `None` where the quote is never closed.
pub open spec fn read_quoted(text: Seq<char>, word: Seq<char>) -> Option<(Seq<char>, Seq<char>)>
    decreases text.len(), 0int,
{
    if text.len() == 0 {
        None
    } else if text[0] == '\'' {
        read_bare(text.drop_first(), word)
    } else {
        read_quoted(text.drop_first(), word.push(text[0]))
    }
}

/// The words that the shell reads from `text`: blanks between words are
/// skipped, quotes and backslashes are taken off. `None` where `read_bare` is.
pub open spec fn shell_words(text: Seq<char>) -> Option<Seq<Seq<char>>>
    decreases text.len(),
{
    if text.len() == 0 {
        Some(Seq::empty())
    } else if is_blank(text[0]) {
        shell_words(text.drop_first())
    } else {
        match read_bare(text, Seq::empty()) {
            Some((word, rest)) => if rest.len() < text.len() {
                match shell_words(rest) {
                    Some(more) => Some(seq![word] + more),
                    None => None,
                }
            } else {
                None
            },
            None => None,
        }
    }
}

/// `shell_escape::unix::escape`: the word is handed back as it is where it is
/// not empty and holds only ASCII letters, digits and `- _ = / , . +`; else it
/// is put between single quotes, with each single quote and each exclamation
/// mark in it written as quote, backslash, the character, quote.
#[verifier::external_body]
fn escape(word: &str) -> (text: String)
    ensures
        text@ == escaped(word@),
{
    shell_escape::unix::escape(std::borrow::Cow::Borrowed(word)).into_owned()
}

/// A word that is not empty and all plain is written as it is.
pub proof fn lemma_plain_word_stands_bare(word: Seq<char>)
    requires
        word.len() > 0,
        all_plain(word),
    ensures
        escaped(word) == word,
{
}

/// Adding a word at the end of a command line adds a space, unless the line
/// was empty, and the escaped word.
pub proof fn lemma_command_text_push(words: Seq<Seq<char>>, word: Seq<char>)
    ensures
        command_text(words.push(word)) == if words.len() == 0 {
            escaped(word)
        } else {
            command_text(words) + seq![' '] + escaped(word)
        },
    decreases words.len(),
{
    let all = words.push(word);
    if words.len() == 0 {
        assert(all[0] == word);
    } else {
        let tail = words.drop_first();
        assert(all.drop_first() =~= tail.push(word));
        assert(all[0] == words[0]);
        lemma_command_text_push(tail, word);
        assert(command_text(all) =~= command_text(words) + seq![' '] + escaped(word));
    }
}

/// The command line of `words`, ready to hand to a POSIX shell.
pub fn command_line(words: &Vec<String>) -> (line: String)
    ensures
        line@ == command_text(word_texts(words@)),
{
    let ghost texts = word_texts(words@);
    let mut line = String::new();
    let mut i: usize = 0;
    while i < words.len()
        invariant
            i <= words.len(),
            texts == word_texts(words@),
            line@ == command_text(texts.take(i as int)),
        decreases words.len() - i,
    {
        if i > 0 {
            proof {
                reveal_strlit(" ");
            }
            line.append(" ");
            assert(line@ =~= command_text(texts.take(i as int)) + seq![' ']);
        }
        let word = escape(words[i].as_str());
        line.append(word.as_str());
        proof {
            lemma_command_text_push(texts.take(i as int), texts[i as int]);
            assert(texts.take(i as int + 1) =~= texts.take(i as int).push(texts[i as int]));
            assert(line@ =~= command_text(texts.take(i as int + 1)));
        }
        i += 1;
    }
    assert(texts.take(i as int) =~= texts);
    line
}

/// The assignment that puts the project's own tool directories in front of
/// the search path for one command, with the space that sets it apart.
pub open spec fn tools_on_path() -> Seq<char> {
    "PATH=$PWD/tools/bin:$PWD/node_modules/.bin:$PATH "@
}

/// The command that runs `words` with the project's own tools found first.
pub open spec fn tool_command_text(words: Seq<Seq<char>>) -> Seq<char> {
    tools_on_path() + command_text(words)
}

/// The command that runs `words` with the project's own tools found first:
/// bundled executables are found without being installed for the system.
pub fn tool_command(words: &Vec<String>) -> (command: String)
    ensures
        command@ == tool_command_text(word_texts(words@)),
{
    let line = command_line(words);
    String::from_str("PATH=$PWD/tools/bin:$PWD/node_modules/.bin:$PATH ").concat(line.as_str())
}

/// Plain characters before a blank or the end are read as they are.
proof fn lemma_read_plain(s: Seq<char>, word: Seq<char>, rest: Seq<char>)
    requires
        all_plain(s),
        rest.len() == 0 || is_blank(rest[0]),
    ensures
        read_bare(s + rest, word) == Some((word + s, rest)),
    decreases s.len(),
{
    let text = s + rest;
    if s.len() == 0 {
        assert(text =~= rest);
        assert(word + s =~= word);
    } else {
        assert(text[0] == s[0]);
        assert(is_plain(s[0]));
        assert(text.drop_first() =~= s.drop_first() + rest);
        lemma_read_plain(s.drop_first(), word.push(s[0]), rest);
        assert(word.push(s[0]) + s.drop_first() =~= word + s);
    }
}

/// What stands between the quotes of an escaped word is read back as the word,
/// and the closing quote ends it where a blank or the end follows.
proof fn lemma_read_quoted(s: Seq<char>, word: Seq<char>, rest: Seq<char>)
    requires
        rest.len() == 0 || is_blank(rest[0]),
    ensures
        read_quoted(quoted_body(s) + seq!['\''] + rest, word) == Some((word + s, rest)),
    decreases s.len(),
{
    let text = quoted_body(s) + seq!['\''] + rest;
    if s.len() == 0 {
        assert(text =~= seq!['\''] + rest);
        assert(text[0] == '\'');
        assert(text.drop_first() =~= rest);
        assert(word + s =~= word);
        assert(read_quoted(text, word) == read_bare(rest, word));
    } else {
        let c = s[0];
        let tail = quoted_body(s.drop_first()) + seq!['\''] + rest;
        lemma_read_quoted(s.drop_first(), word.push(c), rest);
        assert(word.push(c) + s.drop_first() =~= word + s);
        if c == '\'' || c == '!' {
            assert(text =~= seq!['\'', '\\', c, '\''] + tail);
            let t1 = text.drop_first();
            assert(t1 =~= seq!['\\', c, '\''] + tail);
            assert(t1[0] == '\\' && t1[1] == c);
            let t2 = t1.subrange(2, t1.len() as int);
            assert(t2 =~= seq!['\''] + tail);
            assert(t2[0] == '\'');
            assert(t2.drop_first() =~= tail);
            assert(read_bare(t2, word.push(c)) == read_quoted(tail, word.push(c)));
            assert(read_bare(t1, word) == read_bare(t2, word.push(c)));
            assert(read_quoted(text, word) == read_bare(t1, word));
        } else {
            assert(text =~= seq![c] + tail);
            assert(text[0] == c);
            assert(text.drop_first() =~= tail);
            assert(read_quoted(text, word) == read_quoted(tail, word.push(c)));
        }
    }
}

/// The shell reads an escaped word back as the word it was made from, where a
/// blank or the end of the line follows it.
pub proof fn lemma_escaped_word_is_read_back(s: Seq<char>, rest: Seq<char>)
    requires
        rest.len() == 0 || is_blank(rest[0]),
    ensures
        read_bare(escaped(s) + rest, Seq::empty()) == Some((s, rest)),
        escaped(s).len() > 0,
        !is_blank(escaped(s)[0]),
{
    let none = Seq::<char>::empty();
    if s.len() > 0 && all_plain(s) {
        lemma_read_plain(s, none, rest);
        assert(none + s =~= s);
        assert(is_plain(s[0]));
    } else {
        let text = escaped(s) + rest;
        lemma_read_quoted(s, none, rest);
        assert(none + s =~= s);
        assert(text[0] == '\'');
        assert(text.drop_first() =~= quoted_body(s) + seq!['\''] + rest);
    }
}

/// However a word is made up, of blanks, quotes or any other character, the
/// shell reads the command line of a list of words back as that list: no word
/// is split, joined to its neighbour or changed.
pub proof fn lemma_command_line_keeps_words(words: Seq<Seq<char>>)
    ensures
        shell_words(command_text(words)) == Some(words),
    decreases words.len(),
{
    let text = command_text(words);
    if words.len() == 0 {
        assert(words =~= Seq::empty());
    } else if words.len() == 1 {
        let none = Seq::<char>::empty();
        lemma_escaped_word_is_read_back(words[0], none);
        assert(escaped(words[0]) + none =~= escaped(words[0]));
        assert(shell_words(none) == Some(Seq::<Seq<char>>::empty()));
        assert(seq![words[0]] + Seq::<Seq<char>>::empty() =~= words);
    } else {
        let tail = words.drop_first();
        let rest = seq![' '] + command_text(tail);
        lemma_escaped_word_is_read_back(words[0], rest);
        assert(text =~= escaped(words[0]) + rest);
        assert(text[0] == escaped(words[0])[0]);
        assert(rest.drop_first() =~= command_text(tail));
        lemma_command_line_keeps_words(tail);
        assert(shell_words(rest) == Some(tail));
        assert(seq![words[0]] + tail =~= words);
    }
}

} // verus!
