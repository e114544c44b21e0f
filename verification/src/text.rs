//! Text building blocks: decoding process output, writing integers, quoting
//! for the shell and joining words.
use vstd::prelude::*;
use vstd::string::*;

verus! {

/// The text that `String::from_utf8_lossy` makes of a byte sequence.
pub uninterp spec fn lossy_text(bytes: Seq<u8>) -> Seq<char>;

/// Decodes bytes through std's `String::from_utf8_lossy`, which replaces each
/// invalid sequence by U+FFFD. Claimed: the text is the named `lossy_text` of
/// the bytes.
#[verifier::external_body]
pub(crate) fn utf8_lossy(bytes: &[u8]) -> (text: String)
    ensures
        text@ == lossy_text(bytes@),
{
    String::from_utf8_lossy(bytes).into_owned()
}

/// Appends one character through std's `String::push`.
#[verifier::external_body]
pub(crate) fn push_char(s: &mut String, c: char)
    ensures
        final(s)@ == old(s)@.push(c),
{
    s.push(c)
}

/// `a` followed by `b`.
pub fn join2(a: &str, b: &str) -> (s: String)
    ensures
        s@ == a@ + b@,
{
    let mut s = String::from_str(a);
    s.append(b);
    s
}

/// The decimal digit for a value below 10.
pub open spec fn decimal_digit(d: nat) -> char {
    (48 + d) as char
}

/// The decimal digits of a natural number, without leading zeros.
pub open spec fn digits_of(n: nat) -> Seq<char>
    decreases n,
{
    if n < 10 {
        seq![decimal_digit(n)]
    } else {
        digits_of(n / 10).push(decimal_digit(n % 10))
    }
}

/// The decimal text of an integer, with a leading `-` when it is negative.
pub open spec fn decimal(i: int) -> Seq<char> {
    if i < 0 {
        seq!['-'] + digits_of((-i) as nat)
    } else {
        digits_of(i as nat)
    }
}

fn push_digits(s: &mut String, n: u64)
    ensures
        final(s)@ == old(s)@ + digits_of(n as nat),
    decreases n,
{
    if n >= 10 {
        push_digits(s, n / 10);
    }
    let d = (n % 10) as u8;
    let c = (48u8 + d) as char;
    assert(c == decimal_digit((n % 10) as nat));
    push_char(s, c);
    assert(s@ =~= old(s)@ + digits_of(n as nat));
}

/// The decimal text of an integer, as `Display` writes it.
pub fn decimal_text(i: i64) -> (s: String)
    ensures
        s@ == decimal(i as int),
{
    let mut s = String::new();
    if i < 0 {
        push_char(&mut s, '-');
        let m: u64 = if i == i64::MIN {
            9_223_372_036_854_775_808u64
        } else {
            (-i) as u64
        };
        push_digits(&mut s, m);
    } else {
        push_digits(&mut s, i as u64);
    }
    assert(s@ =~= decimal(i as int));
    s
}

/// How a single quote is written inside a single-quoted shell word: close the
/// quote, add an escaped quote, and open the quote again.
pub open spec fn quote_piece(c: char) -> Seq<char> {
    if c == '\'' {
        seq!['\'', '\\', '\'', '\'']
    } else {
        seq![c]
    }
}

/// A text with each single quote written as `quote_piece` writes it.
pub open spec fn escape_quotes(s: Seq<char>) -> Seq<char>
    decreases s.len(),
{
    if s.len() == 0 {
        Seq::empty()
    } else {
        quote_piece(s[0]) + escape_quotes(s.drop_first())
    }
}

/// Escaping a concatenation escapes each part.
pub proof fn lemma_escape_quotes_append(a: Seq<char>, b: Seq<char>)
    ensures
        escape_quotes(a + b) == escape_quotes(a) + escape_quotes(b),
    decreases a.len(),
{
    if a.len() == 0 {
        assert(a + b =~= b);
    } else {
        assert((a + b).drop_first() =~= a.drop_first() + b);
        lemma_escape_quotes_append(a.drop_first(), b);
        assert(escape_quotes(a + b) =~= escape_quotes(a) + escape_quotes(b));
    }
}

/// Replaces each single quote of a text by `'\''`, so that the text can stand
/// between single quotes on a shell command line.
pub fn escape_single_quotes(text: &str) -> (escaped: String)
    ensures
        escaped@ == escape_quotes(text@),
{
    let mut out = String::new();
    let ghost full = text@;
    for c in it: text.chars()
        invariant
            it.seq() == full,
            out@ == escape_quotes(full.take(it.index() as int)),
    {
        proof {
            let k = it.index() as int;
            assert(full.take(k + 1) =~= full.take(k) + seq![c]);
            lemma_escape_quotes_append(full.take(k), seq![c]);
            assert(escape_quotes(seq![c]) =~= quote_piece(c)) by {
                assert(seq![c].drop_first() =~= Seq::<char>::empty());
                assert(escape_quotes(Seq::<char>::empty()) == Seq::<char>::empty());
                assert(escape_quotes(seq![c]) == quote_piece(seq![c][0]) + escape_quotes(
                    seq![c].drop_first(),
                ));
            }
        }
        if c == '\'' {
            out.append("'\\''");
            proof {
                reveal_strlit("'\\''");
            }
        } else {
            push_char(&mut out, c);
        }
        assert(out@ =~= escape_quotes(full.take(it.index() + 1)));
    }
    assert(full.take(full.len() as int) =~= full);
    out
}

/// How a POSIX shell reads a word made of plain characters, single-quoted
/// spans (whose characters stand for themselves) and backslash-escaped
/// characters; `quoted` says whether the reading starts inside a quote.
pub open spec fn shell_word_value(w: Seq<char>, quoted: bool) -> Seq<char>
    decreases w.len(),
{
    if w.len() == 0 {
        Seq::empty()
    } else if quoted {
        if w[0] == '\'' {
            shell_word_value(w.drop_first(), false)
        } else {
            seq![w[0]] + shell_word_value(w.drop_first(), true)
        }
    } else if w[0] == '\'' {
        shell_word_value(w.drop_first(), true)
    } else if w[0] == '\\' && w.len() >= 2 {
        seq![w[1]] + shell_word_value(w.subrange(2, w.len() as int), false)
    } else {
        seq![w[0]] + shell_word_value(w.drop_first(), false)
    }
}

proof fn lemma_escaped_reads_back_quoted(s: Seq<char>)
    ensures
        shell_word_value(escape_quotes(s) + seq!['\''], true) == s,
    decreases s.len(),
{
    if s.len() == 0 {
        let w = escape_quotes(s) + seq!['\''];
        assert(w =~= seq!['\'']);
        assert(w.drop_first() =~= Seq::<char>::empty());
        assert(shell_word_value(w, true) == shell_word_value(w.drop_first(), false));
        assert(s =~= Seq::<char>::empty());
    } else {
        let rest = s.drop_first();
        lemma_escaped_reads_back_quoted(rest);
        let tail = escape_quotes(rest) + seq!['\''];
        let w = escape_quotes(s) + seq!['\''];
        if s[0] == '\'' {
            assert(w =~= seq!['\'', '\\', '\'', '\''] + tail);
            let w1 = w.drop_first();
            assert(w1 =~= seq!['\\', '\'', '\''] + tail);
            let w3 = w1.subrange(2, w1.len() as int);
            assert(w3 =~= seq!['\''] + tail);
            assert(w3.drop_first() =~= tail);
            assert(shell_word_value(w3, false) == shell_word_value(tail, true));
            assert(shell_word_value(w1, false) == seq![w1[1]] + shell_word_value(w3, false));
            assert(shell_word_value(w, true) == shell_word_value(w1, false));
            assert(shell_word_value(w, true) =~= seq!['\''] + rest);
        } else {
            assert(w =~= seq![s[0]] + tail);
            assert(w.drop_first() =~= tail);
            assert(shell_word_value(w, true) == seq![w[0]] + shell_word_value(tail, true));
        }
        assert(s =~= seq![s[0]] + rest);
    }
}

/// Law: the escaped text, put between single quotes, is read by the shell as
/// exactly the original text.
pub proof fn lemma_single_quoted_word_reads_back(s: Seq<char>)
    ensures
        shell_word_value(seq!['\''] + escape_quotes(s) + seq!['\''], false) == s,
{
    let w = seq!['\''] + escape_quotes(s) + seq!['\''];
    assert(w.drop_first() =~= escape_quotes(s) + seq!['\'']);
    lemma_escaped_reads_back_quoted(s);
}

/// Words joined by a separator.
pub open spec fn join_with(words: Seq<Seq<char>>, sep: Seq<char>) -> Seq<char>
    decreases words.len(),
{
    if words.len() == 0 {
        Seq::empty()
    } else if words.len() == 1 {
        words[0]
    } else {
        join_with(words.drop_last(), sep) + sep + words.last()
    }
}

/// The texts of a sequence of strings.
pub open spec fn texts(v: Seq<String>) -> Seq<Seq<char>> {
    v.map_values(|s: String| s@)
}

/// Joins words by a separator, as `[String]::join` does.
pub fn join_words(words: &Vec<String>, sep: &str) -> (joined: String)
    ensures
        joined@ == join_with(texts(words@), sep@),
{
    let mut out = String::new();
    let mut i: usize = 0;
    while i < words.len()
        invariant
            i <= words.len(),
            out@ == join_with(texts(words@.take(i as int)), sep@),
        decreases words.len() - i,
    {
        proof {
            assert(texts(words@.take(i as int + 1)).drop_last() =~= texts(words@.take(i as int)));
            assert(texts(words@.take(i as int + 1)).last() == words@[i as int]@);
        }
        if i > 0 {
            out.append(sep);
        }
        out.append(words[i].as_str());
        proof {
            if i == 0 {
                assert(texts(words@.take(1)).len() == 1);
                assert(out@ =~= words@[0]@);
            }
        }
        i = i + 1;
    }
    assert(words@.take(words.len() as int) =~= words@);
    out
}

} // verus!
