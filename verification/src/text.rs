//! Text primitives: joining fragments with a separator and quoting string
//! literals.

use vstd::prelude::*;

verus! {

/// The fragments of `parts` in order, with `sep` between neighbours.
pub open spec fn join(parts: Seq<Seq<char>>, sep: Seq<char>) -> Seq<char>
    decreases parts.len(),
{
    if parts.len() == 0 {
        Seq::empty()
    } else if parts.len() == 1 {
        parts[0]
    } else {
        join(parts.drop_last(), sep) + sep + parts.last()
    }
}

/// The views of a sequence of strings.
pub open spec fn texts(parts: Seq<String>) -> Seq<Seq<char>> {
    parts.map_values(|s: String| s@)
}

/// How one character stands inside a quoted literal: a quote is written
/// twice, any other character once.
pub open spec fn quote_char(c: char) -> Seq<char> {
    if c == '\'' {
        seq!['\'', '\'']
    } else {
        seq![c]
    }
}

/// `s` with every single quote doubled.
pub open spec fn double_quotes(s: Seq<char>) -> Seq<char>
    decreases s.len(),
{
    if s.len() == 0 {
        Seq::empty()
    } else {
        quote_char(s[0]) + double_quotes(s.drop_first())
    }
}

/// The SQL string literal for `s`: its quotes doubled, between two quotes.
pub open spec fn quoted(s: Seq<char>) -> Seq<char> {
    seq!['\''] + double_quotes(s) + seq!['\'']
}

/// `t` with every pair of adjacent quotes, read from the left, replaced by
/// one quote.
pub open spec fn merge_quotes(t: Seq<char>) -> Seq<char>
    decreases t.len(),
{
    if t.len() == 0 {
        Seq::empty()
    } else if t.len() >= 2 && t[0] == '\'' && t[1] == '\'' {
        seq!['\''] + merge_quotes(t.skip(2))
    } else {
        seq![t[0]] + merge_quotes(t.skip(1))
    }
}

/// What a literal stands for: the outer quotes removed and doubled quotes
/// merged.
pub open spec fn unquoted(t: Seq<char>) -> Seq<char>
    recommends
        t.len() >= 2,
{
    merge_quotes(t.subrange(1, t.len() - 1))
}

/// The number of single quotes in `s`.
pub open spec fn count_quotes(s: Seq<char>) -> nat
    decreases s.len(),
{
    if s.len() == 0 {
        0
    } else {
        (if s[0] == '\'' { 1nat } else { 0nat }) + count_quotes(s.drop_first())
    }
}

/// Joining keeps every fragment in its place: the join of two lists put
/// end to end is the join of the first, a separator, and the join of the
/// second.
pub proof fn lemma_join_concat(a: Seq<Seq<char>>, b: Seq<Seq<char>>, sep: Seq<char>)
    requires
        a.len() > 0,
        b.len() > 0,
    ensures
        join(a + b, sep) == join(a, sep) + sep + join(b, sep),
    decreases b.len(),
{
    let whole = a + b;
    if b.len() == 1 {
        assert(whole.drop_last() =~= a);
    } else {
        assert(whole.drop_last() =~= a + b.drop_last());
        lemma_join_concat(a, b.drop_last(), sep);
        assert(join(whole, sep) =~= join(a, sep) + sep + join(b, sep));
    }
}

/// Doubling distributes over concatenation.
pub proof fn lemma_double_quotes_concat(a: Seq<char>, b: Seq<char>)
    ensures
        double_quotes(a + b) == double_quotes(a) + double_quotes(b),
    decreases a.len(),
{
    if a.len() > 0 {
        assert((a + b).drop_first() =~= a.drop_first() + b);
        lemma_double_quotes_concat(a.drop_first(), b);
        assert(quote_char(a[0]) + (double_quotes(a.drop_first()) + double_quotes(b))
            =~= (quote_char(a[0]) + double_quotes(a.drop_first())) + double_quotes(b));
    }
}

/// Doubling a sequence extended by one character appends that character's
/// quoted form.
pub proof fn lemma_double_quotes_push(s: Seq<char>, c: char)
    ensures
        double_quotes(s.push(c)) == double_quotes(s) + quote_char(c),
{
    assert(s.push(c) =~= s + seq![c]);
    lemma_double_quotes_concat(s, seq![c]);
    assert(double_quotes(seq![c]) =~= quote_char(c)) by {
        reveal_with_fuel(double_quotes, 2);
    }
}

/// Merging the doubled quotes of a doubled text gives the text back.
pub proof fn lemma_merge_double_quotes(s: Seq<char>)
    ensures
        merge_quotes(double_quotes(s)) == s,
    decreases s.len(),
{
    if s.len() > 0 {
        let t = double_quotes(s);
        let rest = double_quotes(s.drop_first());
        lemma_merge_double_quotes(s.drop_first());
        if s[0] == '\'' {
            assert(t.skip(2) =~= rest);
        } else {
            assert(t.skip(1) =~= rest);
        }
    }
}

/// Reading a quoted literal back recovers the text it was made from.
pub proof fn lemma_unquoted_quoted(s: Seq<char>)
    ensures
        unquoted(quoted(s)) == s,
{
    let t = quoted(s);
    assert(t.subrange(1, t.len() - 1) =~= double_quotes(s));
    lemma_merge_double_quotes(s);
}

/// Doubling adds one character for each quote in the text.
pub proof fn lemma_double_quotes_len(s: Seq<char>)
    ensures
        double_quotes(s).len() == s.len() + count_quotes(s),
    decreases s.len(),
{
    if s.len() > 0 {
        lemma_double_quotes_len(s.drop_first());
    }
}

/// A quoted literal begins and ends with a quote, and between them holds
/// the text's characters and one more for each of its quotes.
pub proof fn lemma_quoted_shape(s: Seq<char>)
    ensures
        quoted(s).len() == s.len() + count_quotes(s) + 2,
        quoted(s).first() == '\'',
        quoted(s).last() == '\'',
{
    lemma_double_quotes_len(s);
}

/// A text without quotes is unchanged by doubling.
pub proof fn lemma_double_quotes_plain(s: Seq<char>)
    requires
        forall|i: int| 0 <= i < s.len() ==> s[i] != '\'',
    ensures
        double_quotes(s) == s,
    decreases s.len(),
{
    if s.len() > 0 {
        lemma_double_quotes_plain(s.drop_first());
    }
}

/// Appends one character to a string, by `String::push` of the standard
/// library: the string's text grows by exactly that character at its end.
#[verifier::external_body]
fn push_char(s: &mut String, c: char)
    ensures
        final(s)@ == old(s)@.push(c),
{
    s.push(c);
}

/// Renders `value` as a SQL string literal: every single quote in it is
/// doubled and the whole is wrapped in single quotes.
pub fn escape_string(value: &str) -> (literal: String)
    ensures
        literal@ == quoted(value@),
{
    let mut literal = String::new();
    push_char(&mut literal, '\'');
    for c in it: value.chars()
        invariant
            it.seq() == value@,
            literal@ == seq!['\''] + double_quotes(it.seq().take(it.index())),
    {
        proof {
            let done = it.seq().take(it.index());
            assert(it.seq().take(it.index() + 1) =~= done.push(c));
            lemma_double_quotes_push(done, c);
        }
        if c == '\'' {
            push_char(&mut literal, '\'');
            push_char(&mut literal, '\'');
        } else {
            push_char(&mut literal, c);
        }
    }
    assert(value@.take(value@.len() as int) =~= value@);
    push_char(&mut literal, '\'');
    literal
}

/// Concatenates `parts` with `sep` between neighbours.
pub fn join_strings(parts: &Vec<String>, sep: &str) -> (joined: String)
    ensures
        joined@ == join(texts(parts@), sep@),
{
    let mut joined = String::new();
    let mut i: usize = 0;
    while i < parts.len()
        invariant
            i <= parts.len(),
            joined@ == join(texts(parts@).take(i as int), sep@),
        decreases parts.len() - i,
    {
        proof {
            let all = texts(parts@);
            assert(all.take(i + 1).drop_last() =~= all.take(i as int));
        }
        if i > 0 {
            joined.append(sep);
        }
        joined.append(parts[i].as_str());
        i += 1;
    }
    assert(texts(parts@).take(parts.len() as int) =~= texts(parts@));
    joined
}

} // verus!
