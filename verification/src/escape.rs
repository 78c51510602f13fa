//! Escaping of string values for embedding inside single-quoted statement
//! literals, together with the model of how the statement parser reads an
//! escaped literal back.

use vstd::prelude::*;

verus! {

/// How one character is embedded in a single-quoted literal: the quoting
/// delimiter is preceded by a backslash, every other character stands as it is.
pub open spec fn escape_char(c: char) -> Seq<char> {
    if c == '\'' {
        seq!['\\', '\'']
    } else {
        seq![c]
    }
}

/// The escaped form of a string value: each character embedded by
/// [`escape_char`], in order.
pub open spec fn spec_escape(s: Seq<char>) -> Seq<char>
    decreases s.len(),
{
    if s.len() == 0 {
        Seq::empty()
    } else {
        escape_char(s.first()) + spec_escape(s.drop_first())
    }
}

/// How the statement parser reads a single-quoted literal body back: a
/// backslash followed by the quoting delimiter denotes the delimiter itself;
/// any other character denotes itself.
pub open spec fn spec_unescape(s: Seq<char>) -> Seq<char>
    decreases s.len(),
{
    if s.len() == 0 {
        Seq::empty()
    } else if s.len() >= 2 && s.first() == '\\' && s[1] == '\'' {
        seq!['\''] + spec_unescape(s.skip(2))
    } else {
        seq![s.first()] + spec_unescape(s.drop_first())
    }
}

/// Escapes a string value for embedding between the statement's quoting
/// delimiters.
pub fn escape(s: &str) -> (r: String)
    ensures
        r@ == spec_escape(s@),
{
    let n: usize = s.unicode_len();
    let mut out = String::new();
    let mut i: usize = 0;
    while i < n
        invariant
            n == s@.len(),
            i <= n,
            out@ == spec_escape(s@.take(i as int)),
        decreases n - i,
    {
        let c = s.get_char(i);
        if c == '\'' {
            out.push('\\');
            out.push('\'');
        } else {
            out.push(c);
        }
        proof {
            lemma_escape_snoc(s@.take(i as int), c);
            assert(s@.take(i + 1) == s@.take(i as int).push(c));
        }
        i = i + 1;
    }
    proof {
        assert(s@.take(n as int) == s@);
    }
    out
}

/// Escaping leaves no bare delimiter: every quoting delimiter in the escaped
/// text is preceded by a backslash, so the delimiter never terminates the
/// quoted literal early.
pub proof fn lemma_escape_no_bare_delimiter(s: Seq<char>, i: int)
    requires
        0 <= i < spec_escape(s).len(),
        spec_escape(s)[i] == '\'',
    ensures
        i > 0 && spec_escape(s)[i - 1] == '\\',
    decreases s.len(),
{
    let rest = s.drop_first();
    if s.first() == '\'' {
        assert(spec_escape(s) == seq!['\\', '\''] + spec_escape(rest));
        if i >= 2 {
            lemma_escape_no_bare_delimiter(rest, i - 2);
        }
    } else {
        assert(spec_escape(s) == seq![s.first()] + spec_escape(rest));
        if i >= 1 {
            lemma_escape_no_bare_delimiter(rest, i - 1);
        }
    }
}

/// Escaping correctness: a value containing the statement's quoting
/// delimiter, once escaped and embedded, is read back by the statement
/// parser as the literal value — the delimiter included, with nothing
/// truncated. Parsing the escaped form recovers the value exactly.
pub proof fn lemma_unescape_escape(s: Seq<char>)
    ensures
        spec_unescape(spec_escape(s)) == s,
    decreases s.len(),
{
    if s.len() == 0 {
    } else {
        let rest = s.drop_first();
        lemma_unescape_escape(rest);
        if s.first() == '\'' {
            assert(spec_escape(s) == seq!['\\', '\''] + spec_escape(rest));
            assert(spec_escape(s).len() >= 2);
            assert(spec_escape(s).first() == '\\');
            assert(spec_escape(s)[1] == '\'');
            assert(spec_escape(s).skip(2) =~= spec_escape(rest));
            assert(spec_unescape(spec_escape(s)) =~= seq![s.first()] + rest);
            assert(seq![s.first()] + rest =~= s);
        } else {
            assert(spec_escape(s) == seq![s.first()] + spec_escape(rest));
            assert(spec_escape(s).first() == s.first());
            if spec_escape(s).len() >= 2 && spec_escape(s).first() == '\\' && spec_escape(s)[1]
                == '\'' {
                assert(spec_escape(rest)[0] == '\'');
                lemma_escape_no_bare_delimiter(rest, 0);
                assert(false);
            }
            assert(spec_escape(s).drop_first() =~= spec_escape(rest));
            assert(spec_unescape(spec_escape(s)) =~= seq![s.first()] + rest);
            assert(seq![s.first()] + rest =~= s);
        }
    }
}

/// Appending one character to the input appends its embedded form to the
/// escaped output.
proof fn lemma_escape_snoc(s: Seq<char>, c: char)
    ensures
        spec_escape(s.push(c)) == spec_escape(s) + escape_char(c),
    decreases s.len(),
{
    if s.len() == 0 {
        assert(s.push(c).drop_first() =~= Seq::<char>::empty());
        assert(spec_escape(Seq::<char>::empty()) == Seq::<char>::empty());
        assert(spec_escape(s.push(c)) == escape_char(c) + spec_escape(Seq::<char>::empty()));
        assert(spec_escape(s.push(c)) =~= spec_escape(s) + escape_char(c));
    } else {
        assert(s.push(c).drop_first() =~= s.drop_first().push(c));
        lemma_escape_snoc(s.drop_first(), c);
        assert(spec_escape(s.push(c)) =~= spec_escape(s) + escape_char(c));
    }
}

} // verus!
