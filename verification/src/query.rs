//! The query builder: a filter query assembled from a time window, a result
//! limit and two optional substring filters whose values are escaped.

use crate::text::{decimal, push_decimal};
use vstd::prelude::*;

verus! {

/// The characters that may not stand for themselves inside a quoted filter value.
pub open spec fn is_special(c: char) -> bool {
    c == '\\' || c == '"' || c == '\n' || c == '\r' || c == '\t'
}

/// The characters that may follow a backslash inside a quoted filter value.
pub open spec fn is_escape_code(c: char) -> bool {
    c == '\\' || c == '"' || c == 'n' || c == 'r' || c == 't'
}

/// What one character of a filter value is written as.
pub open spec fn escape_char(c: char) -> Seq<char> {
    if c == '\\' {
        seq!['\\', '\\']
    } else if c == '"' {
        seq!['\\', '"']
    } else if c == '\n' {
        seq!['\\', 'n']
    } else if c == '\r' {
        seq!['\\', 'r']
    } else if c == '\t' {
        seq!['\\', 't']
    } else {
        seq![c]
    }
}

/// What a filter value is written as: each character by `escape_char`, in order.
pub open spec fn escape(s: Seq<char>) -> Seq<char>
    decreases s.len(),
{
    if s.len() == 0 {
        Seq::empty()
    } else {
        escape_char(s[0]) + escape(s.skip(1))
    }
}

/// Escaping a text with one more character at its end appends that character's
/// escaped form.
pub proof fn lemma_escape_push(s: Seq<char>, c: char)
    ensures
        escape(s.push(c)) == escape(s) + escape_char(c),
    decreases s.len(),
{
    if s.len() == 0 {
        assert(s.push(c).skip(1) =~= Seq::<char>::empty());
        assert(escape(s.push(c).skip(1)) =~= Seq::<char>::empty());
        assert(escape(s.push(c)) =~= escape(s) + escape_char(c));
    } else {
        assert(s.push(c).skip(1) =~= s.skip(1).push(c));
        lemma_escape_push(s.skip(1), c);
        assert(escape(s.push(c)) =~= escape(s) + escape_char(c));
    }
}

/// A text in which no special character stands for itself: read from the
/// left, it is made of characters that are not special and of pairs of a
/// backslash and an escape code.
pub open spec fn is_escaped(t: Seq<char>) -> bool
    decreases t.len(),
{
    if t.len() == 0 {
        true
    } else if t[0] == '\\' {
        t.len() >= 2 && is_escape_code(t[1]) && is_escaped(t.skip(2))
    } else {
        !is_special(t[0]) && is_escaped(t.skip(1))
    }
}

/// The character that an escape code stands for.
pub open spec fn unescape_code(c: char) -> char {
    if c == 'n' {
        '\n'
    } else if c == 'r' {
        '\r'
    } else if c == 't' {
        '\t'
    } else {
        c
    }
}

/// The value that an escaped text stands for: each pair of a backslash and a
/// code read as one character, every other character as itself.
pub open spec fn unescape(t: Seq<char>) -> Seq<char>
    decreases t.len(),
{
    if t.len() == 0 {
        Seq::empty()
    } else if t[0] == '\\' && t.len() >= 2 {
        seq![unescape_code(t[1])] + unescape(t.skip(2))
    } else {
        seq![t[0]] + unescape(t.skip(1))
    }
}

/// Where a quoted value ends: the position of the first double quote that no
/// backslash escapes, or the length of the text if there is none.
pub open spec fn closing_quote(t: Seq<char>) -> int
    decreases t.len(),
{
    if t.len() == 0 {
        0
    } else if t[0] == '"' {
        0
    } else if t[0] == '\\' && t.len() >= 2 {
        2 + closing_quote(t.skip(2))
    } else {
        1 + closing_quote(t.skip(1))
    }
}

proof fn lemma_escape_char_then(c: char, rest: Seq<char>)
    ensures
        is_special(c) ==> {
            let t = escape_char(c) + rest;
            &&& t.len() >= 2
            &&& t[0] == '\\'
            &&& is_escape_code(t[1])
            &&& unescape_code(t[1]) == c
            &&& t.skip(2) == rest
        },
        !is_special(c) ==> {
            let t = escape_char(c) + rest;
            &&& t.len() >= 1
            &&& t[0] == c
            &&& t.skip(1) == rest
        },
{
    let t = escape_char(c) + rest;
    if is_special(c) {
        assert(t.skip(2) =~= rest);
    } else {
        assert(t.skip(1) =~= rest);
    }
}

/// Escaping leaves no special character standing for itself: every
/// backslash, double quote, newline, carriage return and tab of a filter value
/// is written as a backslash and a code, and the three control characters do
/// not occur in the result at all.
pub proof fn lemma_escape_is_escaped(value: Seq<char>)
    ensures
        is_escaped(escape(value)),
        forall|i: int|
            0 <= i < escape(value).len() ==> {
                let c = #[trigger] escape(value)[i];
                c != '\n' && c != '\r' && c != '\t'
            },
    decreases value.len(),
{
    if value.len() > 0 {
        let rest = escape(value.skip(1));
        lemma_escape_is_escaped(value.skip(1));
        lemma_escape_char_then(value[0], rest);
        let t = escape(value);
        let head = escape_char(value[0]);
        assert forall|i: int| 0 <= i < t.len() implies {
            let c = #[trigger] t[i];
            c != '\n' && c != '\r' && c != '\t'
        } by {
            if i >= head.len() {
                assert(t[i] == rest[i - head.len()]);
            }
        }
    }
}

/// Escaping loses nothing: the escaped text stands for the value it was made from,
/// so two different values never have the same escaped text.
pub proof fn lemma_unescape_escape(value: Seq<char>)
    ensures
        unescape(escape(value)) == value,
    decreases value.len(),
{
    if value.len() > 0 {
        lemma_unescape_escape(value.skip(1));
        lemma_escape_char_then(value[0], escape(value.skip(1)));
        assert(seq![value[0]] + value.skip(1) =~= value);
    }
}

/// A filter value cannot end its own quotes: in the escaped value followed
/// by a double quote and any further text, the first double quote that no
/// backslash escapes is the one that follows the value.
pub proof fn lemma_value_stays_quoted(value: Seq<char>, after: Seq<char>)
    ensures
        closing_quote(escape(value) + seq!['"'] + after) == escape(value).len(),
    decreases value.len(),
{
    let tail = seq!['"'] + after;
    assert(escape(value) + seq!['"'] + after =~= escape(value) + tail);
    if value.len() == 0 {
        assert(escape(value) + tail =~= tail);
    } else {
        let rest = escape(value.skip(1));
        lemma_value_stays_quoted(value.skip(1), after);
        assert(rest + seq!['"'] + after =~= rest + tail);
        lemma_escape_char_then(value[0], rest + tail);
        assert(escape(value) + tail =~= escape_char(value[0]) + (rest + tail));
    }
}

fn push_escaped(out: &mut String, c: char)
    ensures
        final(out)@ == old(out)@ + escape_char(c),
{
    if c == '\\' {
        out.push('\\');
        out.push('\\');
    } else if c == '"' {
        out.push('\\');
        out.push('"');
    } else if c == '\n' {
        out.push('\\');
        out.push('n');
    } else if c == '\r' {
        out.push('\\');
        out.push('r');
    } else if c == '\t' {
        out.push('\\');
        out.push('t');
    } else {
        out.push(c);
    }
    assert(out@ =~= old(out)@ + escape_char(c));
}

/// Escapes a filter value for use between double quotes in a query.
pub fn escape_kql_string(s: &str) -> (out: String)
    ensures
        out@ == escape(s@),
{
    let mut out = String::new();
    for c in it: s.chars()
        invariant
            it.seq() == s@,
            out@ == escape(s@.take(it.index())),
    {
        proof {
            let i = it.index();
            assert(s@.take(i + 1) =~= s@.take(i).push(c));
            lemma_escape_push(s@.take(i), c);
        }
        push_escaped(&mut out, c);
    }
    assert(s@.take(s@.len() as int) =~= s@);
    out
}

/// A filter as contracts see it: the characters of its value, if it is present.
pub open spec fn filter_view(filter: Option<&str>) -> Option<Seq<char>> {
    match filter {
        Some(value) => Some(value@),
        None => None,
    }
}

/// The clause that keeps the exceptions of one type; nothing where no type is asked for.
pub open spec fn type_clause(filter: Option<Seq<char>>) -> Seq<char> {
    match filter {
        Some(value) => "| where type == \""@ + escape(value) + "\""@,
        None => Seq::empty(),
    }
}

/// The clause that keeps the exceptions whose message contains a text; nothing
/// where no text is asked for.
pub open spec fn message_clause(filter: Option<Seq<char>>) -> Seq<char> {
    match filter {
        Some(value) => "| where outerMessage contains \""@ + escape(value) + "\""@,
        None => Seq::empty(),
    }
}

/// The whole query: the source table, the time window, the two filter
/// clauses in sequence, the four projected fields, the descending order by
/// timestamp and the limit, one stage per line.
pub open spec fn query_text(
    hours: nat,
    limit: nat,
    type_filter: Option<Seq<char>>,
    message_filter: Option<Seq<char>>,
) -> Seq<char> {
    "\n        exceptions\n        | where timestamp > ago("@ + decimal(hours) + "h)\n        "@
        + type_clause(type_filter) + "\n        "@ + message_clause(message_filter)
        + "\n        | project timestamp, type, outerMessage, operation_Name\n        | order by timestamp desc\n        | limit "@
        + decimal(limit) + "\n        "@
}

/// The value that a filter clause holds between its quotes: what follows
/// the `opening` of the clause, up to the first double quote that no backslash
/// escapes.
pub open spec fn quoted_value(clause: Seq<char>, opening: Seq<char>) -> Seq<char> {
    let quoted = clause.skip(opening.len() as int);
    quoted.take(closing_quote(quoted))
}

proof fn lemma_quoted_value(opening: Seq<char>, value: Seq<char>)
    ensures
        ({
            let clause = opening + escape(value) + "\""@;
            &&& clause.take(opening.len() as int) == opening
            &&& clause.len() == opening.len() + escape(value).len() + 1
            &&& clause.last() == '"'
            &&& quoted_value(clause, opening) == escape(value)
        }),
{
    reveal_strlit("\"");
    let close = "\""@;
    let clause = opening + escape(value) + close;
    assert(close =~= seq!['"']);
    assert(clause.take(opening.len() as int) =~= opening);
    let quoted = clause.skip(opening.len() as int);
    assert(quoted =~= escape(value) + seq!['"'] + Seq::<char>::empty());
    lemma_value_stays_quoted(value, Seq::empty());
    assert(quoted.take(escape(value).len() as int) =~= escape(value));
}

/// The clause for a type holds its value escaped and nothing else between
/// its quotes: it opens with the comparison, the text up to the first double
/// quote that no backslash escapes is the escaped value, which stands for the
/// value and has no special character standing for itself, and that quote is
/// the last character of the clause.
pub proof fn lemma_type_clause_holds_escaped_value(value: Seq<char>)
    ensures
        ({
            let clause = type_clause(Some(value));
            let opening = "| where type == \""@;
            &&& clause.take(opening.len() as int) == opening
            &&& clause.len() == opening.len() + escape(value).len() + 1
            &&& clause.last() == '"'
            &&& quoted_value(clause, opening) == escape(value)
            &&& is_escaped(quoted_value(clause, opening))
            &&& unescape(quoted_value(clause, opening)) == value
        }),
{
    lemma_quoted_value("| where type == \""@, value);
    lemma_escape_is_escaped(value);
    lemma_unescape_escape(value);
}

/// The clause for a message text holds its value escaped and nothing else
/// between its quotes, as the clause for a type does.
pub proof fn lemma_message_clause_holds_escaped_value(value: Seq<char>)
    ensures
        ({
            let clause = message_clause(Some(value));
            let opening = "| where outerMessage contains \""@;
            &&& clause.take(opening.len() as int) == opening
            &&& clause.len() == opening.len() + escape(value).len() + 1
            &&& clause.last() == '"'
            &&& quoted_value(clause, opening) == escape(value)
            &&& is_escaped(quoted_value(clause, opening))
            &&& unescape(quoted_value(clause, opening)) == value
        }),
{
    lemma_quoted_value("| where outerMessage contains \""@, value);
    lemma_escape_is_escaped(value);
    lemma_unescape_escape(value);
}

fn push_type_clause(q: &mut String, filter: Option<&str>)
    ensures
        final(q)@ == old(q)@ + type_clause(filter_view(filter)),
{
    match filter {
        Some(value) => {
            let escaped = escape_kql_string(value);
            q.append("| where type == \"");
            q.append(escaped.as_str());
            q.append("\"");
            assert(q@ =~= old(q)@ + type_clause(filter_view(filter)));
        },
        None => {
            assert(q@ =~= old(q)@ + type_clause(filter_view(filter)));
        },
    }
}

fn push_message_clause(q: &mut String, filter: Option<&str>)
    ensures
        final(q)@ == old(q)@ + message_clause(filter_view(filter)),
{
    match filter {
        Some(value) => {
            let escaped = escape_kql_string(value);
            q.append("| where outerMessage contains \"");
            q.append(escaped.as_str());
            q.append("\"");
            assert(q@ =~= old(q)@ + message_clause(filter_view(filter)));
        },
        None => {
            assert(q@ =~= old(q)@ + message_clause(filter_view(filter)));
        },
    }
}

/// Builds the query for the exceptions of the last `hours` hours, at most
/// `limit` of them, newest first. Neither number is checked: zero is written
/// out like any other value.
pub fn build_query(
    hours: u32,
    limit: u32,
    exception_type: Option<&str>,
    exception_message: Option<&str>,
) -> (q: String)
    ensures
        q@ == query_text(
            hours as nat,
            limit as nat,
            filter_view(exception_type),
            filter_view(exception_message),
        ),
{
    let mut q = String::new();
    q.append("\n        exceptions\n        | where timestamp > ago(");
    push_decimal(&mut q, hours as u64);
    q.append("h)\n        ");
    push_type_clause(&mut q, exception_type);
    q.append("\n        ");
    push_message_clause(&mut q, exception_message);
    q.append(
        "\n        | project timestamp, type, outerMessage, operation_Name\n        | order by timestamp desc\n        | limit ",
    );
    push_decimal(&mut q, limit as u64);
    q.append("\n        ");
    assert(q@ =~= query_text(
        hours as nat,
        limit as nat,
        filter_view(exception_type),
        filter_view(exception_message),
    ));
    q
}

} // verus!
