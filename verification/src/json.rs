//! JSON framing of request bodies.
//!
//! The client sends every request as one JSON object. This module states,
//! character by character, what goes on the wire: how a string is escaped,
//! how the variables object of the issue-creation mutation is laid out, and
//! how the `{query, variables?}` envelope is framed.

use vstd::prelude::*;

use crate::types::GraphQLRequest;
use crate::types::IssueCreateInput;

verus! {

/// The hexadecimal digit for a value below sixteen.
pub open spec fn hex_digit_char(n: int) -> char {
    if n == 0 {
        '0'
    } else if n == 1 {
        '1'
    } else if n == 2 {
        '2'
    } else if n == 3 {
        '3'
    } else if n == 4 {
        '4'
    } else if n == 5 {
        '5'
    } else if n == 6 {
        '6'
    } else if n == 7 {
        '7'
    } else if n == 8 {
        '8'
    } else if n == 9 {
        '9'
    } else if n == 10 {
        'a'
    } else if n == 11 {
        'b'
    } else if n == 12 {
        'c'
    } else if n == 13 {
        'd'
    } else if n == 14 {
        'e'
    } else {
        'f'
    }
}

/// How one character appears inside a JSON string literal: quote and
/// backslash get a backslash escape, control characters a `\u00XX` escape,
/// every other character stands as itself.
pub open spec fn escaped_char(c: char) -> Seq<char> {
    if c == '"' {
        seq!['\\', '"']
    } else if c == '\\' {
        seq!['\\', '\\']
    } else if (c as u32) < 32 {
        seq!['\\', 'u', '0', '0', hex_digit_char(c as int / 16), hex_digit_char(c as int % 16)]
    } else {
        seq![c]
    }
}

/// The escaped form of a whole string, character by character.
pub open spec fn json_escaped(s: Seq<char>) -> Seq<char>
    decreases s.len(),
{
    if s.len() == 0 {
        Seq::empty()
    } else {
        escaped_char(s[0]) + json_escaped(s.skip(1))
    }
}

/// A JSON string literal: the escaped contents between double quotes.
pub open spec fn json_string(s: Seq<char>) -> Seq<char> {
    seq!['"'] + json_escaped(s) + seq!['"']
}

/// An optional field value: a JSON string when present, `null` when absent.
pub open spec fn json_opt_string(v: Option<Seq<char>>) -> Seq<char> {
    match v {
        Some(s) => json_string(s),
        None => seq!['n', 'u', 'l', 'l'],
    }
}

/// Escaping a string one character longer escapes the new character at the
/// end.
proof fn lemma_json_escaped_push(s: Seq<char>, c: char)
    ensures
        json_escaped(s.push(c)) == json_escaped(s) + escaped_char(c),
    decreases s.len(),
{
    if s.len() == 0 {
        assert(s.push(c)[0] == c);
        assert(s.push(c).skip(1) =~= Seq::<char>::empty());
        assert(json_escaped(Seq::<char>::empty()) == Seq::<char>::empty());
        assert(json_escaped(s.push(c)) == escaped_char(c) + Seq::<char>::empty());
        assert(escaped_char(c) + Seq::<char>::empty() =~= Seq::<char>::empty() + escaped_char(c));
        assert(s =~= Seq::<char>::empty());
    } else {
        assert(s.push(c)[0] == s[0]);
        assert(s.push(c).skip(1) =~= s.skip(1).push(c));
        lemma_json_escaped_push(s.skip(1), c);
        assert(json_escaped(s.push(c)) == escaped_char(s[0]) + (json_escaped(s.skip(1))
            + escaped_char(c)));
        assert(escaped_char(s[0]) + (json_escaped(s.skip(1)) + escaped_char(c)) =~= (escaped_char(
            s[0],
        ) + json_escaped(s.skip(1))) + escaped_char(c));
    }
}

/// Relies on std's String::push: it appends the given character to the end
/// of the string.
#[verifier::external_body]
fn push_char(s: &mut String, c: char)
    ensures
        final(s)@ == old(s)@.push(c),
{
    s.push(c)
}

/// The hexadecimal digit for a value below sixteen.
fn hex_digit(n: u8) -> (c: char)
    requires
        n < 16,
    ensures
        c == hex_digit_char(n as int),
{
    match n {
        0 => '0',
        1 => '1',
        2 => '2',
        3 => '3',
        4 => '4',
        5 => '5',
        6 => '6',
        7 => '7',
        8 => '8',
        9 => '9',
        10 => 'a',
        11 => 'b',
        12 => 'c',
        13 => 'd',
        14 => 'e',
        _ => 'f',
    }
}

/// Escapes a string for use inside a JSON string literal.
pub fn json_escape(s: &str) -> (r: String)
    ensures
        r@ == json_escaped(s@),
{
    let n: usize = s.unicode_len();
    let mut r = String::new();
    let mut i: usize = 0;
    while i < n
        invariant
            n == s@.len(),
            i <= n,
            r@ == json_escaped(s@.take(i as int)),
        decreases n - i,
    {
        let c = s.get_char(i);
        if c == '"' {
            push_char(&mut r, '\\');
            push_char(&mut r, '"');
        } else if c == '\\' {
            push_char(&mut r, '\\');
            push_char(&mut r, '\\');
        } else if (c as u32) < 32 {
            push_char(&mut r, '\\');
            push_char(&mut r, 'u');
            push_char(&mut r, '0');
            push_char(&mut r, '0');
            let code: u32 = c as u32;
            let hi = hex_digit((code / 16) as u8);
            let lo = hex_digit((code % 16) as u8);
            push_char(&mut r, hi);
            push_char(&mut r, lo);
        } else {
            push_char(&mut r, c);
        }
        proof {
            lemma_json_escaped_push(s@.take(i as int), s@[i as int]);
            assert(s@.take(i as int).push(s@[i as int]) =~= s@.take(i + 1 as int));
            assert(r@ =~= json_escaped(s@.take(i + 1 as int)));
        }
        i = i + 1;
    }
    proof {
        assert(s@.take(n as int) =~= s@);
    }
    r
}

/// Renders a JSON string literal: the escaped contents between quotes.
pub fn render_json_string(s: &str) -> (r: String)
    ensures
        r@ == json_string(s@),
{
    let mut r = String::new();
    push_char(&mut r, '"');
    let escaped = json_escape(s);
    r.append(escaped.as_str());
    push_char(&mut r, '"');
    proof {
        assert(r@ =~= json_string(s@));
    }
    r
}

/// Renders an optional field value: a JSON string when present, `null`
/// when absent.
pub fn render_json_opt_string(v: &Option<String>) -> (r: String)
    ensures
        r@ == json_opt_string(v.deep_view()),
{
    match v {
        Some(s) => render_json_string(s.as_str()),
        None => {
            let mut r = String::new();
            push_char(&mut r, 'n');
            push_char(&mut r, 'u');
            push_char(&mut r, 'l');
            push_char(&mut r, 'l');
            proof {
                assert(r@ =~= seq!['n', 'u', 'l', 'l']);
            }
            r
        },
    }
}

/// The variables object of the issue-creation mutation: one `input` object
/// whose four fields are always present, the optional ones as `null`.
pub open spec fn issue_create_variables(
    team_id: Seq<char>,
    project_id: Option<Seq<char>>,
    title: Seq<char>,
    description: Option<Seq<char>>,
) -> Seq<char> {
    "{\"input\":{\"teamId\":"@ + json_string(team_id) + ",\"projectId\":"@ + json_opt_string(
        project_id,
    ) + ",\"title\":"@ + json_string(title) + ",\"description\":"@ + json_opt_string(description)
        + "}}"@
}

/// Renders the variables object of the issue-creation mutation.
pub fn render_issue_create_variables(input: &IssueCreateInput) -> (r: String)
    ensures
        r@ == issue_create_variables(
            input.team_id@,
            input.project_id.deep_view(),
            input.title@,
            input.description.deep_view(),
        ),
{
    let mut r = String::new();
    r.append("{\"input\":{\"teamId\":");
    let team = render_json_string(input.team_id.as_str());
    r.append(team.as_str());
    r.append(",\"projectId\":");
    let project = render_json_opt_string(&input.project_id);
    r.append(project.as_str());
    r.append(",\"title\":");
    let title = render_json_string(input.title.as_str());
    r.append(title.as_str());
    r.append(",\"description\":");
    let description = render_json_opt_string(&input.description);
    r.append(description.as_str());
    r.append("}}");
    proof {
        assert(r@ =~= issue_create_variables(
            input.team_id@,
            input.project_id.deep_view(),
            input.title@,
            input.description.deep_view(),
        ));
    }
    r
}

/// The request body: the operation text under `query`, and the variables
/// object under `variables` only when the operation has any.
pub open spec fn request_body(query: Seq<char>, variables: Option<Seq<char>>) -> Seq<char> {
    match variables {
        Some(v) => "{\"query\":"@ + json_string(query) + ",\"variables\":"@ + v + "}"@,
        None => "{\"query\":"@ + json_string(query) + "}"@,
    }
}

/// Renders the body of one request as it goes on the wire.
pub fn render_request_body(req: &GraphQLRequest) -> (r: String)
    ensures
        r@ == request_body(req.query@, req.variables.deep_view()),
{
    let mut r = String::new();
    r.append("{\"query\":");
    let query = render_json_string(req.query.as_str());
    r.append(query.as_str());
    match &req.variables {
        Some(v) => {
            r.append(",\"variables\":");
            r.append(v.as_str());
        },
        None => {},
    }
    r.append("}");
    proof {
        assert(r@ =~= request_body(req.query@, req.variables.deep_view()));
    }
    r
}

} // verus!
