//! The wire format of the request bodies the service expects.
//!
//! The client sends two JSON bodies: the create body
//! `{"description":...,"public":...,"files":{...}}` and the login body
//! `{"scopes":["gist"],"note":...,"note_url":...}`.  Both are built here
//! character by character against spec functions that state the exact text,
//! including the escaping of quotes, backslashes and control characters
//! inside JSON strings.

use vstd::prelude::*;

verus! {

/// Relies on String::push: appends exactly the one character.
#[verifier::external_body]
fn push_char(s: &mut String, c: char)
    ensures
        final(s)@ == old(s)@ + seq![c],
{
    s.push(c);
}

/// The lower-case hexadecimal digit for a value below sixteen.
pub open spec fn hex_char(n: int) -> char {
    if n < 10 {
        ((48 + n) as u8) as char
    } else {
        ((87 + n) as u8) as char
    }
}

fn hex_char_exec(n: u8) -> (c: char)
    requires
        n < 16,
    ensures
        c == hex_char(n as int),
{
    if n < 10 {
        (48 + n) as char
    } else {
        (87 + n) as char
    }
}

/// How one character appears inside a JSON string: quotes and backslashes
/// are escaped, the named control characters take their short escapes, the
/// remaining control characters take a hexadecimal escape, and every other
/// character stands as itself.
pub open spec fn escape_char(c: char) -> Seq<char> {
    if c == '"' {
        seq!['\\', '"']
    } else if c == '\\' {
        seq!['\\', '\\']
    } else if c == '\u{8}' {
        seq!['\\', 'b']
    } else if c == '\u{c}' {
        seq!['\\', 'f']
    } else if c == '\n' {
        seq!['\\', 'n']
    } else if c == '\r' {
        seq!['\\', 'r']
    } else if c == '\t' {
        seq!['\\', 't']
    } else if (c as u32) < 32 {
        seq!['\\', 'u', '0', '0', hex_char(c as u32 as int / 16), hex_char(c as u32 as int % 16)]
    } else {
        seq![c]
    }
}

/// A whole text with every character escaped.
pub open spec fn escape_seq(s: Seq<char>) -> Seq<char>
    decreases s.len(),
{
    if s.len() == 0 {
        Seq::empty()
    } else {
        escape_char(s[0]) + escape_seq(s.drop_first())
    }
}

/// A JSON string literal: the escaped text between double quotes.
pub open spec fn json_string(s: Seq<char>) -> Seq<char> {
    seq!['"'] + escape_seq(s) + seq!['"']
}

proof fn lemma_escape_seq_push(s: Seq<char>, c: char)
    ensures
        escape_seq(s.push(c)) =~= escape_seq(s) + escape_char(c),
    decreases s.len(),
{
    if s.len() == 0 {
        assert(s.push(c)[0] == c);
        assert(s.push(c).drop_first() =~= Seq::<char>::empty());
        assert(escape_seq(s.push(c)) == escape_char(c) + escape_seq(Seq::<char>::empty()));
        assert(escape_seq(Seq::<char>::empty()) == Seq::<char>::empty());
        assert(escape_seq(s) == Seq::<char>::empty());
    } else {
        assert(s.push(c)[0] == s[0]);
        assert(s.push(c).drop_first() =~= s.drop_first().push(c));
        lemma_escape_seq_push(s.drop_first(), c);
        assert(escape_seq(s.push(c)) == escape_char(s[0]) + escape_seq(s.drop_first().push(c)));
        assert(escape_seq(s) == escape_char(s[0]) + escape_seq(s.drop_first()));
    }
}

fn write_escaped_char(out: &mut String, c: char)
    ensures
        final(out)@ == old(out)@ + escape_char(c),
{
    if c == '"' {
        push_char(out, '\\');
        push_char(out, '"');
        proof {
            assert(out@ =~= old(out)@ + escape_char(c));
        }
    } else if c == '\\' {
        push_char(out, '\\');
        push_char(out, '\\');
        proof {
            assert(out@ =~= old(out)@ + escape_char(c));
        }
    } else if c == '\u{8}' {
        push_char(out, '\\');
        push_char(out, 'b');
        proof {
            assert(out@ =~= old(out)@ + escape_char(c));
        }
    } else if c == '\u{c}' {
        push_char(out, '\\');
        push_char(out, 'f');
        proof {
            assert(out@ =~= old(out)@ + escape_char(c));
        }
    } else if c == '\n' {
        push_char(out, '\\');
        push_char(out, 'n');
        proof {
            assert(out@ =~= old(out)@ + escape_char(c));
        }
    } else if c == '\r' {
        push_char(out, '\\');
        push_char(out, 'r');
        proof {
            assert(out@ =~= old(out)@ + escape_char(c));
        }
    } else if c == '\t' {
        push_char(out, '\\');
        push_char(out, 't');
        proof {
            assert(out@ =~= old(out)@ + escape_char(c));
        }
    } else if (c as u32) < 32 {
        let code = c as u32;
        push_char(out, '\\');
        push_char(out, 'u');
        push_char(out, '0');
        push_char(out, '0');
        let h = hex_char_exec((code / 16) as u8);
        let l = hex_char_exec((code % 16) as u8);
        push_char(out, h);
        push_char(out, l);
        proof {
            assert(out@ =~= old(out)@ + escape_char(c));
        }
    } else {
        push_char(out, c);
        proof {
            assert(out@ =~= old(out)@ + escape_char(c));
        }
    }
}

/// Appends the JSON string literal for the given text.
pub fn write_json_string(out: &mut String, s: &str)
    ensures
        final(out)@ == old(out)@ + json_string(s@),
{
    push_char(out, '"');
    let n = s.unicode_len();
    let mut i: usize = 0;
    while i < n
        invariant
            i <= n,
            n == s@.len(),
            out@ == old(out)@ + seq!['"'] + escape_seq(s@.subrange(0, i as int)),
        decreases n - i,
    {
        let c = s.get_char(i);
        write_escaped_char(out, c);
        proof {
            assert(s@.subrange(0, i as int + 1) =~= s@.subrange(0, i as int).push(s@[i as int]));
            lemma_escape_seq_push(s@.subrange(0, i as int), s@[i as int]);
        }
        i += 1;
    }
    proof {
        assert(s@.subrange(0, n as int) =~= s@);
    }
    push_char(out, '"');
    proof {
        assert(out@ =~= old(out)@ + json_string(s@));
    }
}

/// The JSON string literal for the given text, on its own.
pub fn json_string_of(s: &str) -> (r: String)
    ensures
        r@ == json_string(s@),
{
    let mut out = String::new();
    write_json_string(&mut out, s);
    out
}

/// The JSON spelling of a boolean.
pub open spec fn bool_lit(b: bool) -> Seq<char> {
    if b {
        "true"@
    } else {
        "false"@
    }
}

/// One entry of the create body's files object: `"name":{"content":"..."}`.
pub open spec fn file_entry(name: Seq<char>, content: Seq<char>) -> Seq<char> {
    json_string(name) + ":{\"content\":"@ + json_string(content) + "}"@
}

/// Every entry after the first, each preceded by its comma.
pub open spec fn rest_entries(files: Seq<(String, String)>) -> Seq<char>
    decreases files.len(),
{
    if files.len() == 0 {
        Seq::empty()
    } else {
        ","@ + file_entry(files[0].0@, files[0].1@) + rest_entries(files.drop_first())
    }
}

/// The inside of the create body's files object, the entries in request
/// order, separated by commas.
pub open spec fn files_obj(files: Seq<(String, String)>) -> Seq<char> {
    if files.len() == 0 {
        Seq::empty()
    } else {
        file_entry(files[0].0@, files[0].1@) + rest_entries(files.drop_first())
    }
}

proof fn lemma_rest_entries_push(files: Seq<(String, String)>, p: (String, String))
    ensures
        rest_entries(files.push(p)) =~= rest_entries(files) + ","@ + file_entry(p.0@, p.1@),
    decreases files.len(),
{
    if files.len() == 0 {
        assert(files.push(p)[0] == p);
        assert(files.push(p).drop_first() =~= Seq::<(String, String)>::empty());
        assert(rest_entries(files.push(p)) == ","@ + file_entry(p.0@, p.1@) + rest_entries(
            Seq::<(String, String)>::empty(),
        ));
        assert(rest_entries(Seq::<(String, String)>::empty()) == Seq::<char>::empty());
        assert(rest_entries(files) == Seq::<char>::empty());
    } else {
        assert(files.push(p)[0] == files[0]);
        assert(files.push(p).drop_first() =~= files.drop_first().push(p));
        lemma_rest_entries_push(files.drop_first(), p);
        assert(rest_entries(files.push(p)) == ","@ + file_entry(files[0].0@, files[0].1@)
            + rest_entries(files.drop_first().push(p)));
        assert(rest_entries(files) == ","@ + file_entry(files[0].0@, files[0].1@) + rest_entries(
            files.drop_first(),
        ));
    }
}

proof fn lemma_files_obj_push(files: Seq<(String, String)>, p: (String, String))
    ensures
        files.len() == 0 ==> files_obj(files.push(p)) =~= file_entry(p.0@, p.1@),
        files.len() > 0 ==> files_obj(files.push(p)) =~= files_obj(files) + ","@ + file_entry(
            p.0@,
            p.1@,
        ),
{
    if files.len() == 0 {
        assert(files.push(p)[0] == p);
        assert(files.push(p).drop_first() =~= Seq::<(String, String)>::empty());
    } else {
        assert(files.push(p)[0] == files[0]);
        assert(files.push(p).drop_first() =~= files.drop_first().push(p));
        lemma_rest_entries_push(files.drop_first(), p);
    }
}

fn write_file_entry(out: &mut String, name: &str, content: &str)
    ensures
        final(out)@ == old(out)@ + file_entry(name@, content@),
{
    write_json_string(out, name);
    out.append(":{\"content\":");
    write_json_string(out, content);
    out.append("}");
    proof {
        assert(out@ =~= old(out)@ + file_entry(name@, content@));
    }
}

/// The create body: description, visibility, and each file's content, in the
/// given order.
pub open spec fn create_body(description: Seq<char>, public: bool, files: Seq<(String, String)>) -> Seq<
    char,
> {
    "{\"description\":"@ + json_string(description) + ",\"public\":"@ + bool_lit(public)
        + ",\"files\":{"@ + files_obj(files) + "}}"@
}

/// Builds the create body from the description, the visibility flag and the
/// filename-to-content pairs.
pub fn build_create_body(description: &str, public: bool, files: &Vec<(String, String)>) -> (r:
    String)
    ensures
        r@ == create_body(description@, public, files@),
{
    let mut out = String::new();
    out.append("{\"description\":");
    write_json_string(&mut out, description);
    out.append(",\"public\":");
    if public {
        out.append("true");
    } else {
        out.append("false");
    }
    out.append(",\"files\":{");
    let ghost prefix = out@;
    let n = files.len();
    let mut i: usize = 0;
    while i < n
        invariant
            i <= n,
            n == files@.len(),
            out@ == prefix + files_obj(files@.subrange(0, i as int)),
        decreases n - i,
    {
        if i > 0 {
            out.append(",");
        }
        write_file_entry(&mut out, files[i].0.as_str(), files[i].1.as_str());
        proof {
            assert(files@.subrange(0, i as int + 1) =~= files@.subrange(0, i as int).push(
                files@[i as int],
            ));
            lemma_files_obj_push(files@.subrange(0, i as int), files@[i as int]);
        }
        i += 1;
    }
    proof {
        assert(files@.subrange(0, n as int) =~= files@);
    }
    out.append("}}");
    proof {
        assert(out@ =~= create_body(description@, public, files@));
    }
    out
}

/// The note the login request carries: the client's name and a fresh nonce.
pub open spec fn login_note(nonce: Seq<char>) -> Seq<char> {
    "gistr cli tool "@ + nonce
}

/// Builds the login note from a nonce.
pub fn make_login_note(nonce: &str) -> (r: String)
    ensures
        r@ == login_note(nonce@),
{
    let mut out = "gistr cli tool ".to_owned();
    out.append(nonce);
    out
}

/// The login body: the gist scope, the note, and the client's note URL.
pub open spec fn login_body(note: Seq<char>) -> Seq<char> {
    "{\"scopes\":[\"gist\"],\"note\":"@ + json_string(note)
        + ",\"note_url\":\"https://github.com/alicanerdogan/gistr\"}"@
}

/// Builds the login body around the given note.
pub fn build_login_body(note: &str) -> (r: String)
    ensures
        r@ == login_body(note@),
{
    let mut out = String::new();
    out.append("{\"scopes\":[\"gist\"],\"note\":");
    write_json_string(&mut out, note);
    out.append(",\"note_url\":\"https://github.com/alicanerdogan/gistr\"}");
    proof {
        assert(out@ =~= login_body(note@));
    }
    out
}

} // verus!
