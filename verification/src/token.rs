//! The token store: a model of the single token file and the trimming that
//! reading it performs.
//!
//! The process persists one access token in a fixed dotfile.  The store here
//! holds the file's contents as a plain value; the surrounding process loads
//! the real file into it and writes its contents back out.  Reading trims
//! surrounding whitespace, writing replaces the contents whole.

use vstd::prelude::*;

verus! {

/// Whitespace as the token store trims it: the Unicode White_Space set, the
/// characters that char::is_whitespace accepts.
pub open spec fn is_ws_char(c: char) -> bool {
    (9 <= c as u32 && c as u32 <= 13) || c == ' ' || c as u32 == 0x85 || c as u32 == 0xA0
        || c as u32 == 0x1680 || (0x2000 <= c as u32 && c as u32 <= 0x200A) || c as u32 == 0x2028
        || c as u32 == 0x2029 || c as u32 == 0x202F || c as u32 == 0x205F || c as u32 == 0x3000
}

/// The sequence with its leading whitespace removed.
pub open spec fn drop_leading_ws(s: Seq<char>) -> Seq<char>
    decreases s.len(),
{
    if s.len() > 0 && is_ws_char(s[0]) {
        drop_leading_ws(s.drop_first())
    } else {
        s
    }
}

/// The sequence with its trailing whitespace removed.
pub open spec fn drop_trailing_ws(s: Seq<char>) -> Seq<char>
    decreases s.len(),
{
    if s.len() > 0 && is_ws_char(s[s.len() - 1]) {
        drop_trailing_ws(s.drop_last())
    } else {
        s
    }
}

/// The sequence with whitespace removed from both ends.
pub open spec fn trim_spec(s: Seq<char>) -> Seq<char> {
    drop_trailing_ws(drop_leading_ws(s))
}

fn is_ws(c: char) -> (r: bool)
    ensures
        r == is_ws_char(c),
{
    let u = c as u32;
    (9 <= u && u <= 13) || c == ' ' || u == 0x85 || u == 0xA0 || u == 0x1680 || (0x2000 <= u && u
        <= 0x200A) || u == 0x2028 || u == 0x2029 || u == 0x202F || u == 0x205F || u == 0x3000
}

proof fn lemma_drop_leading_at(s: Seq<char>, i: int)
    requires
        0 <= i <= s.len(),
        forall|k: int| 0 <= k < i ==> is_ws_char(s[k]),
        i < s.len() ==> !is_ws_char(s[i]),
    ensures
        drop_leading_ws(s) =~= s.subrange(i, s.len() as int),
    decreases i,
{
    if i == 0 {
        assert(s.subrange(0, s.len() as int) =~= s);
    } else {
        let t = s.drop_first();
        assert(forall|k: int| 0 <= k < i - 1 ==> is_ws_char(#[trigger] t[k])) by {
            assert(forall|k: int| 0 <= k < i - 1 ==> t[k] == s[k + 1]);
        }
        lemma_drop_leading_at(t, i - 1);
        assert(t.subrange(i - 1, t.len() as int) =~= s.subrange(i, s.len() as int));
    }
}

proof fn lemma_drop_trailing_at(s: Seq<char>, j: int)
    requires
        0 <= j <= s.len(),
        forall|k: int| j <= k < s.len() ==> is_ws_char(s[k]),
        j > 0 ==> !is_ws_char(s[j - 1]),
    ensures
        drop_trailing_ws(s) =~= s.subrange(0, j),
    decreases s.len(),
{
    if j == s.len() {
        assert(s.subrange(0, s.len() as int) =~= s);
    } else {
        let t = s.drop_last();
        assert(is_ws_char(s[s.len() - 1]));
        assert(forall|k: int| j <= k < t.len() ==> is_ws_char(#[trigger] t[k])) by {
            assert(forall|k: int| 0 <= k < t.len() ==> t[k] == s[k]);
        }
        lemma_drop_trailing_at(t, j);
        assert(t.subrange(0, j) =~= s.subrange(0, j));
    }
}

/// Trims surrounding whitespace from a string, as reading the token file does.
pub fn trim_str(s: &str) -> (r: String)
    ensures
        r@ == trim_spec(s@),
{
    let n = s.unicode_len();
    let mut i: usize = 0;
    loop
        invariant
            i <= n,
            n == s@.len(),
            forall|k: int| 0 <= k < i ==> is_ws_char(s@[k]),
        ensures
            i <= n,
            forall|k: int| 0 <= k < i ==> is_ws_char(s@[k]),
            i < n ==> !is_ws_char(s@[i as int]),
        decreases n - i,
    {
        if i == n {
            break;
        }
        if !is_ws(s.get_char(i)) {
            break;
        }
        i += 1;
    }
    if i == n {
        proof {
            lemma_drop_leading_at(s@, n as int);
            lemma_drop_trailing_at(s@.subrange(n as int, n as int), 0);
            assert(trim_spec(s@) =~= Seq::<char>::empty());
        }
        return String::new();
    }
    let mut j: usize = n;
    loop
        invariant
            i < j <= n,
            n == s@.len(),
            !is_ws_char(s@[i as int]),
            forall|k: int| j <= k < n ==> is_ws_char(s@[k]),
        ensures
            i < j <= n,
            forall|k: int| j <= k < n ==> is_ws_char(s@[k]),
            !is_ws_char(s@[j - 1]),
        decreases j,
    {
        if !is_ws(s.get_char(j - 1)) {
            break;
        }
        j -= 1;
    }
    let r = s.substring_char(i, j);
    proof {
        lemma_drop_leading_at(s@, i as int);
        let t = s@.subrange(i as int, s@.len() as int);
        assert(forall|k: int| j - i <= k < t.len() ==> is_ws_char(#[trigger] t[k])) by {
            assert(forall|k: int| 0 <= k < t.len() ==> t[k] == s@[k + i]);
        }
        assert(t[j - i - 1] == s@[j - 1]);
        lemma_drop_trailing_at(t, j - i);
        assert(t.subrange(0, j - i) =~= s@.subrange(i as int, j as int));
    }
    r.to_owned()
}

/// Reading the token file fails only when there is no readable file; the
/// store then holds no contents.
#[derive(Debug)]
pub struct TokenReadError {}

/// The token file, held as a plain value: `None` when the file is missing or
/// unreadable, `Some` of its full text otherwise.
pub struct TokenStore {
    pub contents: Option<String>,
}

/// Reads the stored access token: the file's contents with surrounding
/// whitespace trimmed, or an error when there is no file to read.
pub fn read_token_from_file(store: &TokenStore) -> (r: Result<String, TokenReadError>)
    ensures
        match store.contents {
            Some(c) => r is Ok && r->Ok_0@ == trim_spec(c@),
            None => r is Err,
        },
{
    match &store.contents {
        Some(c) => Ok(trim_str(c.as_str())),
        None => Err(TokenReadError {}),
    }
}

/// Overwrites the token file with the given token, replacing whatever was
/// stored before.
pub fn write_token_to_file(store: &mut TokenStore, token: String)
    ensures
        final(store).contents == Some(token),
{
    store.contents = Some(token);
}

/// Writing a token and reading it back returns the token itself whenever the
/// token carries no surrounding whitespace; a padded token comes back
/// trimmed.
pub proof fn lemma_token_round_trip(t: Seq<char>)
    requires
        t.len() > 0 ==> !is_ws_char(t[0]) && !is_ws_char(t[t.len() - 1]),
    ensures
        trim_spec(t) == t,
{
    lemma_drop_leading_at(t, 0);
    assert(t.subrange(0, t.len() as int) =~= t);
    lemma_drop_trailing_at(t, t.len() as int);
}

} // verus!
