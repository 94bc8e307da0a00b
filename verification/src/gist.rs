//! The remote data model: a gist as the service reports it.
//!
//! A gist groups named files under a description and a visibility flag.  The
//! service lists a gist's files in its own fixed order; within one gist every
//! filename occurs once, and looking a filename up is deterministic.

use vstd::prelude::*;

verus! {

/// One file of a gist: its name, where its raw bytes are served, an optional
/// language tag and its size.
pub struct GistFilePayload {
    pub filename: String,
    pub raw_url: String,
    pub language: Option<String>,
    pub size: u64,
}

impl Clone for GistFilePayload {
    fn clone(&self) -> (r: Self)
        ensures
            r == *self,
    {
        GistFilePayload {
            filename: self.filename.clone(),
            raw_url: self.raw_url.clone(),
            language: match &self.language {
                Some(l) => Some(l.clone()),
                None => None,
            },
            size: self.size,
        }
    }
}

/// One gist: identifier, visibility, creation time, description, and its
/// files in the order the service lists them.
pub struct GistPayload {
    pub id: String,
    pub public: bool,
    pub created_at: String,
    pub description: String,
    pub files: Vec<GistFilePayload>,
}

/// The first file carrying the given name, in listing order.
pub open spec fn find_file(files: Seq<GistFilePayload>, name: Seq<char>) -> Option<GistFilePayload>
    decreases files.len(),
{
    if files.len() == 0 {
        None
    } else if files[0].filename@ == name {
        Some(files[0])
    } else {
        find_file(files.drop_first(), name)
    }
}

pub proof fn lemma_find_file_at(files: Seq<GistFilePayload>, name: Seq<char>, i: int)
    requires
        0 <= i < files.len(),
        files[i].filename@ == name,
        forall|k: int| 0 <= k < i ==> files[k].filename@ != name,
    ensures
        find_file(files, name) == Some(files[i]),
    decreases i,
{
    if i > 0 {
        let t = files.drop_first();
        assert(forall|k: int| 0 <= k < i - 1 ==> (#[trigger] t[k]).filename@ != name) by {
            assert(forall|k: int| 0 <= k < i - 1 ==> t[k] == files[k + 1]);
        }
        lemma_find_file_at(t, name, i - 1);
    }
}

pub proof fn lemma_find_file_none(files: Seq<GistFilePayload>, name: Seq<char>)
    requires
        forall|k: int| 0 <= k < files.len() ==> files[k].filename@ != name,
    ensures
        find_file(files, name) is None,
    decreases files.len(),
{
    if files.len() > 0 {
        let t = files.drop_first();
        assert(forall|k: int| 0 <= k < t.len() ==> (#[trigger] t[k]).filename@ != name) by {
            assert(forall|k: int| 0 <= k < t.len() ==> t[k] == files[k + 1]);
        }
        lemma_find_file_none(t, name);
    }
}

/// Character-for-character string comparison.
pub fn str_eq(a: &str, b: &str) -> (r: bool)
    ensures
        r == (a@ == b@),
{
    let na = a.unicode_len();
    let nb = b.unicode_len();
    if na != nb {
        return false;
    }
    let mut i: usize = 0;
    loop
        invariant
            i <= na,
            na == a@.len(),
            na == b@.len(),
            forall|k: int| 0 <= k < i ==> a@[k] == b@[k],
        ensures
            i <= na,
            forall|k: int| 0 <= k < i ==> a@[k] == b@[k],
            i < na ==> a@[i as int] != b@[i as int],
        decreases na - i,
    {
        if i == na {
            break;
        }
        if a.get_char(i) != b.get_char(i) {
            break;
        }
        i += 1;
    }
    if i == na {
        proof {
            assert(a@ =~= b@);
        }
        true
    } else {
        false
    }
}

impl GistPayload {
    /// The service lists each filename at most once within one gist.
    pub open spec fn wf(self) -> bool {
        forall|i: int, j: int|
            0 <= i < j < self.files@.len() ==> (#[trigger] self.files@[i]).filename@ != (
            #[trigger] self.files@[j]).filename@
    }

    /// Looks the given filename up among this gist's files: the first file of
    /// that name in listing order, or nothing when no file carries it.
    pub fn get_file_payload(&self, filename: &str) -> (r: Option<GistFilePayload>)
        ensures
            r == find_file(self.files@, filename@),
    {
        let n = self.files.len();
        let mut i: usize = 0;
        loop
            invariant
                i <= n,
                n == self.files@.len(),
                forall|k: int| 0 <= k < i ==> (#[trigger] self.files@[k]).filename@ != filename@,
            ensures
                i <= n,
                forall|k: int| 0 <= k < i ==> (#[trigger] self.files@[k]).filename@ != filename@,
                i < n ==> self.files@[i as int].filename@ == filename@,
            decreases n - i,
        {
            if i == n {
                break;
            }
            if str_eq(self.files[i].filename.as_str(), filename) {
                break;
            }
            i += 1;
        }
        if i == n {
            proof {
                lemma_find_file_none(self.files@, filename@);
            }
            None
        } else {
            proof {
                lemma_find_file_at(self.files@, filename@, i as int);
            }
            Some(self.files[i].clone())
        }
    }
}

} // verus!
