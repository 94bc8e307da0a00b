//! The selector: the two-stage interactive disambiguation of one gist file.
//!
//! Given the listed gists, the selector labels each gist, lets the user pick
//! one, labels the chosen gist's files, lets the user pick again, and
//! resolves the pick to the file record.  The prompting itself is the
//! terminal's; everything around it — the labels, the visibility filter, and
//! what each pick resolves to — is decided here.

use vstd::prelude::*;

use crate::gist::find_file;
use crate::gist::GistFilePayload;
use crate::gist::GistPayload;
use crate::workflow::Action;
use crate::workflow::ActionSpec;

verus! {

/// A gist's label: its description when it has one, else the filename the
/// service lists first, else the empty string.
pub open spec fn gist_label_spec(g: GistPayload) -> Seq<char> {
    if g.description@.len() > 0 {
        g.description@
    } else if g.files@.len() > 0 {
        g.files@[0].filename@
    } else {
        Seq::empty()
    }
}

/// For a gist with an empty description the label falls back to the filename
/// the service lists first; with no files either, it is the empty string.
pub proof fn lemma_empty_description_label(g: GistPayload)
    requires
        g.description@.len() == 0,
    ensures
        g.files@.len() > 0 ==> gist_label_spec(g) == g.files@[0].filename@,
        g.files@.len() == 0 ==> gist_label_spec(g) == Seq::<char>::empty(),
{
}

/// Builds one gist's label.
pub fn gist_label(g: &GistPayload) -> (r: String)
    ensures
        r@ == gist_label_spec(*g),
{
    if !g.description.as_str().is_empty() {
        g.description.clone()
    } else if g.files.len() > 0 {
        g.files[0].filename.clone()
    } else {
        String::new()
    }
}

/// Builds the label of every listed gist, in listing order.
pub fn gist_labels(gists: &Vec<GistPayload>) -> (r: Vec<String>)
    ensures
        r@.len() == gists@.len(),
        forall|i: int| 0 <= i < gists@.len() ==> (#[trigger] r@[i])@ == gist_label_spec(gists@[i]),
{
    let n = gists.len();
    let mut labels: Vec<String> = Vec::new();
    let mut i: usize = 0;
    while i < n
        invariant
            i <= n,
            n == gists@.len(),
            labels@.len() == i,
            forall|k: int| 0 <= k < i ==> (#[trigger] labels@[k])@ == gist_label_spec(gists@[k]),
        decreases n - i,
    {
        labels.push(gist_label(&gists[i]));
        i += 1;
    }
    labels
}

/// The first selection step: present one label per listed gist.  An empty
/// listing presents zero labels, and the prompt then reports no choice.
pub fn gist_selection_action(gists: &Vec<GistPayload>) -> (r: Action)
    ensures
        r@ == ActionSpec::Select(Seq::new(gists@.len(), |i: int| gist_label_spec(gists@[i]))),
{
    let labels = gist_labels(gists);
    let r = Action::Select(labels);
    proof {
        assert(r@ =~= ActionSpec::Select(
            Seq::new(gists@.len(), |i: int| gist_label_spec(gists@[i])),
        ));
    }
    r
}

/// Resolves the first pick: the chosen gist, taken out of the listing, or
/// nothing when the user aborted or the index does not point at a gist.
pub fn select_gist(gists: Vec<GistPayload>, choice: Option<usize>) -> (r: Option<GistPayload>)
    ensures
        (match choice {
            Some(i) => if i < gists@.len() {
                r == Some(gists@[i as int])
            } else {
                r is None
            },
            None => r is None,
        }),
{
    match choice {
        Some(i) => {
            if i < gists.len() {
                let mut gists = gists;
                Some(gists.remove(i))
            } else {
                None
            }
        },
        None => None,
    }
}

/// Keeps only public gists when asked to; otherwise the listing stands as
/// it came.
pub open spec fn public_only(gists: Seq<GistPayload>) -> Seq<GistPayload>
    decreases gists.len(),
{
    if gists.len() == 0 {
        Seq::empty()
    } else if gists[0].public {
        seq![gists[0]] + public_only(gists.drop_first())
    } else {
        public_only(gists.drop_first())
    }
}

/// Applies the visibility filter: with the public flag set, only public
/// gists reach the selector; without it, every listed gist does.  The
/// service's order is kept either way.
#[verifier::loop_isolation(false)]
pub fn filter_gists(gists: Vec<GistPayload>, public: bool) -> (r: Vec<GistPayload>)
    ensures
        public ==> r@ == public_only(gists@),
        !public ==> r == gists,
{
    if !public {
        return gists;
    }
    let ghost all = gists@;
    let mut rest = gists;
    let mut kept: Vec<GistPayload> = Vec::new();
    while rest.len() > 0
        invariant
            rest@.len() <= all.len(),
            rest@ =~= all.subrange(0, rest@.len() as int),
            kept@ =~= public_only(all.subrange(rest@.len() as int, all.len() as int)),
        decreases rest.len(),
    {
        let ghost m = rest@.len() as int;
        let g = rest.remove(rest.len() - 1);
        proof {
            assert(g == all[m - 1]);
            assert(rest@ =~= all.subrange(0, m - 1));
            let s = all.subrange(m - 1, all.len() as int);
            assert(s[0] == all[m - 1]);
            assert(s.drop_first() =~= all.subrange(m, all.len() as int));
        }
        if g.public {
            kept.insert(0, g);
            proof {
                assert(kept@ =~= public_only(all.subrange(m - 1, all.len() as int)));
            }
        } else {
            proof {
                assert(kept@ =~= public_only(all.subrange(m - 1, all.len() as int)));
            }
        }
    }
    proof {
        assert(all.subrange(0, all.len() as int) =~= all);
        assert(kept@ =~= public_only(all));
    }
    kept
}

/// The second selection step: one label per file of the chosen gist, in the
/// service's order.
pub fn file_labels(g: &GistPayload) -> (r: Vec<String>)
    ensures
        r@.len() == g.files@.len(),
        forall|i: int| 0 <= i < g.files@.len() ==> (#[trigger] r@[i])@ == g.files@[i].filename@,
{
    let n = g.files.len();
    let mut labels: Vec<String> = Vec::new();
    let mut i: usize = 0;
    while i < n
        invariant
            i <= n,
            n == g.files@.len(),
            labels@.len() == i,
            forall|k: int| 0 <= k < i ==> (#[trigger] labels@[k])@ == g.files@[k].filename@,
        decreases n - i,
    {
        labels.push(g.files[i].filename.clone());
        i += 1;
    }
    labels
}

/// Presents the chosen gist's filenames.
pub fn file_selection_action(g: &GistPayload) -> (r: Action)
    ensures
        r@ == ActionSpec::Select(Seq::new(g.files@.len(), |i: int| g.files@[i].filename@)),
{
    let labels = file_labels(g);
    let r = Action::Select(labels);
    proof {
        assert(r@ =~= ActionSpec::Select(
            Seq::new(g.files@.len(), |i: int| g.files@[i].filename@),
        ));
    }
    r
}

/// Resolves the second pick through the chosen filename, as the prompt hands
/// an index into the filename labels back: the first file of that name.
/// Within one well-formed gist filenames are unique, so the resolution is
/// the picked file itself.
pub fn choose_file(g: &GistPayload, choice: Option<usize>) -> (r: Option<GistFilePayload>)
    ensures
        (match choice {
            Some(i) => if i < g.files@.len() {
                r == find_file(g.files@, g.files@[i as int].filename@) && (g.wf() ==> r == Some(
                    g.files@[i as int],
                ))
            } else {
                r is None
            },
            None => r is None,
        }),
{
    match choice {
        Some(i) => {
            if i < g.files.len() {
                let r = g.get_file_payload(g.files[i].filename.as_str());
                proof {
                    if g.wf() {
                        crate::gist::lemma_find_file_at(g.files@, g.files@[i as int].filename@, i as int);
                    }
                }
                r
            } else {
                None
            }
        },
        None => None,
    }
}

} // verus!
