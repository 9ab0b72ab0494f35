//! One generation request: the accepted source documents and the cleanup
//! plan that guarantees every artifact of the request — each source document
//! and each rendered image — is listed for deletion once extraction has
//! succeeded, whatever the final outcome.
use crate::layout::RectoVersoImagePair;
use vstd::prelude::*;

verus! {

/// The views of a list of paths.
pub open spec fn path_views(paths: Seq<String>) -> Seq<Seq<char>> {
    paths.map_values(|p: String| p@)
}

/// The raster image paths of the pairs from position `i` on, interleaved as
/// produced: recto of a pair, then its verso, then the next pair.
pub open spec fn raster_views_from(pairs: Seq<RectoVersoImagePair>, i: int) -> Seq<Seq<char>>
    decreases pairs.len() - i,
{
    if i < 0 || i >= pairs.len() {
        Seq::empty()
    } else {
        seq![pairs[i].recto_path@, pairs[i].verso_path@] + raster_views_from(pairs, i + 1)
    }
}

/// One request: an identifier scoping its artifacts on disk, and the source
/// documents accepted so far, in upload order.
#[derive(Debug)]
pub struct GenerationRequest {
    /// Identifier deriving the request's output directory.
    pub id: String,
    input_files: Vec<String>,
}

impl GenerationRequest {
    /// The source documents accepted so far.
    pub closed spec fn files(&self) -> Seq<String> {
        self.input_files@
    }

    /// The request's identifier.
    pub closed spec fn id_view(&self) -> Seq<char> {
        self.id@
    }

    /// A fresh request with no accepted documents.
    pub fn new(id: String) -> (r: Self)
        ensures
            r.id_view() == id@,
            r.files() == Seq::<String>::empty(),
    {
        GenerationRequest { id, input_files: Vec::new() }
    }

    /// Accepts one more uploaded document.
    pub fn add_file(&mut self, file: String)
        ensures
            final(self).files() == old(self).files().push(file),
            final(self).id_view() == old(self).id_view(),
    {
        self.input_files.push(file);
    }

    /// The accepted documents, in upload order.
    pub fn input_files(&self) -> (r: &Vec<String>)
        ensures
            r@ == self.files(),
    {
        &self.input_files
    }

    /// Everything the request must delete once extraction has succeeded,
    /// whatever happens afterwards: every accepted source document, in
    /// order, then both images of every extracted pair, in pair order.
    pub open spec fn cleanup_list(self, pairs: Seq<RectoVersoImagePair>) -> Seq<Seq<char>> {
        path_views(self.files()) + raster_views_from(pairs, 0)
    }

    /// Builds the cleanup list for this request and the extracted pairs.
    pub fn cleanup_paths(&self, pairs: &Vec<RectoVersoImagePair>) -> (r: Vec<String>)
        ensures
            path_views(r@) == self.cleanup_list(pairs@),
    {
        let ghost goal = self.cleanup_list(pairs@);
        let mut out: Vec<String> = Vec::new();
        let mut i: usize = 0;
        while i < self.input_files.len()
            invariant
                i <= self.files().len(),
                goal == self.cleanup_list(pairs@),
                out@.len() == i,
                path_views(out@) == path_views(self.files().take(i as int)),
            decreases self.files().len() - i,
        {
            let ghost before = out@;
            let ghost fs = self.files();
            out.push(self.input_files[i].clone());
            proof {
                assert(path_views(out@) =~= path_views(before).push(fs[i as int]@));
                assert(path_views(before).push(fs[i as int]@) == path_views(
                    fs.take(i as int),
                ).push(fs[i as int]@));
                assert(path_views(fs.take(i as int)).push(fs[i as int]@) =~= path_views(
                    fs.take(i + 1),
                ));
            }
            i = i + 1;
        }
        proof {
            assert(self.files().take(self.files().len() as int) =~= self.files());
        }
        let mut j: usize = 0;
        while j < pairs.len()
            invariant
                j <= pairs@.len(),
                goal == self.cleanup_list(pairs@),
                out@.len() == self.files().len() + 2 * j,
                path_views(out@) + raster_views_from(pairs@, j as int) == goal,
            decreases pairs@.len() - j,
        {
            out.push(pairs[j].recto_path.clone());
            out.push(pairs[j].verso_path.clone());
            proof {
                assert(raster_views_from(pairs@, j as int) == seq![
                    pairs@[j as int].recto_path@,
                    pairs@[j as int].verso_path@,
                ] + raster_views_from(pairs@, j + 1));
                assert(path_views(out@) + raster_views_from(pairs@, j + 1) =~~= goal);
            }
            j = j + 1;
        }
        proof {
            assert(path_views(out@) =~~= goal);
        }
        out
    }
}

proof fn lemma_raster_views_index(pairs: Seq<RectoVersoImagePair>, i: int, k: int)
    requires
        0 <= i <= k < pairs.len(),
    ensures
        raster_views_from(pairs, i).len() == 2 * (pairs.len() - i),
        raster_views_from(pairs, i)[2 * (k - i)] == pairs[k].recto_path@,
        raster_views_from(pairs, i)[2 * (k - i) + 1] == pairs[k].verso_path@,
    decreases pairs.len() - i,
{
    lemma_raster_views_len(pairs, i);
    if i < k {
        lemma_raster_views_index(pairs, i + 1, k);
    }
}

proof fn lemma_raster_views_len(pairs: Seq<RectoVersoImagePair>, i: int)
    requires
        0 <= i <= pairs.len(),
    ensures
        raster_views_from(pairs, i).len() == 2 * (pairs.len() - i),
    decreases pairs.len() - i,
{
    if i < pairs.len() {
        lemma_raster_views_len(pairs, i + 1);
    }
}

/// Cleanup is complete: the cleanup list of a request contains every
/// accepted source document and both raster images of every extracted pair.
pub proof fn lemma_cleanup_complete(
    request: GenerationRequest,
    pairs: Seq<RectoVersoImagePair>,
    listed: Seq<Seq<char>>,
)
    requires
        listed == request.cleanup_list(pairs),
    ensures
        forall|k: int|
            0 <= k < request.files().len() ==> listed.contains(#[trigger] request.files()[k]@),
        forall|k: int|
            0 <= k < pairs.len() ==> listed.contains((#[trigger] pairs[k]).recto_path@)
                && listed.contains(pairs[k].verso_path@),
{
    let files = request.files();
    let n = files.len() as int;
    assert forall|k: int| 0 <= k < n implies listed.contains(#[trigger] files[k]@) by {
        assert(listed[k] == files[k]@);
    }
    assert forall|k: int| 0 <= k < pairs.len() implies listed.contains(
        (#[trigger] pairs[k]).recto_path@,
    ) && listed.contains(pairs[k].verso_path@) by {
        lemma_raster_views_index(pairs, 0, k);
        assert(listed[n + 2 * k] == pairs[k].recto_path@);
        assert(listed[n + 2 * k + 1] == pairs[k].verso_path@);
    }
}

} // verus!
