//! Pairing arithmetic and naming: which pages form each recto/verso leaf of a
//! document, where the rendered images of a request live, and how the pairs
//! of several documents are aggregated back into submission order.
use crate::errors::ExtractionError;
use crate::layout::RectoVersoImagePair;
use crate::numerals::padded3_str;
use crate::numerals::padded3_string;
use vstd::prelude::*;
use vstd::string::*;

verus! {

/// Index of the last occurrence of `c` in `s`, or `-1` when `s` has none.
pub open spec fn last_position_of(s: Seq<char>, c: char) -> int
    decreases s.len(),
{
    if s.len() == 0 {
        -1
    } else if s[s.len() - 1] == c {
        s.len() - 1
    } else {
        last_position_of(s.drop_last(), c)
    }
}

/// Where the file stem of path `s` begins: right after the last `/`.
pub open spec fn stem_start(s: Seq<char>) -> int {
    last_position_of(s, '/') + 1
}

/// Where the file stem of path `s` ends: at the last `.`, but only when that
/// dot lies strictly inside the file name (a leading dot starts no extension).
pub open spec fn stem_end(s: Seq<char>) -> int {
    let dot = last_position_of(s, '.');
    if dot > stem_start(s) {
        dot
    } else {
        s.len() as int
    }
}

/// The file stem of path `s`: its last component without the extension.
pub open spec fn path_file_stem(s: Seq<char>) -> Seq<char> {
    s.subrange(stem_start(s), stem_end(s))
}

/// The stem used to name a document's images; an empty stem falls back to
/// a fixed placeholder.
pub open spec fn document_stem(s: Seq<char>) -> Seq<char> {
    if path_file_stem(s).len() == 0 {
        "document"@
    } else {
        path_file_stem(s)
    }
}

/// Finds the index of the last occurrence of `c` in `s`.
fn find_last_char(s: &str, c: char) -> (r: Option<usize>)
    ensures
        match r {
            Some(i) => i < s@.len() && last_position_of(s@, c) == i,
            None => last_position_of(s@, c) == -1,
        },
{
    let len = s.unicode_len();
    let mut found: Option<usize> = None;
    let mut i: usize = 0;
    while i < len
        invariant
            i <= len == s@.len(),
            match found {
                Some(j) => j < i && last_position_of(s@.take(i as int), c) == j,
                None => last_position_of(s@.take(i as int), c) == -1,
            },
        decreases len - i,
    {
        let ch = s.get_char(i);
        proof {
            assert(s@.take(i + 1).drop_last() =~= s@.take(i as int));
            assert(s@.take(i + 1)[i as int] == s@[i as int]);
        }
        if ch == c {
            found = Some(i);
        }
        i = i + 1;
    }
    proof {
        assert(s@.take(len as int) =~= s@);
    }
    found
}

/// Extracts the stem that names a document's images: the part of the path
/// after the last `/` and before the extension, or a fixed placeholder when
/// that part is empty.
pub fn document_stem_string(path: &str) -> (r: String)
    ensures
        r@ == document_stem(path@),
{
    let len = path.unicode_len();
    let start: usize = match find_last_char(path, '/') {
        Some(i) => i + 1,
        None => 0,
    };
    let end: usize = match find_last_char(path, '.') {
        Some(d) => if d > start {
            d
        } else {
            len
        },
        None => len,
    };
    let stem = path.substring_char(start, end);
    if start == end {
        "document".to_owned()
    } else {
        stem.to_owned()
    }
}

/// File name of the rendered front page `page` of a document named `stem`.
pub open spec fn recto_file_name(stem: Seq<char>, page: nat) -> Seq<char> {
    stem + "_page"@ + padded3_str(page) + "_recto.png"@
}

/// File name of the rendered back page `page` of a document named `stem`.
pub open spec fn verso_file_name(stem: Seq<char>, page: nat) -> Seq<char> {
    stem + "_page"@ + padded3_str(page) + "_verso.png"@
}

/// The directory all images of one request are written under.
pub open spec fn output_directory_path(request_id: Seq<char>) -> Seq<char> {
    "output/"@ + request_id
}

/// `name` inside directory `dir`.
pub open spec fn joined(dir: Seq<char>, name: Seq<char>) -> Seq<char> {
    dir + "/"@ + name
}

/// Renders the request-scoped output directory.
pub fn output_directory(request_id: &str) -> (r: String)
    ensures
        r@ == output_directory_path(request_id@),
{
    let mut r = "output/".to_owned();
    r.append(request_id);
    r
}

fn file_name_string(stem: &str, page: usize, recto: bool) -> (r: String)
    ensures
        recto ==> r@ == recto_file_name(stem@, page as nat),
        !recto ==> r@ == verso_file_name(stem@, page as nat),
{
    let mut r = stem.to_owned();
    r.append("_page");
    r.append(padded3_string(page).as_str());
    if recto {
        r.append("_recto.png");
        proof {
            assert(r@ =~= recto_file_name(stem@, page as nat));
        }
    } else {
        r.append("_verso.png");
        proof {
            assert(r@ =~= verso_file_name(stem@, page as nat));
        }
    }
    r
}

fn join_path(dir: &str, name: &str) -> (r: String)
    ensures
        r@ == joined(dir@, name@),
{
    let mut r = dir.to_owned();
    r.append("/");
    r.append(name);
    r
}

/// One planned leaf of a document: which pages form it and where their
/// rendered images will be written.
#[derive(Debug)]
pub struct PagePairPlan {
    /// 0-based position of the leaf within its document.
    pub pair_index: usize,
    /// 1-based page number of the front side: `2 * pair_index + 1`.
    pub recto_page: usize,
    /// 1-based page number of the back side: `2 * pair_index + 2`.
    pub verso_page: usize,
    /// Where the rendered front page goes.
    pub recto_path: String,
    /// Where the rendered back page goes.
    pub verso_path: String,
}

/// What a well-formed plan entry at position `idx` says.
pub open spec fn plan_entry_ok(
    p: PagePairPlan,
    idx: int,
    stem: Seq<char>,
    dir: Seq<char>,
) -> bool {
    &&& p.pair_index == idx
    &&& p.recto_page == 2 * idx + 1
    &&& p.verso_page == 2 * idx + 2
    &&& p.recto_path@ == joined(dir, recto_file_name(stem, (2 * idx + 1) as nat))
    &&& p.verso_path@ == joined(dir, verso_file_name(stem, (2 * idx + 2) as nat))
}

/// Plans the leaves of one document from its page count: a document with an
/// odd page count is rejected, and a document with `N` even pages yields
/// exactly `N / 2` leaves, the leaf at index `i` joining page `2i + 1` (front)
/// with page `2i + 2` (back).
pub fn plan_document(page_count: usize, stem: &str, dir: &str) -> (r: Result<
    Vec<PagePairPlan>,
    ExtractionError,
>)
    requires
        page_count <= 0x7FFFFFFF,
    ensures
        page_count % 2 != 0 ==> r == Err::<Vec<PagePairPlan>, ExtractionError>(
            ExtractionError::OddPageCount(page_count),
        ),
        page_count % 2 == 0 ==> match r {
            Ok(plans) => {
                &&& plans@.len() == page_count / 2
                &&& forall|k: int|
                    0 <= k < plans@.len() ==> plan_entry_ok(#[trigger] plans@[k], k, stem@, dir@)
            },
            Err(_) => false,
        },
{
    if page_count % 2 != 0 {
        return Err(ExtractionError::OddPageCount(page_count));
    }
    let pair_count = page_count / 2;
    let mut plans: Vec<PagePairPlan> = Vec::new();
    let mut pair_idx: usize = 0;
    while pair_idx < pair_count
        invariant
            pair_count == page_count / 2,
            page_count <= 0x7FFFFFFF,
            pair_idx <= pair_count,
            plans@.len() == pair_idx,
            forall|k: int|
                0 <= k < plans@.len() ==> plan_entry_ok(#[trigger] plans@[k], k, stem@, dir@),
        decreases pair_count - pair_idx,
    {
        let recto_page = pair_idx * 2 + 1;
        let verso_page = pair_idx * 2 + 2;
        let recto_path = join_path(dir, file_name_string(stem, recto_page, true).as_str());
        let verso_path = join_path(dir, file_name_string(stem, verso_page, false).as_str());
        plans.push(
            PagePairPlan { pair_index: pair_idx, recto_page, verso_page, recto_path, verso_path },
        );
        pair_idx = pair_idx + 1;
    }
    Ok(plans)
}

/// The pair sequences of a list of per-document results.
pub open spec fn doc_views(docs: Seq<Vec<RectoVersoImagePair>>) -> Seq<Seq<RectoVersoImagePair>> {
    docs.map_values(|v: Vec<RectoVersoImagePair>| v@)
}

/// All pairs of the given per-document pair sequences, in order: every pair
/// of the document at position `i`, in its own order, before every pair of
/// the document at position `i + 1`.
pub open spec fn concat_pairs(docs: Seq<Seq<RectoVersoImagePair>>, i: int) -> Seq<
    RectoVersoImagePair,
>
    decreases docs.len() - i,
{
    if i < 0 || i >= docs.len() {
        Seq::empty()
    } else {
        docs[i] + concat_pairs(docs, i + 1)
    }
}

proof fn lemma_concat_pairs_shift(docs: Seq<Seq<RectoVersoImagePair>>, i: int)
    requires
        0 <= i,
        docs.len() >= 1,
    ensures
        concat_pairs(docs, i + 1) == concat_pairs(docs.drop_first(), i),
    decreases docs.len() - i,
{
    if i + 1 < docs.len() {
        lemma_concat_pairs_shift(docs, i + 1);
        assert(docs.drop_first()[i] == docs[i + 1]);
        assert(concat_pairs(docs, i + 1) =~= concat_pairs(docs.drop_first(), i));
    } else {
        assert(concat_pairs(docs, i + 1) =~= Seq::<RectoVersoImagePair>::empty());
        assert(concat_pairs(docs.drop_first(), i) =~= Seq::<RectoVersoImagePair>::empty());
    }
}

/// Restores the aggregated pair order of a whole submission from per-document
/// results: the pairs of the first document (in order), then the pairs of the
/// second, and so on. The caller indexes `per_document` by submission order,
/// so the result does not depend on which document finished extraction first.
pub fn flatten_document_pairs(per_document: Vec<Vec<RectoVersoImagePair>>) -> (r: Vec<
    RectoVersoImagePair,
>)
    ensures
        r@ == concat_pairs(doc_views(per_document@), 0),
{
    let ghost orig = doc_views(per_document@);
    let mut rest = per_document;
    let mut out: Vec<RectoVersoImagePair> = Vec::new();
    while rest.len() > 0
        invariant
            out@ + concat_pairs(doc_views(rest@), 0) == concat_pairs(orig, 0),
        decreases rest.len(),
    {
        let ghost views_before = doc_views(rest@);
        let mut doc = rest.remove(0);
        proof {
            assert(doc_views(rest@) =~= views_before.drop_first());
            lemma_concat_pairs_shift(views_before, 0);
            assert(out@ + doc@ + concat_pairs(doc_views(rest@), 0) =~= out@ + concat_pairs(
                views_before,
                0,
            ));
        }
        while doc.len() > 0
            invariant
                out@ + doc@ + concat_pairs(doc_views(rest@), 0) == concat_pairs(orig, 0),
            decreases doc.len(),
        {
            let ghost doc_before = doc@;
            let p = doc.remove(0);
            out.push(p);
            proof {
                assert(doc@ =~= doc_before.drop_first());
                assert(out@ + doc@ =~= out@.drop_last() + doc_before);
            }
        }
        proof {
            assert(out@ + concat_pairs(doc_views(rest@), 0) =~= out@ + doc@ + concat_pairs(
                doc_views(rest@),
                0,
            ));
        }
    }
    proof {
        assert(out@ =~= out@ + concat_pairs(doc_views(rest@), 0));
    }
    out
}

/// For a submission of exactly two documents `[A, B]`, the aggregated pair
/// sequence is `A`'s pairs, in order, followed by `B`'s pairs, in order.
pub proof fn lemma_aggregation_of_two(docs: Seq<Seq<RectoVersoImagePair>>)
    requires
        docs.len() == 2,
    ensures
        concat_pairs(docs, 0) == docs[0] + docs[1],
{
    assert(concat_pairs(docs, 2) =~= Seq::<RectoVersoImagePair>::empty());
    assert(concat_pairs(docs, 1) =~= docs[1] + concat_pairs(docs, 2));
    assert(concat_pairs(docs, 0) =~= docs[0] + docs[1]);
}

} // verus!
