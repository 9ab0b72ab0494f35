//! The booklet layout composer: a pure function from an ordered sequence of
//! recto/verso leaves to typesetting markup. Leaves are chunked four at a
//! time; each chunk yields one recto grid and one verso grid. The verso grid
//! mirrors the first three images and flips the sign of the rotation applied
//! to the fourth — both are what makes the printed sheets fold correctly.
//!
//! All lengths and angles are carried in tenths (of a centimetre, of a
//! degree), so the markup text is a function of plain integers and the
//! composer stays exact: its contract pins every byte of the output.
use crate::numerals::tenths_str;
use crate::numerals::tenths_string;
use vstd::prelude::*;
use vstd::string::*;

verus! {

/// One leaf of the booklet: the rendered front and back page images.
#[derive(Debug, Clone)]
pub struct RectoVersoImagePair {
    pub recto_path: String,
    pub verso_path: String,
}

/// Page margins in tenths of a centimetre.
#[derive(Debug, Clone, Copy)]
pub struct PageMargins {
    pub top: u32,
    pub bottom: u32,
    pub left: u32,
    pub right: u32,
}

impl Default for PageMargins {
    /// The one fixed margin profile: no top/bottom margin, 2cm at the sides.
    fn default() -> (r: Self)
        ensures
            r.top == 0 && r.bottom == 0 && r.left == 20 && r.right == 20,
    {
        PageMargins { top: 0, bottom: 0, left: 20, right: 20 }
    }
}

/// Grid spacing, image width (tenths of a centimetre) and rotation angle
/// (tenths of a degree) of the composite pages.
#[derive(Debug, Clone, Copy)]
pub struct GridConfig {
    pub column_gutter: u32,
    pub row_gutter: u32,
    pub image_width: u32,
    pub rotation_angle: u32,
}

impl Default for GridConfig {
    /// The one fixed grid profile: 3cm/0.7cm gutters, 5.5cm images, 75 degrees.
    fn default() -> (r: Self)
        ensures
            r.column_gutter == 30 && r.row_gutter == 7 && r.image_width == 55
                && r.rotation_angle == 750,
    {
        GridConfig { column_gutter: 30, row_gutter: 7, image_width: 55, rotation_angle: 750 }
    }
}

/// The page-settings directive emitted once at the top of the markup.
pub open spec fn margin_block(m: PageMargins) -> Seq<char> {
    "#set page(margin: (\n top: "@ + tenths_str(m.top as nat) + "cm,\n bottom: "@ + tenths_str(
        m.bottom as nat,
    ) + "cm,\n left: "@ + tenths_str(m.left as nat) + "cm,\n right: "@ + tenths_str(
        m.right as nat,
    ) + "cm\n))\n\n"@
}

/// One plain image cell of a grid.
pub open spec fn image_cell(path: Seq<char>, width: nat) -> Seq<char> {
    "image(\""@ + path + "\", width: "@ + tenths_str(width) + "cm),\n"@
}

/// The cell spanning all three columns that holds a rotated image.
pub open spec fn rotated_cell(path: Seq<char>, width: nat, angle: Seq<char>) -> Seq<char> {
    "grid.cell(rotate("@ + angle + "deg, image(\""@ + path + "\", width: "@ + tenths_str(width)
        + "cm), reflow: true), colspan: 3),\n"@
}

/// A three-column grid holding the given cells.
pub open spec fn grid_block(cfg: GridConfig, cells: Seq<char>) -> Seq<char> {
    "#grid(\n  columns: (auto, auto, auto),\n  rows: (auto, auto),\n  column-gutter: "@
        + tenths_str(cfg.column_gutter as nat) + "cm,\n  row-gutter: "@ + tenths_str(
        cfg.row_gutter as nat,
    ) + "cm,\n  align: center,\n\n\n"@ + cells + "\n)\n"@
}

/// The rotation written in the recto grid: the configured angle.
pub open spec fn recto_angle(cfg: GridConfig) -> Seq<char> {
    tenths_str(cfg.rotation_angle as nat)
}

/// The rotation written in the verso grid: the configured angle, negated.
pub open spec fn verso_angle(cfg: GridConfig) -> Seq<char> {
    "-"@ + tenths_str(cfg.rotation_angle as nat)
}

/// Cells of the recto grid of one chunk of up to four leaves: the first
/// (up to) three recto images left to right, then, only for a chunk of four,
/// the fourth recto image rotated by the configured angle.
pub open spec fn recto_cells(chunk: Seq<RectoVersoImagePair>, cfg: GridConfig) -> Seq<char> {
    let w = cfg.image_width as nat;
    if chunk.len() == 1 {
        image_cell(chunk[0].recto_path@, w)
    } else if chunk.len() == 2 {
        image_cell(chunk[0].recto_path@, w) + image_cell(chunk[1].recto_path@, w)
    } else if chunk.len() == 3 {
        image_cell(chunk[0].recto_path@, w) + image_cell(chunk[1].recto_path@, w) + image_cell(
            chunk[2].recto_path@,
            w,
        )
    } else if chunk.len() == 4 {
        image_cell(chunk[0].recto_path@, w) + image_cell(chunk[1].recto_path@, w) + image_cell(
            chunk[2].recto_path@,
            w,
        ) + rotated_cell(chunk[3].recto_path@, w, recto_angle(cfg))
    } else {
        Seq::empty()
    }
}

/// Cells of the verso grid of one chunk: the same (up to) three leaves in
/// reversed order — the binding mirror — then, only for a chunk of four, the
/// fourth verso image rotated by the negated angle.
pub open spec fn verso_cells(chunk: Seq<RectoVersoImagePair>, cfg: GridConfig) -> Seq<char> {
    let w = cfg.image_width as nat;
    if chunk.len() == 1 {
        image_cell(chunk[0].verso_path@, w)
    } else if chunk.len() == 2 {
        image_cell(chunk[1].verso_path@, w) + image_cell(chunk[0].verso_path@, w)
    } else if chunk.len() == 3 {
        image_cell(chunk[2].verso_path@, w) + image_cell(chunk[1].verso_path@, w) + image_cell(
            chunk[0].verso_path@,
            w,
        )
    } else if chunk.len() == 4 {
        image_cell(chunk[2].verso_path@, w) + image_cell(chunk[1].verso_path@, w) + image_cell(
            chunk[0].verso_path@,
            w,
        ) + rotated_cell(chunk[3].verso_path@, w, verso_angle(cfg))
    } else {
        Seq::empty()
    }
}

/// The two grids a chunk produces: recto first, verso second.
pub open spec fn chunk_blocks(chunk: Seq<RectoVersoImagePair>, cfg: GridConfig) -> Seq<char> {
    grid_block(cfg, recto_cells(chunk, cfg)) + grid_block(cfg, verso_cells(chunk, cfg))
}

/// The grids of all chunks of `pairs` from position `i` on, in order, taking
/// the leaves four at a time (the last chunk may hold fewer).
pub open spec fn chunks_from(pairs: Seq<RectoVersoImagePair>, cfg: GridConfig, i: int) -> Seq<char>
    decreases pairs.len() - i,
{
    if i < 0 || i >= pairs.len() {
        Seq::empty()
    } else {
        let n = if pairs.len() - i < 4 {
            pairs.len() - i
        } else {
            4
        };
        chunk_blocks(pairs.subrange(i, i + n), cfg) + chunks_from(pairs, cfg, i + n)
    }
}

/// The placeholder emitted when there are no leaves to lay out.
pub open spec fn no_images_text() -> Seq<char> {
    "No images to display.\n"@
}

/// The whole markup: the margin directive, then either the placeholder (for
/// an empty sequence) or the grids of every chunk in order.
pub open spec fn spec_typst_content(
    pairs: Seq<RectoVersoImagePair>,
    m: PageMargins,
    cfg: GridConfig,
) -> Seq<char> {
    margin_block(m) + if pairs.len() == 0 {
        no_images_text()
    } else {
        chunks_from(pairs, cfg, 0)
    }
}

/// Renders the page-settings directive.
fn margin_block_string(m: &PageMargins) -> (r: String)
    ensures
        r@ == margin_block(*m),
{
    let mut r = "#set page(margin: (\n top: ".to_owned();
    r.append(tenths_string(m.top).as_str());
    r.append("cm,\n bottom: ");
    r.append(tenths_string(m.bottom).as_str());
    r.append("cm,\n left: ");
    r.append(tenths_string(m.left).as_str());
    r.append("cm,\n right: ");
    r.append(tenths_string(m.right).as_str());
    r.append("cm\n))\n\n");
    proof {
        assert(r@ =~= margin_block(*m));
    }
    r
}

/// Renders one plain image cell.
fn image_cell_string(path: &str, width: u32) -> (r: String)
    ensures
        r@ == image_cell(path@, width as nat),
{
    let mut r = "image(\"".to_owned();
    r.append(path);
    r.append("\", width: ");
    r.append(tenths_string(width).as_str());
    r.append("cm),\n");
    proof {
        assert(r@ =~= image_cell(path@, width as nat));
    }
    r
}

/// Renders the rotated three-column cell.
fn rotated_cell_string(path: &str, width: u32, angle: &str) -> (r: String)
    ensures
        r@ == rotated_cell(path@, width as nat, angle@),
{
    let mut r = "grid.cell(rotate(".to_owned();
    r.append(angle);
    r.append("deg, image(\"");
    r.append(path);
    r.append("\", width: ");
    r.append(tenths_string(width).as_str());
    r.append("cm), reflow: true), colspan: 3),\n");
    proof {
        assert(r@ =~= rotated_cell(path@, width as nat, angle@));
    }
    r
}

/// Renders one grid holding the given cells.
fn grid_block_string(cfg: &GridConfig, cells: &str) -> (r: String)
    ensures
        r@ == grid_block(*cfg, cells@),
{
    let mut r = "#grid(\n  columns: (auto, auto, auto),\n  rows: (auto, auto),\n  column-gutter: "
        .to_owned();
    r.append(tenths_string(cfg.column_gutter).as_str());
    r.append("cm,\n  row-gutter: ");
    r.append(tenths_string(cfg.row_gutter).as_str());
    r.append("cm,\n  align: center,\n\n\n");
    r.append(cells);
    r.append("\n)\n");
    proof {
        assert(r@ =~= grid_block(*cfg, cells@));
    }
    r
}

/// Composes the booklet markup for the given leaves. Pure and deterministic:
/// the result is exactly `spec_typst_content` of the inputs, so identical
/// inputs always give byte-identical markup.
pub fn generate_typst_content(
    images: &[RectoVersoImagePair],
    margins: &PageMargins,
    config: &GridConfig,
) -> (r: String)
    ensures
        r@ == spec_typst_content(images@, *margins, *config),
{
    let mut content = margin_block_string(margins);
    if images.len() == 0 {
        content.append("No images to display.\n");
        proof {
            assert(content@ =~= spec_typst_content(images@, *margins, *config));
        }
        return content;
    }
    let len = images.len();
    let mut i: usize = 0;
    while i < len
        invariant
            0 < len == images@.len(),
            i <= len,
            content@ + chunks_from(images@, *config, i as int) == spec_typst_content(
                images@,
                *margins,
                *config,
            ),
        decreases len - i,
    {
        let n: usize = if len - i < 4 {
            len - i
        } else {
            4
        };
        let w = config.image_width;
        let ghost chunk = images@.subrange(i as int, i + n);

        let mut rcells = image_cell_string(images[i].recto_path.as_str(), w);
        if n >= 2 {
            rcells.append(image_cell_string(images[i + 1].recto_path.as_str(), w).as_str());
        }
        if n >= 3 {
            rcells.append(image_cell_string(images[i + 2].recto_path.as_str(), w).as_str());
        }
        if n == 4 {
            let angle = tenths_string(config.rotation_angle);
            rcells.append(
                rotated_cell_string(images[i + 3].recto_path.as_str(), w, angle.as_str()).as_str(),
            );
        }
        proof {
            assert(rcells@ =~= recto_cells(chunk, *config));
        }

        let mut vcells = String::new();
        if n >= 3 {
            vcells.append(image_cell_string(images[i + 2].verso_path.as_str(), w).as_str());
        }
        if n >= 2 {
            vcells.append(image_cell_string(images[i + 1].verso_path.as_str(), w).as_str());
        }
        vcells.append(image_cell_string(images[i].verso_path.as_str(), w).as_str());
        if n == 4 {
            let mut angle = "-".to_owned();
            angle.append(tenths_string(config.rotation_angle).as_str());
            vcells.append(
                rotated_cell_string(images[i + 3].verso_path.as_str(), w, angle.as_str()).as_str(),
            );
        }
        proof {
            assert(vcells@ =~= verso_cells(chunk, *config));
        }

        let ghost before = content@;
        content.append(grid_block_string(config, rcells.as_str()).as_str());
        content.append(grid_block_string(config, vcells.as_str()).as_str());
        proof {
            assert(content@ =~= before + chunk_blocks(chunk, *config));
            assert(chunks_from(images@, *config, i as int) == chunk_blocks(chunk, *config)
                + chunks_from(images@, *config, i + n));
            assert(content@ + chunks_from(images@, *config, i + n) =~= before + chunks_from(
                images@,
                *config,
                i as int,
            ));
        }
        i = i + n;
    }
    proof {
        assert(content@ + chunks_from(images@, *config, i as int) =~= content@);
    }
    content
}

/// The layout composer is deterministic: two results of composing the same
/// leaves with the same margins and grid settings are the same text.
pub proof fn lemma_composer_deterministic(
    r1: Seq<char>,
    r2: Seq<char>,
    pairs: Seq<RectoVersoImagePair>,
    m: PageMargins,
    cfg: GridConfig,
)
    requires
        r1 == spec_typst_content(pairs, m, cfg),
        r2 == spec_typst_content(pairs, m, cfg),
    ensures
        r1 == r2,
{
}

/// A chunk of four leaves `[p0, p1, p2, p3]` produces exactly: a recto grid
/// holding the recto images of `p0`, `p1`, `p2` in order plus the recto image
/// of `p3` rotated by the configured angle, then a verso grid holding the
/// verso images of `p2`, `p1`, `p0` in that (mirrored) order plus the verso
/// image of `p3` rotated by the negated angle.
pub proof fn lemma_chunk_of_four(chunk: Seq<RectoVersoImagePair>, cfg: GridConfig)
    requires
        chunk.len() == 4,
    ensures
        chunk_blocks(chunk, cfg) == grid_block(
            cfg,
            image_cell(chunk[0].recto_path@, cfg.image_width as nat) + image_cell(
                chunk[1].recto_path@,
                cfg.image_width as nat,
            ) + image_cell(chunk[2].recto_path@, cfg.image_width as nat) + rotated_cell(
                chunk[3].recto_path@,
                cfg.image_width as nat,
                recto_angle(cfg),
            ),
        ) + grid_block(
            cfg,
            image_cell(chunk[2].verso_path@, cfg.image_width as nat) + image_cell(
                chunk[1].verso_path@,
                cfg.image_width as nat,
            ) + image_cell(chunk[0].verso_path@, cfg.image_width as nat) + rotated_cell(
                chunk[3].verso_path@,
                cfg.image_width as nat,
                verso_angle(cfg),
            ),
        ),
{
}

/// A chunk of two leaves `[p0, p1]` produces exactly: a recto grid holding
/// the recto images of `p0`, `p1` and no rotated cell, then a verso grid
/// holding the verso images of `p1`, `p0` and no rotated cell.
pub proof fn lemma_chunk_of_two(chunk: Seq<RectoVersoImagePair>, cfg: GridConfig)
    requires
        chunk.len() == 2,
    ensures
        chunk_blocks(chunk, cfg) == grid_block(
            cfg,
            image_cell(chunk[0].recto_path@, cfg.image_width as nat) + image_cell(
                chunk[1].recto_path@,
                cfg.image_width as nat,
            ),
        ) + grid_block(
            cfg,
            image_cell(chunk[1].verso_path@, cfg.image_width as nat) + image_cell(
                chunk[0].verso_path@,
                cfg.image_width as nat,
            ),
        ),
{
}

/// Up to four leaves form a single chunk: the whole markup is the margin
/// directive followed by exactly one recto grid and one verso grid.
pub proof fn lemma_single_chunk(pairs: Seq<RectoVersoImagePair>, m: PageMargins, cfg: GridConfig)
    requires
        1 <= pairs.len() <= 4,
    ensures
        spec_typst_content(pairs, m, cfg) == margin_block(m) + chunk_blocks(pairs, cfg),
{
    assert(pairs.subrange(0, pairs.len() as int) =~= pairs);
    assert(chunks_from(pairs, cfg, pairs.len() as int) =~= Seq::<char>::empty());
    assert(chunk_blocks(pairs, cfg) + Seq::<char>::empty() =~= chunk_blocks(pairs, cfg));
}

/// An empty leaf sequence yields the margin directive followed by the
/// placeholder text, and nothing else.
pub proof fn lemma_empty_sequence_markup(m: PageMargins, cfg: GridConfig)
    ensures
        spec_typst_content(Seq::empty(), m, cfg) == margin_block(m) + no_images_text(),
{
}

} // verus!
