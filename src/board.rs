//! The board: which cells lie on it, and how many distinct cells it holds.
use vstd::prelude::*;
use vstd::set_lib::{lemma_int_range, lemma_len_subset, set_int_range};
use crate::geometry::Point;

verus! {

/// `p` lies on a board of `width` columns and `height` rows.
pub open spec fn in_board(p: Point, width: int, height: int) -> bool {
    p.x < width && p.y < height
}

/// The row-major number of a cell on a board `width` columns wide.
pub open spec fn cell_number(p: Point, width: int) -> int {
    p.y * width + p.x
}

proof fn lemma_cell_number_injective(p: Point, q: Point, width: int, height: int)
    requires
        in_board(p, width, height),
        in_board(q, width, height),
        cell_number(p, width) == cell_number(q, width),
    ensures
        p == q,
{
    let (px, py, qx, qy) = (p.x as int, p.y as int, q.x as int, q.y as int);
    assert(py == qy && px == qx) by (nonlinear_arith)
        requires
            py * width + px == qy * width + qx,
            0 <= px < width,
            0 <= qx < width,
            0 <= py,
            0 <= qy,
    {
        if py < qy {
            assert(qy * width >= (py + 1) * width);
        } else if qy < py {
            assert(py * width >= (qy + 1) * width);
        }
    }
}

proof fn lemma_cell_number_range(p: Point, width: int, height: int)
    requires
        in_board(p, width, height),
    ensures
        0 <= cell_number(p, width) < width * height,
{
    let (px, py) = (p.x as int, p.y as int);
    assert(0 <= py * width + px < width * height) by (nonlinear_arith)
        requires
            0 <= px < width,
            0 <= py < height,
    {
        assert(py * width <= (height - 1) * width);
    }
}

/// Pairwise distinct cells of a board are no more than the board has.
pub proof fn lemma_distinct_cells_fit(cells: Seq<Point>, width: int, height: int)
    requires
        width >= 0,
        height >= 0,
        cells.no_duplicates(),
        forall|i: int| 0 <= i < cells.len() ==> in_board(#[trigger] cells[i], width, height),
    ensures
        cells.len() <= width * height,
{
    let numbers = cells.map_values(|p: Point| cell_number(p, width));
    assert forall|i: int, j: int| 0 <= i < numbers.len() && 0 <= j < numbers.len() && i != j
        implies numbers[i] != numbers[j] by {
        if numbers[i] == numbers[j] {
            lemma_cell_number_injective(cells[i], cells[j], width, height);
        }
    }
    assert(numbers.no_duplicates());
    numbers.unique_seq_to_set();
    let all = set_int_range(0, width * height);
    assert(width * height >= 0) by (nonlinear_arith)
        requires
            width >= 0,
            height >= 0,
    ;
    assert forall|n: int| numbers.to_set().contains(n) implies all.contains(n) by {
        let i = choose|i: int| 0 <= i < numbers.len() && numbers[i] == n;
        lemma_cell_number_range(cells[i], width, height);
    }
    lemma_int_range(0, width * height);
    lemma_len_subset(numbers.to_set(), all);
}

} // verus!
