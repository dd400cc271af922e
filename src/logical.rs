//! Axis validation and reductions of boolean flags over 2-D grids.
//!
//! A grid is a vector of rows that all hold `cols` flags. Reducing along
//! axis 0 yields one flag per row; along axis 1, one flag per column.

use vstd::prelude::*;

verus! {

/// Why a reduction along an axis was refused.
#[derive(Clone, Copy, Debug, PartialEq, Eq, Structural)]
pub enum LogicalError {
    /// `axis` exceeds `bound`, the largest index of one of the dimensions.
    AxisOutOfBoundsError { axis: usize, bound: usize },
}

/// `axis` is a valid index into every dimension of `shape`.
pub open spec fn axis_fits(axis: usize, shape: Seq<usize>) -> bool {
    forall|i: int| 0 <= i < shape.len() ==> axis < #[trigger] shape[i]
}

/// `k` is the first dimension of `shape` that `axis` does not fit.
pub open spec fn first_misfit(axis: usize, shape: Seq<usize>, k: int) -> bool {
    &&& 0 <= k < shape.len()
    &&& axis >= shape[k]
    &&& forall|i: int| 0 <= i < k ==> axis < #[trigger] shape[i]
}

/// Checks `axis` against every dimension of `shape`; the error names the
/// largest index of the first dimension that it exceeds.
pub fn check_axis(axis: usize, shape: &[usize]) -> (r: Result<(), LogicalError>)
    requires
        forall|i: int| 0 <= i < shape@.len() ==> #[trigger] shape@[i] > 0,
    ensures
        r is Ok <==> axis_fits(axis, shape@),
        r is Err ==> exists|k: int|
            first_misfit(axis, shape@, k) && r == Err::<(), LogicalError>(
                LogicalError::AxisOutOfBoundsError { axis, bound: (shape@[k] - 1) as usize },
            ),
{
    let mut i: usize = 0;
    while i < shape.len()
        invariant
            0 <= i <= shape@.len(),
            forall|j: int| 0 <= j < shape@.len() ==> #[trigger] shape@[j] > 0,
            forall|j: int| 0 <= j < i ==> axis < #[trigger] shape@[j],
        decreases shape@.len() - i,
    {
        let bound = shape[i] - 1;
        if axis > bound {
            let r = Err(LogicalError::AxisOutOfBoundsError { axis, bound });
            assert(first_misfit(axis, shape@, i as int));
            return r;
        }
        i += 1;
    }
    Ok(())
}

/// Whether every flag is set (true for no flags).
pub fn all(flags: &[bool]) -> (r: bool)
    ensures
        r == forall|i: int| 0 <= i < flags@.len() ==> #[trigger] flags@[i],
{
    let mut i: usize = 0;
    while i < flags.len()
        invariant
            0 <= i <= flags@.len(),
            forall|j: int| 0 <= j < i ==> #[trigger] flags@[j],
        decreases flags@.len() - i,
    {
        if !flags[i] {
            return false;
        }
        i += 1;
    }
    true
}

/// Whether some flag is set (false for no flags).
pub fn any(flags: &[bool]) -> (r: bool)
    ensures
        r == exists|i: int| 0 <= i < flags@.len() && #[trigger] flags@[i],
{
    let mut i: usize = 0;
    while i < flags.len()
        invariant
            0 <= i <= flags@.len(),
            forall|j: int| 0 <= j < i ==> !#[trigger] flags@[j],
        decreases flags@.len() - i,
    {
        if flags[i] {
            return true;
        }
        i += 1;
    }
    false
}

/// `grid` holds at least one row, and each of its rows holds `cols > 0` flags.
pub open spec fn is_grid(grid: Seq<Vec<bool>>, cols: usize) -> bool {
    &&& grid.len() > 0
    &&& cols > 0
    &&& forall|i: int| 0 <= i < grid.len() ==> (#[trigger] grid[i])@.len() == cols
}

/// The shape of a grid, rows first.
pub open spec fn grid_shape(grid: Seq<Vec<bool>>, cols: usize) -> Seq<usize> {
    seq![grid.len() as usize, cols]
}

/// A reduction along an axis that fits the grid's shape but that names
/// neither rows nor columns has no meaning.
pub open spec fn axis_usable(grid: Seq<Vec<bool>>, cols: usize, axis: usize) -> bool {
    axis <= 1 || !axis_fits(axis, grid_shape(grid, cols))
}

/// Every one of the `cols` flags of row `i` is set.
pub open spec fn row_all(grid: Seq<Vec<bool>>, i: int, cols: usize) -> bool {
    forall|j: int| 0 <= j < cols ==> #[trigger] grid[i]@[j]
}

/// Some flag of row `i` is set.
pub open spec fn row_any(grid: Seq<Vec<bool>>, i: int, cols: usize) -> bool {
    exists|j: int| 0 <= j < cols && #[trigger] grid[i]@[j]
}

/// Every flag of column `j` is set.
pub open spec fn col_all(grid: Seq<Vec<bool>>, j: int) -> bool {
    forall|i: int| 0 <= i < grid.len() ==> #[trigger] grid[i]@[j]
}

/// Some flag of column `j` is set.
pub open spec fn col_any(grid: Seq<Vec<bool>>, j: int) -> bool {
    exists|i: int| 0 <= i < grid.len() && #[trigger] grid[i]@[j]
}

/// What reducing `grid` along `axis` gives, with `all` when `conj` holds
/// and `any` otherwise.
pub open spec fn spec_reduce(grid: Seq<Vec<bool>>, cols: usize, axis: usize, conj: bool) -> Seq<
    bool,
> {
    if axis == 0 {
        Seq::new(
            grid.len(),
            |i: int|
                if conj {
                    row_all(grid, i, cols)
                } else {
                    row_any(grid, i, cols)
                },
        )
    } else {
        Seq::new(
            cols as nat,
            |j: int|
                if conj {
                    col_all(grid, j)
                } else {
                    col_any(grid, j)
                },
        )
    }
}

/// Reduces one column with `all` (when `conj`) or `any`.
fn reduce_column(grid: &Vec<Vec<bool>>, cols: usize, j: usize, conj: bool) -> (r: bool)
    requires
        is_grid(grid@, cols),
        j < cols,
    ensures
        r == if conj {
            col_all(grid@, j as int)
        } else {
            col_any(grid@, j as int)
        },
{
    let mut i: usize = 0;
    while i < grid.len()
        invariant
            is_grid(grid@, cols),
            j < cols,
            0 <= i <= grid@.len(),
            forall|k: int| 0 <= k < i ==> #[trigger] grid@[k]@[j as int] == conj,
        decreases grid@.len() - i,
    {
        assert(grid@[i as int]@.len() == cols);
        if grid[i][j] != conj {
            assert(grid@[i as int]@[j as int] != conj);
            return !conj;
        }
        i += 1;
    }
    conj
}

/// Reduces `grid` along `axis`, with `all` when `conj` holds and `any` otherwise.
fn reduce_axis(grid: &Vec<Vec<bool>>, cols: usize, axis: usize, conj: bool) -> (r: Result<
    Vec<bool>,
    LogicalError,
>)
    requires
        is_grid(grid@, cols),
        axis_usable(grid@, cols, axis),
    ensures
        r is Ok <==> axis_fits(axis, grid_shape(grid@, cols)),
        r is Ok ==> r->Ok_0@ == spec_reduce(grid@, cols, axis, conj),
        r is Err ==> exists|k: int|
            first_misfit(axis, grid_shape(grid@, cols), k) && r == Err::<Vec<bool>, LogicalError>(
                LogicalError::AxisOutOfBoundsError {
                    axis,
                    bound: (grid_shape(grid@, cols)[k] - 1) as usize,
                },
            ),
{
    let shape: [usize; 2] = [grid.len(), cols];
    assert(shape@ == grid_shape(grid@, cols));
    match check_axis(axis, &shape) {
        Err(e) => {
            return Err(e);
        },
        Ok(()) => {},
    }
    let mut out: Vec<bool> = Vec::new();
    if axis == 0 {
        let mut i: usize = 0;
        while i < grid.len()
            invariant
                is_grid(grid@, cols),
                axis == 0,
                0 <= i <= grid@.len(),
                out@ == spec_reduce(grid@, cols, axis, conj).subrange(0, i as int),
            decreases grid@.len() - i,
        {
            let row = &grid[i];
            assert(row@.len() == cols);
            let flag = if conj {
                all(row.as_slice())
            } else {
                any(row.as_slice())
            };
            out.push(flag);
            i += 1;
            assert(out@ =~= spec_reduce(grid@, cols, axis, conj).subrange(0, i as int));
        }
    } else {
        let mut j: usize = 0;
        while j < cols
            invariant
                is_grid(grid@, cols),
                axis == 1,
                0 <= j <= cols,
                out@ == spec_reduce(grid@, cols, axis, conj).subrange(0, j as int),
            decreases cols - j,
        {
            let flag = reduce_column(grid, cols, j, conj);
            out.push(flag);
            j += 1;
            assert(out@ =~= spec_reduce(grid@, cols, axis, conj).subrange(0, j as int));
        }
    }
    assert(out@ =~= spec_reduce(grid@, cols, axis, conj));
    Ok(out)
}

/// For each row (axis 0) or column (axis 1) of `grid`, whether all its flags are set.
pub fn axis_all(grid: &Vec<Vec<bool>>, cols: usize, axis: usize) -> (r: Result<
    Vec<bool>,
    LogicalError,
>)
    requires
        is_grid(grid@, cols),
        axis_usable(grid@, cols, axis),
    ensures
        r is Ok <==> axis_fits(axis, grid_shape(grid@, cols)),
        r is Ok ==> r->Ok_0@ == spec_reduce(grid@, cols, axis, true),
        r is Err ==> exists|k: int|
            first_misfit(axis, grid_shape(grid@, cols), k) && r == Err::<Vec<bool>, LogicalError>(
                LogicalError::AxisOutOfBoundsError {
                    axis,
                    bound: (grid_shape(grid@, cols)[k] - 1) as usize,
                },
            ),
{
    reduce_axis(grid, cols, axis, true)
}

/// For each row (axis 0) or column (axis 1) of `grid`, whether any of its flags is set.
pub fn axis_any(grid: &Vec<Vec<bool>>, cols: usize, axis: usize) -> (r: Result<
    Vec<bool>,
    LogicalError,
>)
    requires
        is_grid(grid@, cols),
        axis_usable(grid@, cols, axis),
    ensures
        r is Ok <==> axis_fits(axis, grid_shape(grid@, cols)),
        r is Ok ==> r->Ok_0@ == spec_reduce(grid@, cols, axis, false),
        r is Err ==> exists|k: int|
            first_misfit(axis, grid_shape(grid@, cols), k) && r == Err::<Vec<bool>, LogicalError>(
                LogicalError::AxisOutOfBoundsError {
                    axis,
                    bound: (grid_shape(grid@, cols)[k] - 1) as usize,
                },
            ),
{
    reduce_axis(grid, cols, axis, false)
}

} // verus!
