//! The square grid of modules that a symbol consists of.

use crate::symbol::{module_at, size_of, symbol_module, symbol_size};
use vstd::arithmetic::div_mod::lemma_fundamental_div_mod_converse;
use vstd::prelude::*;

verus! {

/// The grid of `size` rows of `size` modules each that the flat, row-major
/// sequence `modules` lays out. Empty for a negative size.
pub open spec fn grid_of(size: int, modules: Seq<bool>) -> Seq<Seq<bool>> {
    if size < 0 {
        Seq::empty()
    } else {
        Seq::new(size as nat, |y: int| Seq::new(size as nat, |x: int| modules[y * size + x]))
    }
}

/// Every row of the grid is as long as the grid has rows.
pub open spec fn is_square(grid: Seq<Seq<bool>>) -> bool {
    forall|y: int| 0 <= y < grid.len() ==> (#[trigger] grid[y]).len() == grid.len()
}

/// Whether the module at column `x` and row `y` is set. Coordinates outside
/// the grid belong to the quiet zone and are never set.
pub open spec fn dark(grid: Seq<Seq<bool>>, x: int, y: int) -> bool {
    0 <= y < grid.len() && 0 <= x < grid[y].len() && grid[y][x]
}

/// The grid of modules of an encoded symbol.
pub open spec fn symbol_grid(code: qrcodegen::QrCode) -> Seq<Seq<bool>> {
    let n = symbol_size(code);
    if n < 0 {
        Seq::empty()
    } else {
        Seq::new(n as nat, |y: int| Seq::new(n as nat, |x: int| symbol_module(code, x, y)))
    }
}

/// Position `y * n + x` of a row-major grid of side `n` is column `x` of
/// row `y`, and lies within the grid.
pub proof fn lemma_cell_index(n: int, x: int, y: int)
    requires
        0 <= x < n,
        0 <= y < n,
    ensures
        0 <= y * n + x < n * n,
        (y * n + x) % n == x,
        (y * n + x) / n == y,
{
    assert(0 <= y * n && y * n + n <= n * n) by (nonlinear_arith)
        requires
            0 <= y < n,
    ;
    lemma_fundamental_div_mod_converse(y * n + x, n, y, x);
}

/// An immutable square grid of modules.
pub struct Matrix {
    size: i32,
    modules: Vec<bool>,
}

impl View for Matrix {
    type V = Seq<Seq<bool>>;

    closed spec fn view(&self) -> Seq<Seq<bool>> {
        grid_of(self.size as int, self.modules@)
    }
}

impl Matrix {
    #[verifier::type_invariant]
    spec fn well_formed(self) -> bool {
        0 <= self.size && self.modules@.len() == self.size * self.size
    }

    /// Builds a matrix of side `size` from its modules in row-major order.
    /// There is a matrix exactly when `size` is not negative and `modules`
    /// holds `size * size` values.
    pub fn new(size: i32, modules: Vec<bool>) -> (r: Option<Matrix>)
        ensures
            r is Some <==> 0 <= size && modules@.len() == size * size,
            r matches Some(m) ==> m@ == grid_of(size as int, modules@),
    {
        if size < 0 {
            return None;
        }
        assert(0 <= size * size <= 0x3fff_ffff_0000_0001) by (nonlinear_arith)
            requires
                0 <= size <= 0x7fff_ffff,
        ;
        let cells: u64 = (size as u64) * (size as u64);
        if modules.len() as u64 != cells {
            return None;
        }
        Some(Matrix { size, modules })
    }

    /// Copies the modules of an encoded symbol.
    pub fn from_code(code: &qrcodegen::QrCode) -> (m: Matrix)
        ensures
            m@ == symbol_grid(*code),
            m@.len() == symbol_size(*code),
            21 <= m@.len() <= 177,
    {
        let n: i32 = size_of(code);
        let mut modules: Vec<bool> = Vec::new();
        let mut y: i32 = 0;
        while y < n
            invariant
                n == symbol_size(*code),
                21 <= n <= 177,
                0 <= y <= n,
                modules@.len() == y * n,
                forall|k: int|
                    0 <= k < modules@.len() ==> #[trigger] modules@[k] == symbol_module(
                        *code,
                        k % (n as int),
                        k / (n as int),
                    ),
            decreases n - y,
        {
            let mut x: i32 = 0;
            while x < n
                invariant
                    n == symbol_size(*code),
                    21 <= n <= 177,
                    0 <= y < n,
                    0 <= x <= n,
                    modules@.len() == y * n + x,
                    forall|k: int|
                        0 <= k < modules@.len() ==> #[trigger] modules@[k] == symbol_module(
                            *code,
                            k % (n as int),
                            k / (n as int),
                        ),
                decreases n - x,
            {
                proof {
                    lemma_cell_index(n as int, x as int, y as int);
                }
                modules.push(module_at(code, x, y));
                x = x + 1;
            }
            assert(y * n + n == (y + 1) * n) by (nonlinear_arith);
            y = y + 1;
        }
        let m = Matrix { size: n, modules };
        proof {
            assert forall|r: int, c: int| 0 <= r < n && 0 <= c < n implies #[trigger] m@[r][c]
                == symbol_module(*code, c, r) by {
                lemma_cell_index(n as int, c, r);
            }
            assert(m@ =~~= symbol_grid(*code));
        }
        m
    }

    /// The side length, in modules.
    pub fn size(&self) -> (n: i32)
        ensures
            n == self@.len(),
            is_square(self@),
    {
        proof {
            use_type_invariant(self);
        }
        self.size
    }

    /// Whether the module at column `x` and row `y` is set; `false` for
    /// every coordinate outside the grid.
    pub fn get_module(&self, x: i32, y: i32) -> (set: bool)
        ensures
            set == dark(self@, x as int, y as int),
    {
        proof {
            use_type_invariant(self);
        }
        if 0 <= x && x < self.size && 0 <= y && y < self.size {
            proof {
                lemma_cell_index(self.size as int, x as int, y as int);
                assert(0 <= (y as int) * (self.size as int)) by (nonlinear_arith)
                    requires
                        0 <= y,
                        0 <= self.size,
                ;
            }
            let cells: usize = self.modules.len();
            assert(y * self.size + x < cells);
            let index: usize = (y as usize) * (self.size as usize) + (x as usize);
            self.modules[index]
        } else {
            false
        }
    }
}

} // verus!
