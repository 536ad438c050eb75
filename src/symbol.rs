//! A finished QR symbol: its version, its level and its module matrix.
use vstd::prelude::*;
use crate::options::QRCorrectionLevel;
use crate::outside::{rows_view, symbol_shaped};

verus! {

/// The module matrix of an encoded payload, row by row, dark modules `true`.
pub struct Symbol {
    version: u8,
    level: QRCorrectionLevel,
    modules: Vec<Vec<bool>>,
}

impl View for Symbol {
    type V = Seq<Seq<bool>>;

    closed spec fn view(&self) -> Seq<Seq<bool>> {
        rows_view(self.modules)
    }
}

/// The side, in modules, of a symbol of version `version`.
pub open spec fn side_of(version: int) -> int {
    4 * version + 17
}

impl Symbol {
    /// The version the symbol was built with.
    pub closed spec fn spec_version(&self) -> int {
        self.version as int
    }

    /// The error-correction level that was asked for (the encoder raises it
    /// where that needs no larger version).
    pub closed spec fn spec_level(&self) -> QRCorrectionLevel {
        self.level
    }

    /// A version from 1 to 40 and a square matrix of the side that it fixes.
    pub open spec fn wf(&self) -> bool {
        &&& 1 <= self.spec_version() <= 40
        &&& self@.len() == side_of(self.spec_version())
        &&& forall|i: int| 0 <= i < self@.len() ==> (#[trigger] self@[i]).len() == self@.len()
    }

    /// Takes a matrix of a symbol version and reads the version off its side.
    pub(crate) fn from_rows(modules: Vec<Vec<bool>>, level: QRCorrectionLevel) -> (r: Symbol)
        requires
            symbol_shaped(rows_view(modules)),
        ensures
            r.wf(),
            r@ == rows_view(modules),
            r.spec_level() == level,
    {
        let n: usize = modules.len();
        proof {
            assert(rows_view(modules).len() == n);
        }
        let version: u8 = ((n - 17) / 4) as u8;
        let r = Symbol { version, level, modules };
        assert forall|i: int| 0 <= i < r@.len() implies (#[trigger] r@[i]).len() == r@.len() by {
            assert(rows_view(modules)[i].len() == rows_view(modules).len());
        }
        r
    }

    /// The symbol's version, from 1 to 40.
    pub fn version(&self) -> (r: u8)
        ensures
            r as int == self.spec_version(),
    {
        self.version
    }

    /// The error-correction level that was asked for.
    pub fn level(&self) -> (r: QRCorrectionLevel)
        ensures
            r == self.spec_level(),
    {
        self.level
    }

    /// The number of modules along each side.
    pub fn size(&self) -> (r: usize)
        requires
            self.wf(),
        ensures
            r == self@.len(),
            r == side_of(self.spec_version()),
    {
        self.modules.len()
    }

    /// Whether the module at `row`, `col` is dark; `false` outside the matrix.
    pub fn is_dark(&self, row: usize, col: usize) -> (r: bool)
        requires
            self.wf(),
        ensures
            r == (row < self@.len() && col < self@.len() && self@[row as int][col as int]),
    {
        let n: usize = self.modules.len();
        if row < n && col < n {
            proof {
                assert(self@[row as int].len() == n);
            }
            self.modules[row][col]
        } else {
            false
        }
    }
}

} // verus!
