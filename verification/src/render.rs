//! Canonical string renderings of the kernel's values.
//!
//! A scalar renders through its own capability
//! ([`crate::scalar::Scalar::render`]); everything here builds on
//! that. Vectors render as a comma-separated list in angle brackets,
//! an angle appends the degree sign exactly when it is in degree
//! form, and an Euler triple follows its display-style tag. Matrices
//! render as a bracketed grid with every cell right-aligned against
//! the widest one; widths are measured in bytes, as the machine
//! reports them.

use crate::angle::Angle;
use crate::euler::{DebugFlag, Euler};
use crate::matrix::{Matrix2x2, Matrix3x3, Matrix4x4};
use crate::scalar::Scalar;
use crate::vector::{Vec2, Vec3, Vec4};
use vstd::prelude::*;
use vstd::string::StringExecFns;
use vstd::utf8::encode_utf8;

verus! {

/// The byte width of a rendering, as the machine reports it.
pub open spec fn width_spec(chars: Seq<char>) -> usize {
    encode_utf8(chars).len() as usize
}

/// A run of `n` spaces.
pub open spec fn spaces_spec(n: nat) -> Seq<char>
    decreases n,
{
    if n == 0 {
        Seq::empty()
    } else {
        spaces_spec((n - 1) as nat).push(' ')
    }
}

/// The cell right-aligned as the grid renderer aligns it: to the
/// width `longest - width + 1` (saturated at the machine bound), so
/// a narrow cell gains leading spaces.
pub open spec fn pad_cell_spec(cell: Seq<char>, longest: usize) -> Seq<char> {
    let w = width_spec(cell) as int;
    let d = if longest - w + 1 <= usize::MAX as int {
        longest - w + 1
    } else {
        usize::MAX as int
    };
    if d > w {
        spaces_spec((d - w) as nat) + cell
    } else {
        cell
    }
}

/// The byte width of a rendered string.
pub fn str_width(s: &String) -> (n: usize)
    ensures
        n == width_spec(s@),
{
    s.as_str().len()
}

/// Appends `n` spaces.
fn push_spaces(out: &mut String, n: usize)
    ensures
        final (out)@ == old(out)@ + spaces_spec(n as nat),
{
    proof {
        assert(out@ =~= old(out)@ + spaces_spec(0));
    }
    let mut i: usize = 0;
    while i < n
        invariant
            i <= n,
            out@ == old(out)@ + spaces_spec(i as nat),
        decreases n - i,
    {
        out.append(" ");
        i = i + 1;
        proof {
            reveal_strlit(" ");
            assert(out@ =~= old(out)@ + spaces_spec(i as nat));
        }
    }
}

/// Appends the cell right-aligned against the widest cell.
fn push_cell(out: &mut String, cell: &String, longest: usize)
    requires
        width_spec(cell@) <= longest,
    ensures
        final (out)@ == old(out)@ + pad_cell_spec(cell@, longest),
{
    let w = str_width(cell);
    let d = (longest - w).saturating_add(1);
    if d > w {
        push_spaces(out, d - w);
    }
    out.append(cell.as_str());
    proof {
        assert(out@ =~= old(out)@ + pad_cell_spec(cell@, longest));
    }
}

/// One two-cell grid row: the padded cells, space-separated, between
/// the two bracket drawings.
pub open spec fn row2_spec(
    first: Seq<char>,
    a: Seq<char>,
    b: Seq<char>,
    last: Seq<char>,
    longest: usize,
) -> Seq<char> {
    first + pad_cell_spec(a, longest) + " "@ + pad_cell_spec(b, longest) + last
}

/// One three-cell grid row.
pub open spec fn row3_spec(
    first: Seq<char>,
    a: Seq<char>,
    b: Seq<char>,
    c: Seq<char>,
    last: Seq<char>,
    longest: usize,
) -> Seq<char> {
    first + pad_cell_spec(a, longest) + " "@ + pad_cell_spec(b, longest) + " "@ + pad_cell_spec(
        c,
        longest,
    ) + last
}

/// One four-cell grid row.
pub open spec fn row4_spec(
    first: Seq<char>,
    a: Seq<char>,
    b: Seq<char>,
    c: Seq<char>,
    d: Seq<char>,
    last: Seq<char>,
    longest: usize,
) -> Seq<char> {
    first + pad_cell_spec(a, longest) + " "@ + pad_cell_spec(b, longest) + " "@ + pad_cell_spec(
        c,
        longest,
    ) + " "@ + pad_cell_spec(d, longest) + last
}

impl<S: Scalar> Matrix2x2<S> {
    /// The row-major scan for the widest rendered cell, later cells
    /// winning ties: its row, its column, and its byte width.
    pub open spec fn longest_char_spec(self) -> (usize, usize, usize) {
        let w00 = width_spec(self.r0.x.render_spec()@);
        let w01 = width_spec(self.r0.y.render_spec()@);
        let w10 = width_spec(self.r1.x.render_spec()@);
        let w11 = width_spec(self.r1.y.render_spec()@);
        let a1 = if w00 >= 0 {
            (0usize, 0usize, w00)
        } else {
            (0usize, 0usize, 0usize)
        };
        let a2 = if w01 >= a1.2 {
            (0usize, 1usize, w01)
        } else {
            a1
        };
        let a3 = if w10 >= a2.2 {
            (1usize, 0usize, w10)
        } else {
            a2
        };
        if w11 >= a3.2 {
            (1usize, 1usize, w11)
        } else {
            a3
        }
    }

    /// The position and byte width of the widest rendered cell, later
    /// cells winning ties.
    pub fn longest_char(&self) -> (out: (usize, usize, usize))
        ensures
            out == self.longest_char_spec(),
    {
        let w00 = str_width(&self.r0.x.render());
        let w01 = str_width(&self.r0.y.render());
        let w10 = str_width(&self.r1.x.render());
        let w11 = str_width(&self.r1.y.render());
        let mut row: usize = 0;
        let mut col: usize = 0;
        let mut len: usize = 0;
        if w00 >= len {
            row = 0;
            col = 0;
            len = w00;
        }
        if w01 >= len {
            row = 0;
            col = 1;
            len = w01;
        }
        if w10 >= len {
            row = 1;
            col = 0;
            len = w10;
        }
        if w11 >= len {
            row = 1;
            col = 1;
            len = w11;
        }
        (row, col, len)
    }

    /// The rendering: a bracketed grid, one line per row, every cell
    /// right-aligned against the widest one.
    pub open spec fn render_matrix_spec(self) -> Seq<char> {
        let longest = self.longest_char_spec().2;
        row2_spec(
            "\u{23a1}"@,
            self.r0.x.render_spec()@,
            self.r0.y.render_spec()@,
            "\u{23a4}"@,
            longest,
        ) + "\n"@ + row2_spec(
            "\u{23a3}"@,
            self.r1.x.render_spec()@,
            self.r1.y.render_spec()@,
            "\u{23a6}"@,
            longest,
        )
    }

    /// Renders the bracketed, cell-aligned grid.
    pub fn to_display_string(&self) -> (out: String)
        ensures
            out@ == self.render_matrix_spec(),
    {
        let c00 = self.r0.x.render();
        let c01 = self.r0.y.render();
        let c10 = self.r1.x.render();
        let c11 = self.r1.y.render();
        let longest = self.longest_char().2;
        proof {
            assert(width_spec(c00@) <= longest);
            assert(width_spec(c01@) <= longest);
            assert(width_spec(c10@) <= longest);
            assert(width_spec(c11@) <= longest);
        }
        let mut s = String::new();
        s.append("\u{23a1}");
        push_cell(&mut s, &c00, longest);
        s.append(" ");
        push_cell(&mut s, &c01, longest);
        s.append("\u{23a4}");
        s.append("\n");
        s.append("\u{23a3}");
        push_cell(&mut s, &c10, longest);
        s.append(" ");
        push_cell(&mut s, &c11, longest);
        s.append("\u{23a6}");
        proof {
            assert(s@ =~= self.render_matrix_spec());
        }
        s
    }
}

impl<S: Scalar> Matrix3x3<S> {
    /// The row-major scan for the widest rendered cell, later cells
    /// winning ties: its row, its column, and its byte width.
    pub open spec fn longest_char_spec(self) -> (usize, usize, usize) {
        let w00 = width_spec(self.r0.x.render_spec()@);
        let w01 = width_spec(self.r0.y.render_spec()@);
        let w02 = width_spec(self.r0.z.render_spec()@);
        let w10 = width_spec(self.r1.x.render_spec()@);
        let w11 = width_spec(self.r1.y.render_spec()@);
        let w12 = width_spec(self.r1.z.render_spec()@);
        let w20 = width_spec(self.r2.x.render_spec()@);
        let w21 = width_spec(self.r2.y.render_spec()@);
        let w22 = width_spec(self.r2.z.render_spec()@);
        let a1 = if w00 >= 0 {
            (0usize, 0usize, w00)
        } else {
            (0usize, 0usize, 0usize)
        };
        let a2 = if w01 >= a1.2 {
            (0usize, 1usize, w01)
        } else {
            a1
        };
        let a3 = if w02 >= a2.2 {
            (0usize, 2usize, w02)
        } else {
            a2
        };
        let a4 = if w10 >= a3.2 {
            (1usize, 0usize, w10)
        } else {
            a3
        };
        let a5 = if w11 >= a4.2 {
            (1usize, 1usize, w11)
        } else {
            a4
        };
        let a6 = if w12 >= a5.2 {
            (1usize, 2usize, w12)
        } else {
            a5
        };
        let a7 = if w20 >= a6.2 {
            (2usize, 0usize, w20)
        } else {
            a6
        };
        let a8 = if w21 >= a7.2 {
            (2usize, 1usize, w21)
        } else {
            a7
        };
        if w22 >= a8.2 {
            (2usize, 2usize, w22)
        } else {
            a8
        }
    }

    /// The position and byte width of the widest rendered cell, later
    /// cells winning ties.
    pub fn longest_char(&self) -> (out: (usize, usize, usize))
        ensures
            out == self.longest_char_spec(),
    {
        let w00 = str_width(&self.r0.x.render());
        let w01 = str_width(&self.r0.y.render());
        let w02 = str_width(&self.r0.z.render());
        let w10 = str_width(&self.r1.x.render());
        let w11 = str_width(&self.r1.y.render());
        let w12 = str_width(&self.r1.z.render());
        let w20 = str_width(&self.r2.x.render());
        let w21 = str_width(&self.r2.y.render());
        let w22 = str_width(&self.r2.z.render());
        let mut row: usize = 0;
        let mut col: usize = 0;
        let mut len: usize = 0;
        if w00 >= len {
            row = 0;
            col = 0;
            len = w00;
        }
        if w01 >= len {
            row = 0;
            col = 1;
            len = w01;
        }
        if w02 >= len {
            row = 0;
            col = 2;
            len = w02;
        }
        if w10 >= len {
            row = 1;
            col = 0;
            len = w10;
        }
        if w11 >= len {
            row = 1;
            col = 1;
            len = w11;
        }
        if w12 >= len {
            row = 1;
            col = 2;
            len = w12;
        }
        if w20 >= len {
            row = 2;
            col = 0;
            len = w20;
        }
        if w21 >= len {
            row = 2;
            col = 1;
            len = w21;
        }
        if w22 >= len {
            row = 2;
            col = 2;
            len = w22;
        }
        (row, col, len)
    }

    /// The rendering: a bracketed grid, one line per row, every cell
    /// right-aligned against the widest one.
    pub open spec fn render_matrix_spec(self) -> Seq<char> {
        let longest = self.longest_char_spec().2;
        row3_spec(
            "\u{23a1}"@,
            self.r0.x.render_spec()@,
            self.r0.y.render_spec()@,
            self.r0.z.render_spec()@,
            "\u{23a4}"@,
            longest,
        ) + "\n"@ + row3_spec(
            "\u{23a5}"@,
            self.r1.x.render_spec()@,
            self.r1.y.render_spec()@,
            self.r1.z.render_spec()@,
            "\u{23a5}"@,
            longest,
        ) + "\n"@ + row3_spec(
            "\u{23a3}"@,
            self.r2.x.render_spec()@,
            self.r2.y.render_spec()@,
            self.r2.z.render_spec()@,
            "\u{23a6}"@,
            longest,
        )
    }

    /// Renders the bracketed, cell-aligned grid.
    pub fn to_display_string(&self) -> (out: String)
        ensures
            out@ == self.render_matrix_spec(),
    {
        let c00 = self.r0.x.render();
        let c01 = self.r0.y.render();
        let c02 = self.r0.z.render();
        let c10 = self.r1.x.render();
        let c11 = self.r1.y.render();
        let c12 = self.r1.z.render();
        let c20 = self.r2.x.render();
        let c21 = self.r2.y.render();
        let c22 = self.r2.z.render();
        let longest = self.longest_char().2;
        proof {
            assert(width_spec(c00@) <= longest);
            assert(width_spec(c01@) <= longest);
            assert(width_spec(c02@) <= longest);
            assert(width_spec(c10@) <= longest);
            assert(width_spec(c11@) <= longest);
            assert(width_spec(c12@) <= longest);
            assert(width_spec(c20@) <= longest);
            assert(width_spec(c21@) <= longest);
            assert(width_spec(c22@) <= longest);
        }
        let mut s = String::new();
        s.append("\u{23a1}");
        push_cell(&mut s, &c00, longest);
        s.append(" ");
        push_cell(&mut s, &c01, longest);
        s.append(" ");
        push_cell(&mut s, &c02, longest);
        s.append("\u{23a4}");
        s.append("\n");
        s.append("\u{23a5}");
        push_cell(&mut s, &c10, longest);
        s.append(" ");
        push_cell(&mut s, &c11, longest);
        s.append(" ");
        push_cell(&mut s, &c12, longest);
        s.append("\u{23a5}");
        s.append("\n");
        s.append("\u{23a3}");
        push_cell(&mut s, &c20, longest);
        s.append(" ");
        push_cell(&mut s, &c21, longest);
        s.append(" ");
        push_cell(&mut s, &c22, longest);
        s.append("\u{23a6}");
        proof {
            assert(s@ =~= self.render_matrix_spec());
        }
        s
    }
}

impl<S: Scalar> Matrix4x4<S> {
    /// The row-major scan for the widest rendered cell, later cells
    /// winning ties: its row, its column, and its byte width.
    pub open spec fn longest_char_spec(self) -> (usize, usize, usize) {
        let w00 = width_spec(self.r0.x.render_spec()@);
        let w01 = width_spec(self.r0.y.render_spec()@);
        let w02 = width_spec(self.r0.z.render_spec()@);
        let w03 = width_spec(self.r0.w.render_spec()@);
        let w10 = width_spec(self.r1.x.render_spec()@);
        let w11 = width_spec(self.r1.y.render_spec()@);
        let w12 = width_spec(self.r1.z.render_spec()@);
        let w13 = width_spec(self.r1.w.render_spec()@);
        let w20 = width_spec(self.r2.x.render_spec()@);
        let w21 = width_spec(self.r2.y.render_spec()@);
        let w22 = width_spec(self.r2.z.render_spec()@);
        let w23 = width_spec(self.r2.w.render_spec()@);
        let w30 = width_spec(self.r3.x.render_spec()@);
        let w31 = width_spec(self.r3.y.render_spec()@);
        let w32 = width_spec(self.r3.z.render_spec()@);
        let w33 = width_spec(self.r3.w.render_spec()@);
        let a1 = if w00 >= 0 {
            (0usize, 0usize, w00)
        } else {
            (0usize, 0usize, 0usize)
        };
        let a2 = if w01 >= a1.2 {
            (0usize, 1usize, w01)
        } else {
            a1
        };
        let a3 = if w02 >= a2.2 {
            (0usize, 2usize, w02)
        } else {
            a2
        };
        let a4 = if w03 >= a3.2 {
            (0usize, 3usize, w03)
        } else {
            a3
        };
        let a5 = if w10 >= a4.2 {
            (1usize, 0usize, w10)
        } else {
            a4
        };
        let a6 = if w11 >= a5.2 {
            (1usize, 1usize, w11)
        } else {
            a5
        };
        let a7 = if w12 >= a6.2 {
            (1usize, 2usize, w12)
        } else {
            a6
        };
        let a8 = if w13 >= a7.2 {
            (1usize, 3usize, w13)
        } else {
            a7
        };
        let a9 = if w20 >= a8.2 {
            (2usize, 0usize, w20)
        } else {
            a8
        };
        let a10 = if w21 >= a9.2 {
            (2usize, 1usize, w21)
        } else {
            a9
        };
        let a11 = if w22 >= a10.2 {
            (2usize, 2usize, w22)
        } else {
            a10
        };
        let a12 = if w23 >= a11.2 {
            (2usize, 3usize, w23)
        } else {
            a11
        };
        let a13 = if w30 >= a12.2 {
            (3usize, 0usize, w30)
        } else {
            a12
        };
        let a14 = if w31 >= a13.2 {
            (3usize, 1usize, w31)
        } else {
            a13
        };
        let a15 = if w32 >= a14.2 {
            (3usize, 2usize, w32)
        } else {
            a14
        };
        if w33 >= a15.2 {
            (3usize, 3usize, w33)
        } else {
            a15
        }
    }

    /// The position and byte width of the widest rendered cell, later
    /// cells winning ties.
    pub fn longest_char(&self) -> (out: (usize, usize, usize))
        ensures
            out == self.longest_char_spec(),
    {
        let w00 = str_width(&self.r0.x.render());
        let w01 = str_width(&self.r0.y.render());
        let w02 = str_width(&self.r0.z.render());
        let w03 = str_width(&self.r0.w.render());
        let w10 = str_width(&self.r1.x.render());
        let w11 = str_width(&self.r1.y.render());
        let w12 = str_width(&self.r1.z.render());
        let w13 = str_width(&self.r1.w.render());
        let w20 = str_width(&self.r2.x.render());
        let w21 = str_width(&self.r2.y.render());
        let w22 = str_width(&self.r2.z.render());
        let w23 = str_width(&self.r2.w.render());
        let w30 = str_width(&self.r3.x.render());
        let w31 = str_width(&self.r3.y.render());
        let w32 = str_width(&self.r3.z.render());
        let w33 = str_width(&self.r3.w.render());
        let mut row: usize = 0;
        let mut col: usize = 0;
        let mut len: usize = 0;
        if w00 >= len {
            row = 0;
            col = 0;
            len = w00;
        }
        if w01 >= len {
            row = 0;
            col = 1;
            len = w01;
        }
        if w02 >= len {
            row = 0;
            col = 2;
            len = w02;
        }
        if w03 >= len {
            row = 0;
            col = 3;
            len = w03;
        }
        if w10 >= len {
            row = 1;
            col = 0;
            len = w10;
        }
        if w11 >= len {
            row = 1;
            col = 1;
            len = w11;
        }
        if w12 >= len {
            row = 1;
            col = 2;
            len = w12;
        }
        if w13 >= len {
            row = 1;
            col = 3;
            len = w13;
        }
        if w20 >= len {
            row = 2;
            col = 0;
            len = w20;
        }
        if w21 >= len {
            row = 2;
            col = 1;
            len = w21;
        }
        if w22 >= len {
            row = 2;
            col = 2;
            len = w22;
        }
        if w23 >= len {
            row = 2;
            col = 3;
            len = w23;
        }
        if w30 >= len {
            row = 3;
            col = 0;
            len = w30;
        }
        if w31 >= len {
            row = 3;
            col = 1;
            len = w31;
        }
        if w32 >= len {
            row = 3;
            col = 2;
            len = w32;
        }
        if w33 >= len {
            row = 3;
            col = 3;
            len = w33;
        }
        (row, col, len)
    }

    /// The rendering: a bracketed grid, one line per row, every cell
    /// right-aligned against the widest one.
    pub open spec fn render_matrix_spec(self) -> Seq<char> {
        let longest = self.longest_char_spec().2;
        row4_spec(
            "\u{23a1}"@,
            self.r0.x.render_spec()@,
            self.r0.y.render_spec()@,
            self.r0.z.render_spec()@,
            self.r0.w.render_spec()@,
            "\u{23a4}"@,
            longest,
        ) + "\n"@ + row4_spec(
            "\u{23a5}"@,
            self.r1.x.render_spec()@,
            self.r1.y.render_spec()@,
            self.r1.z.render_spec()@,
            self.r1.w.render_spec()@,
            "\u{23a5}"@,
            longest,
        ) + "\n"@ + row4_spec(
            "\u{23a5}"@,
            self.r2.x.render_spec()@,
            self.r2.y.render_spec()@,
            self.r2.z.render_spec()@,
            self.r2.w.render_spec()@,
            "\u{23a5}"@,
            longest,
        ) + "\n"@ + row4_spec(
            "\u{23a3}"@,
            self.r3.x.render_spec()@,
            self.r3.y.render_spec()@,
            self.r3.z.render_spec()@,
            self.r3.w.render_spec()@,
            "\u{23a6}"@,
            longest,
        )
    }

    /// Renders the bracketed, cell-aligned grid.
    #[verifier::rlimit(100)]
    pub fn to_display_string(&self) -> (out: String)
        ensures
            out@ == self.render_matrix_spec(),
    {
        let c00 = self.r0.x.render();
        let c01 = self.r0.y.render();
        let c02 = self.r0.z.render();
        let c03 = self.r0.w.render();
        let c10 = self.r1.x.render();
        let c11 = self.r1.y.render();
        let c12 = self.r1.z.render();
        let c13 = self.r1.w.render();
        let c20 = self.r2.x.render();
        let c21 = self.r2.y.render();
        let c22 = self.r2.z.render();
        let c23 = self.r2.w.render();
        let c30 = self.r3.x.render();
        let c31 = self.r3.y.render();
        let c32 = self.r3.z.render();
        let c33 = self.r3.w.render();
        let longest = self.longest_char().2;
        proof {
            assert(width_spec(c00@) <= longest);
            assert(width_spec(c01@) <= longest);
            assert(width_spec(c02@) <= longest);
            assert(width_spec(c03@) <= longest);
            assert(width_spec(c10@) <= longest);
            assert(width_spec(c11@) <= longest);
            assert(width_spec(c12@) <= longest);
            assert(width_spec(c13@) <= longest);
            assert(width_spec(c20@) <= longest);
            assert(width_spec(c21@) <= longest);
            assert(width_spec(c22@) <= longest);
            assert(width_spec(c23@) <= longest);
            assert(width_spec(c30@) <= longest);
            assert(width_spec(c31@) <= longest);
            assert(width_spec(c32@) <= longest);
            assert(width_spec(c33@) <= longest);
        }
        let mut s = String::new();
        s.append("\u{23a1}");
        push_cell(&mut s, &c00, longest);
        s.append(" ");
        push_cell(&mut s, &c01, longest);
        s.append(" ");
        push_cell(&mut s, &c02, longest);
        s.append(" ");
        push_cell(&mut s, &c03, longest);
        s.append("\u{23a4}");
        proof {
            assert(s@ =~= row4_spec(
                "\u{23a1}"@,
                c00@,
                c01@,
                c02@,
                c03@,
                "\u{23a4}"@,
                longest,
            ));
        }
        let ghost part0 = s@;
        s.append("\n");
        s.append("\u{23a5}");
        push_cell(&mut s, &c10, longest);
        s.append(" ");
        push_cell(&mut s, &c11, longest);
        s.append(" ");
        push_cell(&mut s, &c12, longest);
        s.append(" ");
        push_cell(&mut s, &c13, longest);
        s.append("\u{23a5}");
        proof {
            assert(s@ =~= part0 + "\n"@ + row4_spec(
                "\u{23a5}"@,
                c10@,
                c11@,
                c12@,
                c13@,
                "\u{23a5}"@,
                longest,
            ));
        }
        let ghost part1 = s@;
        s.append("\n");
        s.append("\u{23a5}");
        push_cell(&mut s, &c20, longest);
        s.append(" ");
        push_cell(&mut s, &c21, longest);
        s.append(" ");
        push_cell(&mut s, &c22, longest);
        s.append(" ");
        push_cell(&mut s, &c23, longest);
        s.append("\u{23a5}");
        proof {
            assert(s@ =~= part1 + "\n"@ + row4_spec(
                "\u{23a5}"@,
                c20@,
                c21@,
                c22@,
                c23@,
                "\u{23a5}"@,
                longest,
            ));
        }
        let ghost part2 = s@;
        s.append("\n");
        s.append("\u{23a3}");
        push_cell(&mut s, &c30, longest);
        s.append(" ");
        push_cell(&mut s, &c31, longest);
        s.append(" ");
        push_cell(&mut s, &c32, longest);
        s.append(" ");
        push_cell(&mut s, &c33, longest);
        s.append("\u{23a6}");
        proof {
            assert(s@ =~= part2 + "\n"@ + row4_spec(
                "\u{23a3}"@,
                c30@,
                c31@,
                c32@,
                c33@,
                "\u{23a6}"@,
                longest,
            ));
            assert(s@ =~= self.render_matrix_spec());
        }
        s
    }
}

impl<S: Scalar> Angle<S> {
    /// The rendering: the bare value in radian form, the value
    /// followed by the degree sign in degree form.
    pub open spec fn render_angle_spec(self) -> Seq<char> {
        match self {
            Angle::Radians(r) => r.render_spec()@,
            Angle::Degrees(d) => d.render_spec()@ + "\u{00b0}"@,
        }
    }

    /// Renders the angle, with the degree sign appended exactly when
    /// it is in degree form.
    pub fn to_display_string(&self) -> (out: String)
        ensures
            out@ == self.render_angle_spec(),
    {
        match *self {
            Angle::Radians(r) => r.render(),
            Angle::Degrees(d) => {
                let mut s = d.render();
                s.append("\u{00b0}");
                s
            },
        }
    }
}

impl<S: Scalar> Vec2<S> {
    /// The rendering: the components, comma-separated, in angle
    /// brackets.
    pub open spec fn render_vec_spec(self) -> Seq<char> {
        "<"@ + self.x.render_spec()@ + ", "@ + self.y.render_spec()@ + ">"@
    }

    /// Renders the vector as `<x, y>`.
    pub fn to_display_string(&self) -> (out: String)
        ensures
            out@ == self.render_vec_spec(),
    {
        let mut s = String::new();
        s.append("<");
        s.append(self.x.render().as_str());
        s.append(", ");
        s.append(self.y.render().as_str());
        s.append(">");
        proof {
            assert(s@ =~= self.render_vec_spec());
        }
        s
    }
}

impl<S: Scalar> Vec3<S> {
    /// The rendering: the components, comma-separated, in angle
    /// brackets.
    pub open spec fn render_vec_spec(self) -> Seq<char> {
        "<"@ + self.x.render_spec()@ + ", "@ + self.y.render_spec()@ + ", "@ + self.z.render_spec()@
            + ">"@
    }

    /// Renders the vector as `<x, y, z>`.
    pub fn to_display_string(&self) -> (out: String)
        ensures
            out@ == self.render_vec_spec(),
    {
        let mut s = String::new();
        s.append("<");
        s.append(self.x.render().as_str());
        s.append(", ");
        s.append(self.y.render().as_str());
        s.append(", ");
        s.append(self.z.render().as_str());
        s.append(">");
        proof {
            assert(s@ =~= self.render_vec_spec());
        }
        s
    }
}

impl<S: Scalar> Vec4<S> {
    /// The rendering: the components, comma-separated, in angle
    /// brackets.
    pub open spec fn render_vec_spec(self) -> Seq<char> {
        "<"@ + self.x.render_spec()@ + ", "@ + self.y.render_spec()@ + ", "@ + self.z.render_spec()@
            + ", "@ + self.w.render_spec()@ + ">"@
    }

    /// Renders the vector as `<x, y, z, w>`.
    pub fn to_display_string(&self) -> (out: String)
        ensures
            out@ == self.render_vec_spec(),
    {
        let mut s = String::new();
        s.append("<");
        s.append(self.x.render().as_str());
        s.append(", ");
        s.append(self.y.render().as_str());
        s.append(", ");
        s.append(self.z.render().as_str());
        s.append(", ");
        s.append(self.w.render().as_str());
        s.append(">");
        proof {
            assert(s@ =~= self.render_vec_spec());
        }
        s
    }
}

impl<S: Scalar> Euler<S> {
    /// The rendering selected by the display-style tag: one of the
    /// two Greek-letter conventions, or the plain numeric triple,
    /// always in roll, pitch, yaw order.
    pub open spec fn render_euler_spec(self) -> Seq<char> {
        match self.debug_flag {
            DebugFlag::GreekA => "[\u{03b1}: "@ + self.roll.render_angle_spec() + ", \u{03b2}: "@
                + self.pitch.render_angle_spec() + ", \u{03b3}: "@ + self.yaw.render_angle_spec()
                + "]"@,
            DebugFlag::GreekB => "[\u{03d5}: "@ + self.roll.render_angle_spec() + ", \u{03b8}: "@
                + self.pitch.render_angle_spec() + ", \u{03c8}: "@ + self.yaw.render_angle_spec()
                + "]"@,
            DebugFlag::Plain => "<"@ + self.roll.render_angle_spec() + ", "@
                + self.pitch.render_angle_spec() + ", "@ + self.yaw.render_angle_spec() + ">"@,
        }
    }

    /// Renders the triple in the style its tag selects.
    pub fn to_display_string(&self) -> (out: String)
        ensures
            out@ == self.render_euler_spec(),
    {
        let mut s = String::new();
        match self.debug_flag {
            DebugFlag::GreekA => {
                s.append("[\u{03b1}: ");
                s.append(self.roll.to_display_string().as_str());
                s.append(", \u{03b2}: ");
                s.append(self.pitch.to_display_string().as_str());
                s.append(", \u{03b3}: ");
                s.append(self.yaw.to_display_string().as_str());
                s.append("]");
            },
            DebugFlag::GreekB => {
                s.append("[\u{03d5}: ");
                s.append(self.roll.to_display_string().as_str());
                s.append(", \u{03b8}: ");
                s.append(self.pitch.to_display_string().as_str());
                s.append(", \u{03c8}: ");
                s.append(self.yaw.to_display_string().as_str());
                s.append("]");
            },
            DebugFlag::Plain => {
                s.append("<");
                s.append(self.roll.to_display_string().as_str());
                s.append(", ");
                s.append(self.pitch.to_display_string().as_str());
                s.append(", ");
                s.append(self.yaw.to_display_string().as_str());
                s.append(">");
            },
        }
        proof {
            assert(s@ =~= self.render_euler_spec());
        }
        s
    }
}

} // verus!
