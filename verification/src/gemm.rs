//! The parameters of a matrix multiplication `C = alpha * op(A) * op(B) +
//! beta * C`, and the shapes of its operands.

use crate::text::same_text;
use crate::text::to_uppercase;
use crate::text::uppercase;
use vstd::prelude::*;
use vstd::string::StringExecFns;

verus! {

/// The name under which a compiled kernel exports its entry point.
pub const KERNEL_SYMBOL: &'static str = "call_dgemm";

/// The storage order of the matrices.
#[derive(Clone, Copy, Debug, PartialEq, Eq, Structural)]
pub enum Layout {
    RowMajor,
    ColMajor,
}

/// What is done to an operand before it is multiplied.
#[derive(Clone, Copy, Debug, PartialEq, Eq, Structural)]
pub enum Transpose {
    NoTrans,
    Trans,
    ConjTrans,
}

impl Layout {
    /// The layout that an upper-case text names, if it names one.
    pub open spec fn named(upper: Seq<char>) -> Option<Layout> {
        if upper == "ROW"@ {
            Some(Layout::RowMajor)
        } else if upper == "COL"@ {
            Some(Layout::ColMajor)
        } else {
            None
        }
    }

    /// The complaint about an upper-case text that names no layout.
    pub open spec fn complaint(upper: Seq<char>) -> Seq<char> {
        "expected one of [ROW, COL], but got "@ + upper
    }

    /// Reads a layout from a text that is already in upper case: `ROW` or
    /// `COL`. Any other text is answered with a complaint that ends in it.
    pub fn from_upper(upper: &str) -> (parsed: Result<Layout, String>)
        ensures
            match parsed {
                Ok(layout) => Layout::named(upper@) == Some(layout),
                Err(complaint) => Layout::named(upper@) is None && complaint@ == Layout::complaint(
                    upper@,
                ),
            },
    {
        if same_text(upper, "ROW") {
            Ok(Layout::RowMajor)
        } else if same_text(upper, "COL") {
            Ok(Layout::ColMajor)
        } else {
            Err(String::from_str("expected one of [ROW, COL], but got ").concat(upper))
        }
    }

    /// Reads a layout from a text, in any mix of upper and lower case.
    pub fn try_from(value: &str) -> (parsed: Result<Layout, String>)
        ensures
            match parsed {
                Ok(layout) => Layout::named(uppercase(value@)) == Some(layout),
                Err(complaint) => Layout::named(uppercase(value@)) is None && complaint@
                    == Layout::complaint(uppercase(value@)),
            },
    {
        let upper = to_uppercase(value);
        Layout::from_upper(upper.as_str())
    }

    /// The layout in words.
    pub fn describe(&self) -> (words: String)
        ensures
            *self == Layout::RowMajor ==> words@ == "row-major"@,
            *self == Layout::ColMajor ==> words@ == "column-major"@,
    {
        match self {
            Layout::RowMajor => String::from_str("row-major"),
            Layout::ColMajor => String::from_str("column-major"),
        }
    }
}

impl Transpose {
    /// The operation that an upper-case text names, if it names one.
    pub open spec fn named(upper: Seq<char>) -> Option<Transpose> {
        if upper == "FALSE"@ {
            Some(Transpose::NoTrans)
        } else if upper == "TRUE"@ {
            Some(Transpose::Trans)
        } else if upper == "CONJ"@ {
            Some(Transpose::ConjTrans)
        } else {
            None
        }
    }

    /// The complaint about an upper-case text that names no operation.
    pub open spec fn complaint(upper: Seq<char>) -> Seq<char> {
        "expected one of [FALSE, TRUE, CONJ], but got "@ + upper
    }

    /// Reads an operation from a text that is already in upper case: `FALSE`
    /// for none, `TRUE` for the transpose, `CONJ` for the conjugate
    /// transpose. Any other text is answered with a complaint that ends in
    /// it.
    pub fn from_upper(upper: &str) -> (parsed: Result<Transpose, String>)
        ensures
            match parsed {
                Ok(transpose) => Transpose::named(upper@) == Some(transpose),
                Err(complaint) => Transpose::named(upper@) is None && complaint@
                    == Transpose::complaint(upper@),
            },
    {
        if same_text(upper, "FALSE") {
            Ok(Transpose::NoTrans)
        } else if same_text(upper, "TRUE") {
            Ok(Transpose::Trans)
        } else if same_text(upper, "CONJ") {
            Ok(Transpose::ConjTrans)
        } else {
            Err(String::from_str("expected one of [FALSE, TRUE, CONJ], but got ").concat(upper))
        }
    }

    /// Reads an operation from a text, in any mix of upper and lower case.
    pub fn try_from(value: &str) -> (parsed: Result<Transpose, String>)
        ensures
            match parsed {
                Ok(transpose) => Transpose::named(uppercase(value@)) == Some(transpose),
                Err(complaint) => Transpose::named(uppercase(value@)) is None && complaint@
                    == Transpose::complaint(uppercase(value@)),
            },
    {
        let upper = to_uppercase(value);
        Transpose::from_upper(upper.as_str())
    }
}

/// The leading dimensions `(lda, ldb, ldc)` of the operands of a product of
/// an `m` by `k` and a `k` by `n` matrix.
///
/// An operand is stored with its second extent leading where exactly one of
/// two things holds: it is transposed, or the layout is row-major. The
/// conjugate transpose counts as not transposed here.
pub open spec fn leading(
    layout: Layout,
    transpose: (Transpose, Transpose),
    dimensions: (usize, usize, usize),
) -> (usize, usize, usize) {
    let (m, n, k) = dimensions;
    let row_major = layout == Layout::RowMajor;
    (
        if (transpose.0 == Transpose::Trans) != row_major {
            k
        } else {
            m
        },
        if (transpose.1 == Transpose::Trans) != row_major {
            n
        } else {
            k
        },
        if row_major {
            n
        } else {
            m
        },
    )
}

/// The leading dimensions `(lda, ldb, ldc)` of the operands.
pub fn leading_dimensions(
    layout: Layout,
    transpose: (Transpose, Transpose),
    dimensions: (usize, usize, usize),
) -> (strides: (usize, usize, usize))
    ensures
        strides == leading(layout, transpose, dimensions),
{
    let (m, n, k) = dimensions;
    let row_major = layout == Layout::RowMajor;
    let lda = if (transpose.0 == Transpose::Trans) != row_major {
        k
    } else {
        m
    };
    let ldb = if (transpose.1 == Transpose::Trans) != row_major {
        n
    } else {
        k
    };
    let ldc = if row_major {
        n
    } else {
        m
    };
    (lda, ldb, ldc)
}

/// The numbers of entries of the three operands, `(m * k, k * n, m * n)`,
/// unless one of them is more than a `usize` holds.
pub fn buffer_lengths(dimensions: (usize, usize, usize)) -> (lengths: Option<(usize, usize, usize)>)
    ensures
        match lengths {
            Some((a, b, c)) => {
                &&& a == dimensions.0 * dimensions.2
                &&& b == dimensions.2 * dimensions.1
                &&& c == dimensions.0 * dimensions.1
            },
            None => {
                ||| dimensions.0 * dimensions.2 > usize::MAX
                ||| dimensions.2 * dimensions.1 > usize::MAX
                ||| dimensions.0 * dimensions.1 > usize::MAX
            },
        },
{
    let (m, n, k) = dimensions;
    match (m.checked_mul(k), k.checked_mul(n), m.checked_mul(n)) {
        (Some(a), Some(b), Some(c)) => Some((a, b, c)),
        _ => None,
    }
}

} // verus!
