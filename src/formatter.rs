use vstd::prelude::*;
use crate::text::{is_size_text, lemma_size_text_shape, render, size_text};
use crate::unit::{Conventional, Decimal, Format};

verus! {

/// The text shown for `size` bytes under the strategy `fmt`.
pub open spec fn format_text<F: Format>(size: u64, fmt: F) -> Seq<char> {
    size_text(size, fmt.spec_divisor(size), fmt.spec_name(size))
}

/// Lazy memory size formatter: holds a byte count and a strategy, and
/// computes its text only when asked, afresh on every request.
pub struct ByteSizeFormatter<F = Conventional> {
    size: u64,
    fmt: F,
}

impl<F: Format> ByteSizeFormatter<F> {
    /// The byte count held.
    pub closed spec fn spec_size(&self) -> u64 {
        self.size
    }

    /// The strategy held.
    pub closed spec fn spec_strategy(&self) -> F {
        self.fmt
    }

    /// The text of this formatter.
    pub open spec fn spec_text(&self) -> Seq<char> {
        format_text(self.spec_size(), self.spec_strategy())
    }

    /// Renders the held size: its quotient by the strategy's divisor, rounded
    /// to two decimals, then a space and the strategy's unit name.
    pub fn to_string(&self) -> (r: String)
        ensures
            r@ == self.spec_text(),
    {
        let divisor = self.fmt.divisor(self.size);
        let name = self.fmt.name(self.size);
        render(self.size, divisor, name)
    }
}

/// Wraps a byte count into a lazy formatter.
pub trait FmtSize: Sized {
    /// The byte count that `self` stands for.
    spec fn spec_bytes(self) -> u64;

    /// Format a memory size value according to a given format provider.
    ///
    /// The formatter resulting from this call is lazy.
    fn fmt_size<F: Format>(self, fmt: F) -> (r: ByteSizeFormatter<F>)
        ensures
            r.spec_size() == self.spec_bytes(),
            r.spec_strategy() == fmt,
    ;
}

impl FmtSize for u64 {
    open spec fn spec_bytes(self) -> u64 {
        self
    }

    fn fmt_size<F: Format>(self, fmt: F) -> (r: ByteSizeFormatter<F>) {
        ByteSizeFormatter { size: self, fmt }
    }
}

/// Rendering the same formatter twice gives the same text.
pub proof fn lemma_render_idempotent<F: Format>(f: ByteSizeFormatter<F>, a: String, b: String)
    requires
        a@ == f.spec_text(),
        b@ == f.spec_text(),
    ensures
        a@ == b@,
{
}

/// Every byte count renders, under either strategy, as digits, a point, two
/// digits, a space and one of "KB", "MB", "GB".
pub proof fn lemma_text_shape(size: u64)
    ensures
        is_size_text(format_text(size, Conventional)),
        is_size_text(format_text(size, Decimal)),
{
    lemma_size_text_shape(size, Conventional.spec_divisor(size), Conventional.spec_name(size));
    lemma_size_text_shape(size, Decimal.spec_divisor(size), Decimal.spec_name(size));
}

/// The text ends with a space and the strategy's unit name for the size.
pub proof fn lemma_text_ends_with_unit<F: Format>(size: u64, fmt: F)
    ensures
        format_text(size, fmt).len() >= fmt.spec_name(size).len() + 1,
        format_text(size, fmt).subrange(
            format_text(size, fmt).len() - fmt.spec_name(size).len() - 1,
            format_text(size, fmt).len() as int,
        ) == seq![' '] + fmt.spec_name(size),
{
    let t = format_text(size, fmt);
    let name = fmt.spec_name(size);
    assert(t.subrange(t.len() - name.len() - 1, t.len() as int) =~= seq![' '] + name);
}

} // verus!
