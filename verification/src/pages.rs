//! Which products the web view shows: the first page, and numbered pages of
//! `PAGE_SIZE` products.
use vstd::prelude::*;

verus! {

/// Number of products on a page of the web view.
pub const PAGE_SIZE: usize = 20;

/// `x * PAGE_SIZE`, or `usize::MAX` when that does not fit.
pub open spec fn saturating_times_page(x: int) -> int {
    if x * PAGE_SIZE > usize::MAX { usize::MAX as int } else { x * PAGE_SIZE }
}

/// `x - 1`, or 0 when `x` is 0.
pub open spec fn saturating_pred(x: int) -> int {
    if x == 0 { 0 } else { x - 1 }
}

/// The half-open range `start..last + 1` that a slice of length `len` yields
/// for the inclusive range `start..=last`, or `None` when it yields nothing.
pub open spec fn inclusive_range(start: int, last: int, len: int) -> Option<(int, int)> {
    if last == usize::MAX || start > last + 1 || last + 1 > len {
        None
    } else {
        Some((start, last + 1))
    }
}

/// The products of page `index` of a list of `len`, as a half-open range;
/// `None` stands for a page shown empty. Page `i` asks for products
/// `(i - 1) * PAGE_SIZE ..= i * PAGE_SIZE - 1` (in saturating arithmetic), and
/// a page that reaches beyond the list is shown empty.
pub open spec fn page_range_spec(index: int, len: int) -> Option<(int, int)> {
    inclusive_range(
        saturating_times_page(saturating_pred(index)),
        saturating_pred(saturating_times_page(index)),
        len,
    )
}

/// The range of an inclusive slice `start..=last` of a list of `len`, if any.
fn inclusive(start: usize, last: usize, len: usize) -> (r: Option<(usize, usize)>)
    ensures
        match r {
            Some((a, b)) => inclusive_range(start as int, last as int, len as int) == Some((a as int, b as int)),
            None => inclusive_range(start as int, last as int, len as int) is None,
        },
{
    if last == usize::MAX {
        return None;
    }
    let end = last + 1;
    if start > end || end > len {
        None
    } else {
        Some((start, end))
    }
}

/// `x * PAGE_SIZE`, saturating at `usize::MAX`.
fn times_page(x: usize) -> (r: usize)
    ensures
        r == saturating_times_page(x as int),
{
    if x > usize::MAX / PAGE_SIZE {
        usize::MAX
    } else {
        x * PAGE_SIZE
    }
}

/// `x - 1`, saturating at 0.
fn pred(x: usize) -> (r: usize)
    ensures
        r == saturating_pred(x as int),
{
    if x == 0 { 0 } else { x - 1 }
}

/// The products of the first page: the first `PAGE_SIZE`, or none when the
/// list is shorter than a page.
pub fn first_page_range(len: usize) -> (r: Option<(usize, usize)>)
    ensures
        match r {
            Some((a, b)) => inclusive_range(0, PAGE_SIZE - 1, len as int) == Some((a as int, b as int)),
            None => inclusive_range(0, PAGE_SIZE - 1, len as int) is None,
        },
        r is Some <==> len >= PAGE_SIZE,
        r matches Some((a, b)) ==> a == 0 && b == PAGE_SIZE,
{
    inclusive(0, PAGE_SIZE - 1, len)
}

/// The products of page `index` of a list of `len` (see `page_range_spec`).
pub fn page_range(index: usize, len: usize) -> (r: Option<(usize, usize)>)
    ensures
        match r {
            Some((a, b)) => page_range_spec(index as int, len as int) == Some((a as int, b as int)),
            None => page_range_spec(index as int, len as int) is None,
        },
{
    let start = times_page(pred(index));
    let last = pred(times_page(index));
    inclusive(start, last, len)
}

/// The numbers of the pages before and after page `index`, wrapping around
/// at the ends of `usize`.
pub fn neighbour_pages(index: usize) -> (r: (usize, usize))
    ensures
        r.0 == if index == 0 { usize::MAX as int } else { index - 1 },
        r.1 == if index == usize::MAX { 0 } else { index + 1 },
{
    let previous = if index == 0 { usize::MAX } else { index - 1 };
    let next = if index == usize::MAX { 0 } else { index + 1 };
    (previous, next)
}

/// A page from 1 on that lies wholly within the list holds exactly the
/// products `(index - 1) * PAGE_SIZE .. index * PAGE_SIZE`.
pub proof fn lemma_full_page(index: int, len: int)
    requires
        1 <= index,
        index * PAGE_SIZE <= len,
        len <= usize::MAX,
    ensures
        page_range_spec(index, len) == Some(((index - 1) * PAGE_SIZE, index * PAGE_SIZE)),
{
}

/// Consecutive full pages meet: each starts where the one before it ends.
pub proof fn lemma_pages_meet(index: int, len: int)
    requires
        1 <= index,
        (index + 1) * PAGE_SIZE <= len <= usize::MAX,
    ensures
        page_range_spec(index, len) matches Some((_, end)) && page_range_spec(index + 1, len) matches Some((
            start,
            _,
        )) && end == start,
{
    lemma_full_page(index, len);
    lemma_full_page(index + 1, len);
}

/// A page that reaches beyond the end of the list is shown empty.
pub proof fn lemma_partial_page_empty(index: int, len: int)
    requires
        1 <= index,
        len < index * PAGE_SIZE,
        index * PAGE_SIZE <= usize::MAX,
    ensures
        page_range_spec(index, len) is None,
{
}

/// Page 0 holds the first product alone.
pub proof fn lemma_page_zero(len: int)
    requires
        1 <= len <= usize::MAX,
    ensures
        page_range_spec(0, len) == Some((0int, 1int)),
{
}

} // verus!
