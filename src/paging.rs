use vstd::prelude::*;

verus! {

/// The page asked for, 1-based, 1 when absent.
pub open spec fn page_or_default(page: Option<i64>) -> int {
    match page {
        Some(p) => p as int,
        None => 1,
    }
}

/// The page size asked for, 10 when absent.
pub open spec fn per_page_or_default(per_page: Option<i64>) -> int {
    match per_page {
        Some(n) => n as int,
        None => 10,
    }
}

/// The number of rows skipped before the page starts.
pub open spec fn offset_of(page: Option<i64>, per_page: Option<i64>) -> int {
    (page_or_default(page) - 1) * per_page_or_default(per_page)
}

/// The limit and offset of a page: `None` where the offset does not fit an
/// `i64`.
pub fn window(page: Option<i64>, per_page: Option<i64>) -> (r: Option<(i64, i64)>)
    ensures
        r is Some <==> i64::MIN <= offset_of(page, per_page) <= i64::MAX,
        r matches Some((limit, offset)) ==> limit == per_page_or_default(per_page) && offset
            == offset_of(page, per_page),
{
    let p: i64 = match page {
        Some(p) => p,
        None => 1,
    };
    let n: i64 = match per_page {
        Some(n) => n,
        None => 10,
    };
    let q: i128 = p as i128 - 1;
    let w: i128 = n as i128;
    assert(-0x8000_0000_0000_0001 <= q <= 0x7fff_ffff_ffff_fffe);
    assert(-0x8000_0000_0000_0000 <= w <= 0x7fff_ffff_ffff_ffff);
    assert(-0x4000_0000_0000_0000_8000_0000_0000_0000 <= q * w <= 0x4000_0000_0000_0000_8000_0000_0000_0000)
        by (nonlinear_arith)
        requires
            -0x8000_0000_0000_0001 <= q <= 0x7fff_ffff_ffff_fffe,
            -0x8000_0000_0000_0000 <= w <= 0x7fff_ffff_ffff_ffff,
    ;
    let m: i128 = q * w;
    if m < i64::MIN as i128 || m > i64::MAX as i128 {
        None
    } else {
        Some((n, m as i64))
    }
}

} // verus!
