//! How long an upload is kept.
use vstd::prelude::*;

verus! {

/// Seconds an upload of `size` bytes is kept: with `m` the size in whole
/// MiB, `5 + 360 * (1 - m / 512)^3` days (so 365 days for tiny uploads,
/// shrinking cubically), never less than 5 days, truncated to whole
/// seconds.
pub open spec fn expiry_seconds(size: nat) -> int {
    let m = size / 1048576;
    if m >= 512 {
        432000
    } else {
        let k = 512 - m;
        (432000 * 134217728 + 31104000 * (k * k * k)) / 134217728
    }
}

/// Seconds an upload of `size` bytes is kept (see `expiry_seconds`).
pub fn expires(size: u64) -> (r: i64)
    ensures
        r == expiry_seconds(size as nat),
        432000 <= r <= 31536000,
{
    let m = size / 1048576;
    if m >= 512 {
        return 432000;
    }
    let k: u64 = 512 - m;
    assert(k * k <= 262144 && k * k * k <= 134217728) by (nonlinear_arith)
        requires
            k <= 512,
    ;
    let cube: u64 = k * k * k;
    let total: u64 = 432000 * 134217728 + 31104000 * cube;
    let r = total / 134217728;
    assert(r <= 31536000) by (nonlinear_arith)
        requires
            r == total / 134217728,
            total == 432000 * 134217728 + 31104000 * cube,
            cube <= 134217728,
    ;
    assert(r >= 432000) by (nonlinear_arith)
        requires
            r == total / 134217728,
            total == 432000 * 134217728 + 31104000 * cube,
    ;
    r as i64
}

} // verus!

verus! {

/// A bigger upload is never kept longer than a smaller one.
pub proof fn law_bigger_uploads_expire_sooner(a: nat, b: nat)
    requires
        a <= b,
    ensures
        expiry_seconds(b) <= expiry_seconds(a),
        432000 <= expiry_seconds(b),
{
    let ma = a / 1048576;
    let mb = b / 1048576;
    assert(ma <= mb) by (nonlinear_arith)
        requires
            a <= b,
            ma == a / 1048576,
            mb == b / 1048576,
    ;
    if mb < 512 {
        let ka: int = 512 - ma;
        let kb: int = 512 - mb;
        assert(0 < kb <= ka);
        assert(kb * kb * kb <= ka * ka * ka) by (nonlinear_arith)
            requires
                0 < kb <= ka,
        ;
        let na = 432000 * 134217728 + 31104000 * (ka * ka * ka);
        let nb = 432000 * 134217728 + 31104000 * (kb * kb * kb);
        assert(nb / 134217728 <= na / 134217728) by (nonlinear_arith)
            requires
                nb <= na,
        ;
        assert(432000 <= nb / 134217728) by (nonlinear_arith)
            requires
                nb == 432000 * 134217728 + 31104000 * (kb * kb * kb),
                kb > 0,
        ;
    } else if ma < 512 {
        let ka: int = 512 - ma;
        assert(432000 <= (432000 * 134217728 + 31104000 * (ka * ka * ka)) / 134217728)
            by (nonlinear_arith)
            requires
                ka > 0,
        ;
    }
}

} // verus!
