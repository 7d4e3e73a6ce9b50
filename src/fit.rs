use vstd::prelude::*;

verus! {

/// The size `(width, height)` at which an image of `tw` by `th` pixels is shown
/// in a usable area of `mw` by `mh` pixels.
///
/// An image that fits is shown as it is. A larger one is scaled by
/// `min(mw / tw, mh / th)`: the side that binds is set to the area's side and
/// the other is scaled and rounded down (to zero where it was zero).
pub open spec fn fitted_size(tw: nat, th: nat, mw: nat, mh: nat) -> (nat, nat) {
    if tw <= mw && th <= mh {
        (tw, th)
    } else if mh * tw < mw * th {
        ((tw * mh / th) as nat, mh)
    } else if tw == 0 {
        (mw, 0)
    } else {
        (mw, (th * mw / tw) as nat)
    }
}

/// Computes the size at which a `tex_w` by `tex_h` image is shown within a
/// `max_w` by `max_h` area, keeping its aspect ratio and never enlarging it.
pub fn fit_within(tex_w: u32, tex_h: u32, max_w: u32, max_h: u32) -> (r: (u32, u32))
    ensures
        (r.0 as nat, r.1 as nat) == fitted_size(tex_w as nat, tex_h as nat, max_w as nat, max_h as nat),
        r.0 <= max_w,
        r.1 <= max_h,
        r.0 <= tex_w,
        r.1 <= tex_h,
{
    if tex_w <= max_w && tex_h <= max_h {
        return (tex_w, tex_h);
    }
    let tw = tex_w as u64;
    let th = tex_h as u64;
    let mw = max_w as u64;
    let mh = max_h as u64;
    assert(mh * tw <= 0xffff_ffff * 0xffff_ffff && mw * th <= 0xffff_ffff * 0xffff_ffff)
        by (nonlinear_arith)
        requires
            mh <= 0xffff_ffff,
            tw <= 0xffff_ffff,
            mw <= 0xffff_ffff,
            th <= 0xffff_ffff,
    ;
    if mh * tw < mw * th {
        // the height binds
        assert(mh < th) by (nonlinear_arith)
            requires
                mh * tw < mw * th,
                !(tw <= mw && th <= mh),
        ;
        let w = tw * mh / th;
        assert(w < mw && w <= tw) by (nonlinear_arith)
            requires
                mh * tw < mw * th,
                w as int == (tw as int * mh as int) / (th as int),
                th > 0,
                mh < th,
        ;
        (w as u32, max_h)
    } else if tw == 0 {
        assert(mw == 0) by (nonlinear_arith)
            requires
                mw * th <= mh * tw,
                !(tw <= mw && th <= mh),
                tw == 0,
        ;
        (max_w, 0)
    } else {
        // the width binds
        assert(mw < tw) by (nonlinear_arith)
            requires
                mw * th <= mh * tw,
                !(tw <= mw && th <= mh),
                tw > 0,
        ;
        let h = th * mw / tw;
        assert(h <= mh && h <= th) by (nonlinear_arith)
            requires
                mw * th <= mh * tw,
                h as int == (th as int * mw as int) / (tw as int),
                tw > 0,
                mw < tw,
        ;
        (max_w, h as u32)
    }
}

} // verus!
