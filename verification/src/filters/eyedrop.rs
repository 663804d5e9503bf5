//! Picking the colour to be replaced from the preview, and what of the document
//! the preview shows.
use vstd::prelude::*;
use crate::filters::choice::Rgb;
use crate::filters::key::StackEntry;
use crate::filters::kind::{StudioFilterKind, StudioVisibility, all_kinds, kind_list};
use crate::filters::params::FilterParams;
use crate::filters::studio::FilterStudioState;
use crate::text::same_text;

verus! {

/// A filter that replaces a colour with another colour to be replaced. Any
/// other filter stays.
pub open spec fn replacing(p: FilterParams, c: Rgb) -> FilterParams {
    match p {
        FilterParams::ReplaceColor { from, to, tolerance, softness, affect, amount } => {
            FilterParams::ReplaceColor { from: c, to, tolerance, softness, affect, amount }
        },
        _ => p,
    }
}

fn replace_from(p: FilterParams, c: Rgb) -> (r: FilterParams)
    ensures
        r == replacing(p, c),
{
    match p {
        FilterParams::ReplaceColor { from, to, tolerance, softness, affect, amount } => {
            FilterParams::ReplaceColor { from: c, to, tolerance, softness, affect, amount }
        },
        other => other,
    }
}

/// The colour of a pixel.
pub open spec fn colour_at(rgba: Seq<u8>, i: int) -> Rgb {
    Rgb { r: rgba[4 * i], g: rgba[4 * i + 1], b: rgba[4 * i + 2] }
}

impl FilterStudioState {
    /// Whether a click on a pixel of a preview of those sides picks its colour.
    pub open spec fn picks(self, x: i32, y: i32, w: u32, h: u32) -> bool {
        &&& self.eyedrop_from
        &&& self.preview.base is Some
        &&& self.preview.rgba matches Some(px) && px@.len() >= 4 * (w * h)
        &&& 0 <= x < w
        &&& 0 <= y < h
    }

    /// Whether the filter that is selected replaces a colour.
    pub open spec fn replaces_colour(self) -> bool {
        self.selected matches Some(s) && s < self.stack@.len() && self.stack@[s as int].params
            is ReplaceColor
    }

    /// Picks the colour under a click; tells whether a filter was changed.
    pub fn pick_colour(&mut self, x: i32, y: i32, w: u32, h: u32) -> (r: bool)
        ensures
            r == (old(self).picks(x, y, w, h) && old(self).replaces_colour()),
            final(self).eyedrop_from == (old(self).eyedrop_from && !old(self).picks(x, y, w, h)),
            !r ==> final(self).stack@ == old(self).stack@,
            r ==> {
                let s = old(self).selected->Some_0 as int;
                let e = old(self).stack@[s];
                final(self).stack@ == old(self).stack@.update(
                    s,
                    StackEntry {
                        params: replacing(
                            e.params,
                            colour_at(old(self).preview.rgba->Some_0@, y * w + x),
                        ),
                        advanced_open: e.advanced_open,
                    },
                )
            },
            final(self).same_frame(
                FilterStudioState { eyedrop_from: final(self).eyedrop_from, ..*old(self) },
            ),
            final(self).selected == old(self).selected,
            final(self).preview == old(self).preview,
            final(self).shelf == old(self).shelf,
            old(self).wf() ==> final(self).wf(),
    {
        if !self.eyedrop_from || self.preview.base.is_none() || x < 0 || y < 0 || x as u32 >= w || y
            as u32 >= h {
            return false;
        }
        assert(0 <= w * h <= 0xffff_ffff * 0xffff_ffff) by (nonlinear_arith)
            requires
                0 <= w <= 0xffff_ffff,
                0 <= h <= 0xffff_ffff,
        ;
        assert(0 <= y * w && y * w + x < w * h) by (nonlinear_arith)
            requires
                0 <= x < w,
                0 <= y < h,
        ;
        let need: u128 = 4 * (w as u128 * h as u128);
        let colour = match &self.preview.rgba {
            Some(px) => {
                if (px.len() as u128) < need {
                    return false;
                }
                let i: usize = (4 * (y as u128 * w as u128 + x as u128)) as usize;
                Rgb { r: px[i], g: px[i + 1], b: px[i + 2] }
            },
            None => {
                return false;
            },
        };
        self.eyedrop_from = false;
        match self.selected {
            Some(s) => {
                if s < self.stack.len() && self.stack[s].params.kind()
                    == StudioFilterKind::ReplaceColor {
                    let e = self.stack.remove(s);
                    let params = replace_from(e.params, colour);
                    self.stack.insert(s, StackEntry { params, advanced_open: e.advanced_open });
                    assert(self.stack@ =~= old(self).stack@.update(
                        s as int,
                        StackEntry { params, advanced_open: e.advanced_open },
                    ));
                    return true;
                }
            },
            None => {},
        }
        false
    }

    /// Starts or ends the picking of a colour.
    pub fn toggle_eyedrop(&mut self)
        ensures
            *final(self) == (FilterStudioState {
                eyedrop_from: !old(self).eyedrop_from,
                ..*old(self)
            }),
    {
        self.eyedrop_from = !self.eyedrop_from;
    }

    /// Chooses what of the document the preview shows.
    pub fn show_layers(&mut self, visibility: StudioVisibility)
        ensures
            *final(self) == (FilterStudioState { visibility, ..*old(self) }),
    {
        self.visibility = visibility;
    }
}

/// The kinds of a category, in their order.
pub open spec fn kinds_of(category: Seq<char>) -> Seq<StudioFilterKind> {
    kind_list().filter(|k: StudioFilterKind| k.spec_category()@ == category)
}

/// The kinds of filters of a category.
pub fn kinds_in(category: &str) -> (r: Vec<StudioFilterKind>)
    ensures
        r@ == kinds_of(category@),
{
    let all = all_kinds();
    let ghost keep = |k: StudioFilterKind| k.spec_category()@ == category@;
    let mut out: Vec<StudioFilterKind> = Vec::new();
    let mut i: usize = 0;
    proof {
        reveal(Seq::filter);
        assert(all@.take(0) =~= Seq::empty());
    }
    while i < all.len()
        invariant
            i <= all.len(),
            keep == (|k: StudioFilterKind| k.spec_category()@ == category@),
            out@ == all@.take(i as int).filter(keep),
        decreases all.len() - i,
    {
        let k = all[i];
        proof {
            reveal(Seq::filter);
            assert(all@.take(i + 1).drop_last() =~= all@.take(i as int));
            assert(all@.take(i + 1).last() == k);
        }
        if same_text(k.category(), category) {
            out.push(k);
        }
        i += 1;
    }
    assert(all@.take(all.len() as int) =~= all@);
    out
}

} // verus!
