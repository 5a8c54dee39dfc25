//! A drawing: an ordered collection of styled paths on a canvas.

use vstd::prelude::*;

use crate::error::DrawingError;
use crate::geometry::{fits_i64, lemma_scale_exact, Ratio};
use crate::svg_path::{PathModel, SvgPath};
use crate::text::{coord_text, push_coord};

verus! {

/// What a drawing is: its canvas size and its paths, bottom first.
pub ghost struct DrawingModel {
    /// In hundredths of a unit.
    pub width: int,
    /// In hundredths of a unit.
    pub height: int,
    pub paths: Seq<PathModel>,
}

/// The elements of `paths`, one after another.
pub open spec fn paths_markup(paths: Seq<PathModel>) -> Seq<char>
    decreases paths.len(),
{
    if paths.len() == 0 {
        Seq::empty()
    } else {
        paths_markup(paths.drop_last()) + paths.last().markup()
    }
}

/// What an undo does to a sequence of paths: the last one leaves it and is
/// handed back; an empty sequence stays empty, and nothing is handed back.
pub open spec fn undo_outcome(paths: Seq<SvgPath>) -> (Seq<SvgPath>, Option<SvgPath>) {
    if paths.len() == 0 {
        (paths, None)
    } else {
        (paths.drop_last(), Some(paths.last()))
    }
}

impl DrawingModel {
    /// The `<svg>` document that holds the paths' elements in order.
    pub open spec fn markup(self) -> Seq<char> {
        "<svg width=\""@ + coord_text(self.width) + "\" height=\""@ + coord_text(self.height)
            + "\" version=\"1.1\" xmlns=\"http://www.w3.org/2000/svg\">"@ + paths_markup(self.paths)
            + "</svg>"@
    }

    /// The ratio that takes the width to `w`.
    pub open spec fn resize_ratio(self, w: i64) -> Ratio {
        Ratio { num: w, den: self.width as i64 }
    }

    /// Whether every path scaled by the ratio that takes the width to `w`
    /// stays within `i64`.
    pub open spec fn resize_fits(self, w: i64) -> bool {
        forall|i: int| 0 <= i < self.paths.len() ==> (#[trigger] self.paths[i]).scale_fits(
            self.resize_ratio(w),
        )
    }

    /// This drawing on a canvas of `w` by `h`, every path scaled by the
    /// ratio of the new width to the old one.
    pub open spec fn resized(self, w: i64, h: i64) -> DrawingModel {
        DrawingModel {
            width: w as int,
            height: h as int,
            paths: self.paths.map_values(|p: PathModel| p.scaled(self.resize_ratio(w))),
        }
    }
}

/// A canvas of a given size and the paths drawn on it.
#[derive(Clone, Debug)]
pub struct SvgDrawing {
    /// In hundredths of a unit.
    pub width: i64,
    /// In hundredths of a unit.
    pub height: i64,
    pub paths: Vec<SvgPath>,
}

impl View for SvgDrawing {
    type V = DrawingModel;

    open spec fn view(&self) -> DrawingModel {
        DrawingModel {
            width: self.width as int,
            height: self.height as int,
            paths: self.paths@.map_values(|p: SvgPath| p@),
        }
    }
}

impl SvgDrawing {
    /// An empty drawing on a canvas of `width` by `height`.
    pub fn new(width: i64, height: i64) -> (d: SvgDrawing)
        ensures
            d.width == width,
            d.height == height,
            d.paths@.len() == 0,
    {
        SvgDrawing { width, height, paths: Vec::new() }
    }

    /// Removes every path.
    pub fn clear(&mut self)
        ensures
            final(self).width == old(self).width,
            final(self).height == old(self).height,
            final(self).paths@.len() == 0,
    {
        self.paths = Vec::new();
    }

    /// Puts `path` on top of the others.
    pub fn add(&mut self, path: SvgPath)
        ensures
            final(self).width == old(self).width,
            final(self).height == old(self).height,
            final(self).paths@ == old(self).paths@.push(path),
    {
        self.paths.push(path);
    }

    /// Takes the top path away and hands it back; on an empty drawing,
    /// changes nothing and hands back nothing.
    pub fn undo(&mut self) -> (r: Option<SvgPath>)
        ensures
            final(self).width == old(self).width,
            final(self).height == old(self).height,
            (final(self).paths@, r) == undo_outcome(old(self).paths@),
    {
        self.paths.pop()
    }

    /// Replaces the top path by `path`; refuses where there is none.
    pub fn update(&mut self, path: SvgPath) -> (r: Result<(), DrawingError>)
        ensures
            final(self).width == old(self).width,
            final(self).height == old(self).height,
            old(self).paths@.len() > 0 ==> r is Ok && final(self).paths@ == old(
                self,
            ).paths@.update(old(self).paths@.len() - 1, path),
            old(self).paths@.len() == 0 ==> r == Err::<(), DrawingError>(DrawingError::OutOfRange)
                && final(self).paths@ == old(self).paths@,
    {
        let n = self.paths.len();
        if n == 0 {
            return Err(DrawingError::OutOfRange);
        }
        self.paths.set(n - 1, path);
        Ok(())
    }

    /// A copy of the `i`-th path from the bottom.
    pub fn get_path(&self, i: usize) -> (r: Result<SvgPath, DrawingError>)
        ensures
            i < self.paths@.len() ==> r is Ok && r->Ok_0@ == self.paths@[i as int]@,
            i >= self.paths@.len() ==> r == Err::<SvgPath, DrawingError>(DrawingError::OutOfRange),
    {
        if i < self.paths.len() {
            Ok(self.paths[i].copy())
        } else {
            Err(DrawingError::OutOfRange)
        }
    }

    pub fn get_path_length(&self) -> (n: usize)
        ensures
            n == self.paths@.len(),
    {
        self.paths.len()
    }

    /// Replaces the `i`-th path from the bottom by `p`.
    pub fn update_path(&mut self, i: usize, p: SvgPath) -> (r: Result<(), DrawingError>)
        ensures
            final(self).width == old(self).width,
            final(self).height == old(self).height,
            i < old(self).paths@.len() ==> r is Ok && final(self).paths@ == old(
                self,
            ).paths@.update(i as int, p),
            i >= old(self).paths@.len() ==> r == Err::<(), DrawingError>(DrawingError::OutOfRange)
                && final(self).paths@ == old(self).paths@,
    {
        if i < self.paths.len() {
            self.paths.set(i, p);
            Ok(())
        } else {
            Err(DrawingError::OutOfRange)
        }
    }

    /// Moves to a canvas of `w` by `h`, scaling every path by the ratio of
    /// the new width to the old one. Refuses, and changes nothing, where the
    /// old width is zero or a scaled value would not fit in an `i64`.
    pub fn change_size(&mut self, w: i64, h: i64) -> (r: Result<(), DrawingError>)
        ensures
            old(self).width == 0 ==> r == Err::<(), DrawingError>(DrawingError::ZeroWidth)
                && final(self)@ == old(self)@,
            old(self).width != 0 && !old(self)@.resize_fits(w) ==> r == Err::<(), DrawingError>(
                DrawingError::Overflow,
            ) && final(self)@ == old(self)@,
            old(self).width != 0 && old(self)@.resize_fits(w) ==> r is Ok && final(self)@ == old(
                self,
            )@.resized(w, h),
    {
        if self.width == 0 {
            return Err(DrawingError::ZeroWidth);
        }
        let ratio = Ratio { num: w, den: self.width };
        assert(ratio == self@.resize_ratio(w));
        let n = self.paths.len();
        let mut scaled: Vec<SvgPath> = Vec::new();
        let mut i: usize = 0;
        while i < n
            invariant
                n == self.paths@.len(),
                0 <= i <= n,
                ratio.wf(),
                ratio == self@.resize_ratio(w),
                scaled@.len() == i,
                forall|j: int| 0 <= j < i ==> (#[trigger] self@.paths[j]).scale_fits(ratio),
                forall|j: int| 0 <= j < i ==> #[trigger] scaled@[j]@ == self@.paths[j].scaled(ratio),
            decreases n - i,
        {
            let mut p = self.paths[i].copy();
            match p.scale(ratio) {
                Ok(()) => {
                    scaled.push(p);
                },
                Err(e) => {
                    assert(!self@.resize_fits(w)) by {
                        assert(!self@.paths[i as int].scale_fits(ratio));
                    }
                    return Err(e);
                },
            }
            i += 1;
        }
        let ghost before = self@;
        self.paths = scaled;
        self.width = w;
        self.height = h;
        assert(self@.paths =~= before.paths.map_values(
            |p: PathModel| p.scaled(before.resize_ratio(w)),
        ));
        Ok(())
    }

    /// The `<svg>` document of this drawing.
    pub fn to_string(&self) -> (s: String)
        ensures
            s@ == self@.markup(),
    {
        let mut path_el = String::new();
        let mut i: usize = 0;
        while i < self.paths.len()
            invariant
                0 <= i <= self.paths@.len(),
                path_el@ == paths_markup(self@.paths.take(i as int)),
            decreases self.paths@.len() - i,
        {
            path_el.append(self.paths[i].to_string().as_str());
            i += 1;
            assert(self@.paths.take(i as int).drop_last() =~= self@.paths.take(i - 1));
        }
        assert(self@.paths.take(i as int) =~= self@.paths);
        let mut s = String::new();
        s.append("<svg width=\"");
        push_coord(&mut s, self.width as i128);
        s.append("\" height=\"");
        push_coord(&mut s, self.height as i128);
        s.append("\" version=\"1.1\" xmlns=\"http://www.w3.org/2000/svg\">");
        s.append(path_el.as_str());
        s.append("</svg>");
        assert(s@ =~= self@.markup());
        s
    }
}

/// An undo on an empty drawing hands back nothing; an undo right after an
/// add takes the drawing back to the paths it had before, and hands back the
/// path that was added.
pub proof fn lemma_undo_reverts_add(paths: Seq<SvgPath>, path: SvgPath)
    ensures
        undo_outcome(Seq::<SvgPath>::empty()).1 is None,
        undo_outcome(paths.push(path)) == (paths, Some(path)),
        undo_outcome(paths.push(path)).0.len() == paths.len(),
{
    assert(paths.push(path).drop_last() =~= paths);
}

/// A resize takes the canvas to the new width and height, and scales each
/// coordinate of each point by the ratio of the new width to the old one:
/// rounded to the nearest hundredth, and exact where that ratio gives a whole
/// number of hundredths.
pub proof fn lemma_resize_scales_points(d: DrawingModel, w: i64, h: i64, i: int, j: int)
    requires
        d.width != 0,
        fits_i64(d.width),
        d.resize_fits(w),
        0 <= i < d.paths.len(),
        0 <= j < d.paths[i].points.len(),
    ensures
        d.resized(w, h).width == w,
        d.resized(w, h).height == h,
        ({
            let p = d.paths[i].points[j];
            let q = d.resized(w, h).paths[i].points[j];
            &&& q.x == d.resize_ratio(w).apply(p.x as int)
            &&& q.y == d.resize_ratio(w).apply(p.y as int)
            &&& (p.x * w) % d.width == 0 ==> q.x * d.width == p.x * w
            &&& (p.y * w) % d.width == 0 ==> q.y * d.width == p.y * w
        }),
{
    let r = d.resize_ratio(w);
    let p = d.paths[i].points[j];
    assert(d.paths[i].scale_fits(r));
    assert(p.scale_fits(r));
    if (p.x * w) % d.width == 0 {
        lemma_scale_exact(p.x as int, r);
    }
    if (p.y * w) % d.width == 0 {
        lemma_scale_exact(p.y as int, r);
    }
}

} // verus!
