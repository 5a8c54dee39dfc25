//! A styled path: a point sequence with stroke, fill and shape attributes.

use vstd::prelude::*;

use crate::error::DrawingError;
use crate::geometry::{fits_i64, scale_checked, Point, Ratio};
use crate::path::{create_path, path_text};
use crate::text::{coord_text, push_coord};

verus! {

/// What a styled path is: its attributes and its points.
pub ghost struct PathModel {
    pub close: bool,
    pub circul: bool,
    /// In hundredths of a unit; a negative width is left out of the markup.
    pub stroke_width: int,
    pub stroke: Seq<char>,
    pub fill: Seq<char>,
    pub points: Seq<Point>,
}

impl PathModel {
    /// The path data of the points.
    pub open spec fn data(self) -> Seq<char> {
        path_text(self.points, self.close, self.circul)
    }

    /// The `<path ... />` element: stroke; stroke width where it is not
    /// negative; fill, `none` where it is empty; line joins and caps, round
    /// in smooth mode and mitred and square otherwise; the path data.
    pub open spec fn markup(self) -> Seq<char> {
        "<path stroke=\""@ + self.stroke + "\""@ + (if self.stroke_width >= 0 {
            " stroke-width=\""@ + coord_text(self.stroke_width) + "\""@
        } else {
            Seq::empty()
        }) + (if self.fill.len() == 0 {
            " fill=\"none\""@
        } else {
            " fill=\""@ + self.fill + "\""@
        }) + (if self.circul {
            " stroke-linejoin=\"round\" stroke-linecap=\"round\""@
        } else {
            " stroke-linejoin=\"miter\" stroke-linecap=\"square\""@
        }) + " d=\""@ + self.data() + "\" />"@
    }

    /// Whether every coordinate and the stroke width, scaled by `r`, fit in
    /// an `i64`.
    pub open spec fn scale_fits(self, r: Ratio) -> bool {
        &&& fits_i64(r.apply(self.stroke_width))
        &&& forall|j: int| 0 <= j < self.points.len() ==> (#[trigger] self.points[j]).scale_fits(r)
    }

    /// This path with every point and the stroke width scaled by `r`.
    pub open spec fn scaled(self, r: Ratio) -> PathModel {
        PathModel {
            stroke_width: r.apply(self.stroke_width),
            points: self.points.map_values(|p: Point| p.spec_scale(r)),
            ..self
        }
    }
}

/// A path drawn through a sequence of points, with its style.
#[derive(Clone, Debug)]
pub struct SvgPath {
    /// Whether the path returns to its start at the end.
    pub close: bool,
    /// Whether the points are joined by smooth curves rather than lines.
    pub circul: bool,
    /// In hundredths of a unit.
    pub stroke_width: i64,
    pub stroke: String,
    pub fill: String,
    pub points: Vec<Point>,
}

impl View for SvgPath {
    type V = PathModel;

    open spec fn view(&self) -> PathModel {
        PathModel {
            close: self.close,
            circul: self.circul,
            stroke_width: self.stroke_width as int,
            stroke: self.stroke@,
            fill: self.fill@,
            points: self.points@,
        }
    }
}

impl SvgPath {
    /// An empty path: open and straight unless told otherwise, one unit
    /// wide, stroked black and not filled.
    pub fn new(close: Option<bool>, circul: Option<bool>) -> (p: SvgPath)
        ensures
            p.close == (close == Some(true)),
            p.circul == (circul == Some(true)),
            p.stroke_width == 100,
            p.stroke@ == "black"@,
            p.fill@ == "none"@,
            p.points@.len() == 0,
    {
        SvgPath {
            close: match close {
                Some(clo) => clo,
                None => false,
            },
            circul: match circul {
                Some(cir) => cir,
                None => false,
            },
            stroke_width: 100,
            stroke: "black".to_owned(),
            fill: "none".to_owned(),
            points: Vec::new(),
        }
    }

    pub fn is_circul(&self) -> (b: bool)
        ensures
            b == self.circul,
    {
        self.circul
    }

    pub fn toggle_circul(&mut self)
        ensures
            final(self)@ == (PathModel { circul: !old(self).circul, ..old(self)@ }),
    {
        self.circul = !self.circul
    }

    pub fn is_close(&self) -> (b: bool)
        ensures
            b == self.close,
    {
        self.close
    }

    pub fn toggle_close(&mut self)
        ensures
            final(self)@ == (PathModel { close: !old(self).close, ..old(self)@ }),
    {
        self.close = !self.close
    }

    pub fn get_stroke_width(&self) -> (w: i64)
        ensures
            w == self.stroke_width,
    {
        self.stroke_width
    }

    pub fn set_stroke_width(&mut self, stroke_width: i64)
        ensures
            final(self)@ == (PathModel { stroke_width: stroke_width as int, ..old(self)@ }),
    {
        self.stroke_width = stroke_width
    }

    pub fn get_stroke(&self) -> (s: String)
        ensures
            s@ == self.stroke@,
    {
        self.stroke.clone()
    }

    pub fn set_stroke(&mut self, stroke: &str)
        ensures
            final(self)@ == (PathModel { stroke: stroke@, ..old(self)@ }),
    {
        self.stroke = stroke.to_owned();
    }

    pub fn get_fill(&self) -> (s: String)
        ensures
            s@ == self.fill@,
    {
        self.fill.clone()
    }

    pub fn set_fill(&mut self, fill: &str)
        ensures
            final(self)@ == (PathModel { fill: fill@, ..old(self)@ }),
    {
        self.fill = fill.to_owned();
    }

    pub fn get_point_length(&self) -> (n: usize)
        ensures
            n == self.points@.len(),
    {
        self.points.len()
    }

    /// The `i`-th point.
    pub fn get_point(&self, i: usize) -> (r: Result<Point, DrawingError>)
        ensures
            i < self.points@.len() ==> r == Ok::<Point, DrawingError>(self.points@[i as int]),
            i >= self.points@.len() ==> r == Err::<Point, DrawingError>(DrawingError::OutOfRange),
    {
        if i < self.points.len() {
            Ok(self.points[i])
        } else {
            Err(DrawingError::OutOfRange)
        }
    }

    /// Replaces the `i`-th point by `p`.
    pub fn update_point(&mut self, i: usize, p: Point) -> (r: Result<(), DrawingError>)
        ensures
            i < old(self).points@.len() ==> r is Ok && final(self)@ == (PathModel {
                points: old(self)@.points.update(i as int, p),
                ..old(self)@
            }),
            i >= old(self).points@.len() ==> r == Err::<(), DrawingError>(DrawingError::OutOfRange)
                && final(self)@ == old(self)@,
    {
        if i < self.points.len() {
            self.points.set(i, p);
            Ok(())
        } else {
            Err(DrawingError::OutOfRange)
        }
    }

    /// Removes every point.
    pub fn clear(&mut self)
        ensures
            final(self)@ == (PathModel { points: Seq::empty(), ..old(self)@ }),
    {
        self.points = Vec::new();
    }

    /// Appends `point` to the path.
    pub fn add(&mut self, point: Point)
        ensures
            final(self)@ == (PathModel { points: old(self)@.points.push(point), ..old(self)@ }),
    {
        self.points.push(point);
    }

    /// A copy of this path, which shares nothing with it.
    pub fn copy(&self) -> (p: SvgPath)
        ensures
            p@ == self@,
    {
        SvgPath {
            close: self.close,
            circul: self.circul,
            stroke_width: self.stroke_width,
            stroke: self.stroke.clone(),
            fill: self.fill.clone(),
            points: copy_points(&self.points),
        }
    }

    /// Scales every point and the stroke width by `r`; refuses, and changes
    /// nothing, where a result would not fit in an `i64`.
    pub fn scale(&mut self, r: Ratio) -> (res: Result<(), DrawingError>)
        requires
            r.wf(),
        ensures
            old(self)@.scale_fits(r) ==> res is Ok && final(self)@ == old(self)@.scaled(r),
            !old(self)@.scale_fits(r) ==> res == Err::<(), DrawingError>(DrawingError::Overflow)
                && final(self)@ == old(self)@,
    {
        let n = self.points.len();
        let mut update: Vec<Point> = Vec::new();
        let mut i: usize = 0;
        while i < n
            invariant
                n == self.points@.len(),
                0 <= i <= n,
                r.wf(),
                update@.len() == i,
                forall|j: int| 0 <= j < i ==> (#[trigger] self.points@[j]).scale_fits(r),
                forall|j: int| 0 <= j < i ==> #[trigger] update@[j] == self.points@[j].spec_scale(r),
            decreases n - i,
        {
            let p = self.points[i];
            let x = scale_checked(p.x, r);
            let y = scale_checked(p.y, r);
            match (x, y) {
                (Some(x), Some(y)) => {
                    update.push(Point { x, y });
                },
                _ => {
                    assert(!self@.scale_fits(r)) by {
                        assert(!self@.points[i as int].scale_fits(r));
                    }
                    return Err(DrawingError::Overflow);
                },
            }
            i += 1;
        }
        match scale_checked(self.stroke_width, r) {
            Some(w) => {
                self.points = update;
                self.stroke_width = w;
                assert(self@.points =~= old(self)@.points.map_values(|p: Point| p.spec_scale(r)));
                Ok(())
            },
            None => Err(DrawingError::Overflow),
        }
    }

    /// The path data of the points.
    pub fn data(&self) -> (s: String)
        ensures
            s@ == self@.data(),
    {
        create_path(copy_points(&self.points), self.close, self.circul)
    }

    /// The `<path ... />` element of this path.
    pub fn to_string(&self) -> (s: String)
        ensures
            s@ == self@.markup(),
    {
        let mut path = String::new();
        path.append("<path stroke=\"");
        path.append(self.stroke.as_str());
        path.append("\"");
        if self.stroke_width >= 0 {
            path.append(" stroke-width=\"");
            push_coord(&mut path, self.stroke_width as i128);
            path.append("\"");
        }
        if self.fill.as_str().is_empty() {
            path.append(" fill=\"none\"");
        } else {
            path.append(" fill=\"");
            path.append(self.fill.as_str());
            path.append("\"");
        }
        if self.circul {
            path.append(" stroke-linejoin=\"round\" stroke-linecap=\"round\"");
        } else {
            path.append(" stroke-linejoin=\"miter\" stroke-linecap=\"square\"");
        }
        path.append(" d=\"");
        path.append(self.data().as_str());
        path.append("\" />");
        assert(path@ =~= self@.markup());
        path
    }
}

/// A copy of a point sequence.
fn copy_points(points: &Vec<Point>) -> (c: Vec<Point>)
    ensures
        c@ == points@,
{
    let mut c: Vec<Point> = Vec::new();
    let mut i: usize = 0;
    while i < points.len()
        invariant
            0 <= i <= points@.len(),
            c@ == points@.take(i as int),
        decreases points@.len() - i,
    {
        c.push(points[i]);
        i += 1;
        assert(c@ =~= points@.take(i as int));
    }
    assert(c@ =~= points@);
    c
}

} // verus!
