//! Path data: move, line and curve commands built from a point sequence.

use vstd::prelude::*;

use crate::geometry::{abs, lemma_round_div_bound, Point, Ratio, Vector};
use crate::text::{coord_text, push_coord};

verus! {

/// The ratio by which a chord between neighbours is shortened to place a
/// curve's control point.
pub open spec fn smoothing() -> Ratio {
    Ratio { num: 1, den: 5 }
}

fn smoothing_ratio() -> (r: Ratio)
    ensures
        r == smoothing(),
{
    Ratio { num: 1, den: 5 }
}

/// The command that starts a path at `p`: `M x y`.
pub open spec fn move_text(p: Point) -> Seq<char> {
    "M "@ + coord_text(p.x as int) + " "@ + coord_text(p.y as int)
}

/// The command that draws a straight line to `p`: ` L x y`.
pub open spec fn line_text(p: Point) -> Seq<char> {
    " L "@ + coord_text(p.x as int) + " "@ + coord_text(p.y as int)
}

/// The command that draws a cubic curve to `p` with the control points
/// (`clx`, `cly`) and (`crx`, `cry`): ` C clx cly crx cry x y`.
pub open spec fn curve_text(clx: int, cly: int, crx: int, cry: int, p: Point) -> Seq<char> {
    " C "@ + coord_text(clx) + " "@ + coord_text(cly) + " "@ + coord_text(crx) + " "@
        + coord_text(cry) + " "@ + coord_text(p.x as int) + " "@ + coord_text(p.y as int)
}

/// The offset of a control point: the chord from `from` to `to`, shortened
/// by the smoothing ratio.
pub open spec fn smooth_offset(from: Point, to: Point) -> Vector {
    from.spec_vector(to).spec_scale(smoothing())
}

/// The curve that reaches `pts[i]` from `pts[i - 1]`. Its first control
/// point leaves `pts[i - 1]` along the chord from `pts[i - 2]` to `pts[i]`;
/// its second one arrives at `pts[i]` along the chord from `pts[i + 1]` to
/// `pts[i - 1]`.
pub open spec fn curve_segment(pts: Seq<Point>, i: int) -> Seq<char> {
    let cl = smooth_offset(pts[i - 2], pts[i]);
    let cr = smooth_offset(pts[i + 1], pts[i - 1]);
    curve_text(
        pts[i - 1].x + cl.dx,
        pts[i - 1].y + cl.dy,
        pts[i].x + cr.dx,
        pts[i].y + cr.dy,
        pts[i],
    )
}

/// The command for the point `pts[i]`: a move for the first point; a curve
/// in smooth mode where the point has two predecessors and a successor; a
/// straight line otherwise.
pub open spec fn command_at(pts: Seq<Point>, circul: bool, i: int) -> Seq<char> {
    if i == 0 {
        move_text(pts[0])
    } else if circul && 2 <= i && i + 1 < pts.len() {
        curve_segment(pts, i)
    } else {
        line_text(pts[i])
    }
}

/// The commands for the first `k` points of `pts`.
pub open spec fn path_prefix(pts: Seq<Point>, circul: bool, k: nat) -> Seq<char>
    decreases k,
{
    if k == 0 {
        Seq::empty()
    } else {
        path_prefix(pts, circul, (k - 1) as nat) + command_at(pts, circul, k - 1)
    }
}

/// The path data of `pts`: empty where there is no point; else a command
/// for each point, and ` Z` at the end where the path is closed.
pub open spec fn path_text(pts: Seq<Point>, close: bool, circul: bool) -> Seq<char> {
    if pts.len() == 0 {
        Seq::empty()
    } else {
        path_prefix(pts, circul, pts.len()) + if close {
            " Z"@
        } else {
            Seq::empty()
        }
    }
}

/// Appends ` x y`.
fn push_pair(out: &mut String, x: i128, y: i128)
    ensures
        final(out)@ == old(out)@ + " "@ + coord_text(x as int) + " "@ + coord_text(y as int),
{
    out.append(" ");
    push_coord(out, x);
    out.append(" ");
    push_coord(out, y);
    assert(final(out)@ =~= old(out)@ + " "@ + coord_text(x as int) + " "@ + coord_text(y as int));
}

/// Appends a curve command.
fn push_curve(out: &mut String, clx: i128, cly: i128, crx: i128, cry: i128, end: &Point)
    ensures
        final(out)@ == old(out)@ + curve_text(clx as int, cly as int, crx as int, cry as int, *end),
{
    out.append(" C");
    push_pair(out, clx, cly);
    push_pair(out, crx, cry);
    push_pair(out, end.x as i128, end.y as i128);
    proof {
        reveal_strlit(" C");
        reveal_strlit(" C ");
        reveal_strlit(" ");
    }
    assert(final(out)@ =~= old(out)@ + curve_text(
        clx as int,
        cly as int,
        crx as int,
        cry as int,
        *end,
    ));
}

impl Point {
    /// The command that starts a path here.
    pub fn command_move(&self) -> (s: String)
        ensures
            s@ == move_text(*self),
    {
        let mut s = String::new();
        s.append("M");
        push_pair(&mut s, self.x as i128, self.y as i128);
        proof {
            reveal_strlit("M");
            reveal_strlit("M ");
            reveal_strlit(" ");
        }
        assert(s@ =~= move_text(*self));
        s
    }

    /// The command that draws a straight line to here.
    pub fn command_line(&self) -> (s: String)
        ensures
            s@ == line_text(*self),
    {
        let mut s = String::new();
        s.append(" L");
        push_pair(&mut s, self.x as i128, self.y as i128);
        proof {
            reveal_strlit(" L");
            reveal_strlit(" L ");
            reveal_strlit(" ");
        }
        assert(s@ =~= line_text(*self));
        s
    }

    /// The command that draws a cubic curve to here, with control points
    /// `cl` and `cr`.
    pub fn command_circuler(&self, cl: &Point, cr: &Point) -> (s: String)
        ensures
            s@ == curve_text(cl.x as int, cl.y as int, cr.x as int, cr.y as int, *self),
    {
        let mut s = String::new();
        push_curve(&mut s, cl.x as i128, cl.y as i128, cr.x as i128, cr.y as i128, self);
        s
    }
}

/// The shortened chord from `from` to `to`.
fn smooth_vector(from: &Point, to: &Point) -> (v: Vector)
    ensures
        v == smooth_offset(*from, *to),
        abs(v.dx as int) <= abs(to.x - from.x),
        abs(v.dy as int) <= abs(to.y - from.y),
{
    let chord = from.vector(to);
    proof {
        lemma_round_div_bound(chord.dx * 1, 5);
        lemma_round_div_bound(chord.dy * 1, 5);
    }
    chord.scale(smoothing_ratio())
}

/// The curve command that reaches `end` from `start`, where `prev` comes
/// before `start` and `next` after `end`.
fn complement_circuler(prev: &Point, start: &Point, end: &Point, next: &Point) -> (s: String)
    ensures
        s@ == curve_segment(seq![*prev, *start, *end, *next], 2),
{
    let l = smooth_vector(prev, end);
    let r = smooth_vector(next, start);
    let mut s = String::new();
    push_curve(
        &mut s,
        start.x as i128 + l.dx,
        start.y as i128 + l.dy,
        end.x as i128 + r.dx,
        end.y as i128 + r.dy,
        end,
    );
    s
}

/// The path data of the points of `line`, in order: `M` to the first point,
/// then for each further point a straight line (`L`), or in smooth mode
/// (`circul`) a cubic curve (`C`) wherever the point has two predecessors
/// and a successor, and ` Z` at the end where `close` holds. No point, no
/// text.
pub fn create_path(line: Vec<Point>, close: bool, circul: bool) -> (s: String)
    ensures
        s@ == path_text(line@, close, circul),
{
    let mut path_d = String::new();
    let n = line.len();
    if n == 0 {
        return path_d;
    }
    let mut i: usize = 0;
    while i < n
        invariant
            n == line@.len(),
            0 <= i <= n,
            path_d@ == path_prefix(line@, circul, i as nat),
        decreases n - i,
    {
        let po = &line[i];
        if i == 0 {
            path_d.append(po.command_move().as_str());
        } else if circul && i >= 2 && i + 1 < n {
            let c = complement_circuler(&line[i - 2], &line[i - 1], po, &line[i + 1]);
            assert(c@ == curve_segment(line@, i as int));
            path_d.append(c.as_str());
        } else {
            path_d.append(po.command_line().as_str());
        }
        i += 1;
    }
    if close {
        path_d.append(" Z");
    }
    path_d
}

/// A path of at most one point holds no line and no curve: its data is
/// empty, or a move and perhaps a close.
pub proof fn lemma_short_path_has_no_segment(pts: Seq<Point>, close: bool, circul: bool)
    requires
        pts.len() <= 1,
    ensures
        forall|j: int|
            0 <= j < path_text(pts, close, circul).len() ==> {
                let ch = #[trigger] path_text(pts, close, circul)[j];
                ch != 'L' && ch != 'C'
            },
{
    if pts.len() == 1 {
        let p = pts[0];
        reveal_strlit("M ");
        reveal_strlit(" ");
        reveal_strlit(" Z");
        crate::text::lemma_coord_text_chars(p.x as int);
        crate::text::lemma_coord_text_chars(p.y as int);
        assert(path_prefix(pts, circul, 0) == Seq::<char>::empty());
        assert(path_prefix(pts, circul, 1) =~= move_text(p));
        let t = path_text(pts, close, circul);
        let m = move_text(p);
        let a = coord_text(p.x as int);
        let b = coord_text(p.y as int);
        assert forall|j: int| 0 <= j < t.len() implies t[j] != 'L' && t[j] != 'C' by {
            if j < 2 {
                assert(t[j] == "M "@[j]);
            } else if j < 2 + a.len() {
                assert(t[j] == a[j - 2]);
            } else if j < 3 + a.len() {
                assert(t[j] == ' ');
            } else if j < m.len() {
                assert(t[j] == b[j - 3 - a.len()]);
            } else {
                assert(t[j] == " Z"@[j - m.len()]);
            }
        }
    }
}

} // verus!
