//! The plan of one rendered frame: one draw pass per output whose desktop the
//! lens can sample, with the integer geometry that the lens shader receives
//! and the scissor rectangle that keeps the pass to its output.

use vstd::prelude::*;
use crate::capture::OutputCapture;
use crate::geometry::{
    lemma_scissor_is_intersection, fits_i32, i64_fits_i32, rect_contains, scissor_fits, scissor_rect, spec_scissor, Point, Rect,
};

verus! {

/// One draw pass of the lens over one output. All points are in pixels.
#[derive(Clone, Copy, Debug, PartialEq, Eq, Structural)]
pub struct DrawPass {
    /// The index of the output among the captured outputs.
    pub output: usize,
    /// The output's top-left corner on the virtual desktop.
    pub output_origin: Point,
    /// The output's width and height.
    pub output_size: Point,
    /// The overlay window's top-left corner on the virtual desktop.
    pub window_origin: Point,
    /// The overlay window's width and height.
    pub window_size: Point,
    /// The lens's width and height in physical pixels.
    pub lens_size: Point,
    /// The lens's top-left corner, relative to the overlay window.
    pub padding: Point,
    /// The part of the overlay window that this pass may draw, in window
    /// coordinates.
    pub scissor: Rect,
}

/// The pass for output `i`.
pub open spec fn spec_draw_pass(
    i: int,
    o: OutputCapture,
    window: Rect,
    lens: Point,
    size: Point,
    width: int,
    height: int,
) -> DrawPass {
    DrawPass {
        output: i as usize,
        output_origin: Point { x: o.rect.left, y: o.rect.top },
        output_size: Point {
            x: (o.rect.right - o.rect.left) as i32,
            y: (o.rect.bottom - o.rect.top) as i32,
        },
        window_origin: Point { x: window.left, y: window.top },
        window_size: Point { x: width as i32, y: height as i32 },
        lens_size: size,
        padding: Point { x: (lens.x - window.left) as i32, y: (lens.y - window.top) as i32 },
        scissor: spec_scissor(o.rect, window, width, height),
    }
}

/// The arithmetic of the pass of an output with the rectangle `r` fits in `i32`.
pub open spec fn pass_fits(r: Rect, window: Rect, lens: Point) -> bool {
    &&& scissor_fits(r, window)
    &&& fits_i32(r.right - r.left)
    &&& fits_i32(r.bottom - r.top)
    &&& fits_i32(lens.x - window.left)
    &&& fits_i32(lens.y - window.top)
}

/// The arithmetic of every pass of the frame fits in `i32`.
pub open spec fn frame_fits(outputs: Seq<OutputCapture>, window: Rect, lens: Point) -> bool {
    forall|i: int|
        0 <= i < outputs.len() && #[trigger] outputs[i].has_view ==> pass_fits(
            outputs[i].rect,
            window,
            lens,
        )
}

/// The passes of a frame: one for each output that has a view, in the order
/// of the outputs.
pub open spec fn spec_frame_plan(
    outputs: Seq<OutputCapture>,
    window: Rect,
    lens: Point,
    size: Point,
    width: int,
    height: int,
) -> Seq<DrawPass>
    decreases outputs.len(),
{
    if outputs.len() == 0 {
        Seq::empty()
    } else {
        let prev = spec_frame_plan(outputs.drop_last(), window, lens, size, width, height);
        let i = outputs.len() - 1;
        if outputs[i].has_view {
            prev.push(spec_draw_pass(i, outputs[i], window, lens, size, width, height))
        } else {
            prev
        }
    }
}

/// Tells whether the arithmetic of the pass of an output with the rectangle
/// `r` fits in `i32`.
pub fn pass_arithmetic_fits(r: Rect, window: Rect, lens: Point) -> (b: bool)
    ensures
        b == pass_fits(r, window, lens),
{
    i64_fits_i32(r.left as i64 - window.left as i64) && i64_fits_i32(
        r.top as i64 - window.top as i64,
    ) && i64_fits_i32(r.right as i64 - window.left as i64) && i64_fits_i32(
        r.bottom as i64 - window.top as i64,
    ) && i64_fits_i32(r.right as i64 - r.left as i64) && i64_fits_i32(
        r.bottom as i64 - r.top as i64,
    ) && i64_fits_i32(lens.x as i64 - window.left as i64) && i64_fits_i32(
        lens.y as i64 - window.top as i64,
    )
}

/// Tells whether `plan_frame` can be called on these values.
pub fn frame_arithmetic_fits(outputs: &Vec<OutputCapture>, window: Rect, lens: Point) -> (b: bool)
    ensures
        b == frame_fits(outputs@, window, lens),
{
    let mut i: usize = 0;
    while i < outputs.len()
        invariant
            i <= outputs@.len(),
            forall|j: int|
                0 <= j < i && #[trigger] outputs@[j].has_view ==> pass_fits(
                    outputs@[j].rect,
                    window,
                    lens,
                ),
        decreases outputs@.len() - i,
    {
        let o = outputs[i];
        if o.has_view && !pass_arithmetic_fits(o.rect, window, lens) {
            return false;
        }
        i += 1;
    }
    true
}

/// Builds the pass of output `i`.
pub fn draw_pass(i: usize, o: &OutputCapture, window: Rect, lens: Point, size: Point, width: i32, height: i32) -> (p:
    DrawPass)
    requires
        pass_fits(o.rect, window, lens),
    ensures
        p == spec_draw_pass(i as int, *o, window, lens, size, width as int, height as int),
        p.output == i,
        p.output_origin == (Point { x: o.rect.left, y: o.rect.top }),
        p.output_size.x == o.rect.right - o.rect.left,
        p.output_size.y == o.rect.bottom - o.rect.top,
        p.window_origin == (Point { x: window.left, y: window.top }),
        p.window_size == (Point { x: width, y: height }),
        p.padding.x == lens.x - window.left,
        p.padding.y == lens.y - window.top,
        p.lens_size == size,
{
    DrawPass {
        output: i,
        output_origin: Point { x: o.rect.left, y: o.rect.top },
        output_size: Point { x: o.rect.right - o.rect.left, y: o.rect.bottom - o.rect.top },
        window_origin: Point { x: window.left, y: window.top },
        window_size: Point { x: width, y: height },
        lens_size: size,
        padding: Point { x: lens.x - window.left, y: lens.y - window.top },
        scissor: scissor_rect(o.rect, window, width, height),
    }
}

/// Plans a frame of the overlay window `window`, of `width` by `height`
/// pixels, with the lens at `lens` and of size `size`.
pub fn plan_frame(outputs: &Vec<OutputCapture>, window: Rect, lens: Point, size: Point, width: i32, height: i32) -> (plan:
    Vec<DrawPass>)
    requires
        frame_fits(outputs@, window, lens),
    ensures
        plan@ == spec_frame_plan(outputs@, window, lens, size, width as int, height as int),
{
    let mut plan: Vec<DrawPass> = Vec::new();
    let mut i: usize = 0;
    while i < outputs.len()
        invariant
            i <= outputs@.len(),
            frame_fits(outputs@, window, lens),
            plan@ == spec_frame_plan(outputs@.take(i as int), window, lens, size, width as int, height as int),
        decreases outputs@.len() - i,
    {
        let o = outputs[i];
        assert(outputs@.take(i + 1).drop_last() =~= outputs@.take(i as int));
        assert(outputs@.take(i + 1)[i as int] == o);
        if o.has_view {
            let p = draw_pass(i, &o, window, lens, size, width, height);
            plan.push(p);
        }
        i += 1;
    }
    assert(outputs@.take(outputs@.len() as int) =~= outputs@);
    plan
}

/// A frame draws every output that has a view exactly once, in the order of
/// the outputs, and no other output; each pass is the pass of its output.
pub proof fn lemma_plan_draws_viewed_outputs(
    outputs: Seq<OutputCapture>,
    window: Rect,
    lens: Point,
    size: Point,
    width: int,
    height: int,
)
    requires
        outputs.len() <= usize::MAX,
    ensures
        ({
            let plan = spec_frame_plan(outputs, window, lens, size, width, height);
            &&& plan.len() <= outputs.len()
            &&& forall|k: int|
                0 <= k < plan.len() ==> {
                    let i = #[trigger] plan[k].output as int;
                    &&& i < outputs.len()
                    &&& outputs[i].has_view
                    &&& plan[k] == spec_draw_pass(i, outputs[i], window, lens, size, width, height)
                }
            &&& forall|k1: int, k2: int|
                0 <= k1 < k2 < plan.len() ==> #[trigger] plan[k1].output < #[trigger] plan[k2].output
            &&& forall|i: int|
                0 <= i < outputs.len() && #[trigger] outputs[i].has_view ==> exists|k: int|
                    0 <= k < plan.len() && #[trigger] plan[k].output == i
        }),
    decreases outputs.len(),
{
    if outputs.len() > 0 {
        let prefix = outputs.drop_last();
        lemma_plan_draws_viewed_outputs(prefix, window, lens, size, width, height);
        let prev = spec_frame_plan(prefix, window, lens, size, width, height);
        let plan = spec_frame_plan(outputs, window, lens, size, width, height);
        let last = outputs.len() - 1;
        assert forall|i: int|
            0 <= i < outputs.len() && #[trigger] outputs[i].has_view implies exists|k: int|
                0 <= k < plan.len() && #[trigger] plan[k].output == i by {
            if i < last {
                assert(prefix[i] == outputs[i]);
                let k = choose|k: int| 0 <= k < prev.len() && #[trigger] prev[k].output == i;
                assert(plan[k] == prev[k]);
            } else {
                assert(plan[prev.len() as int].output == i);
            }
        }
        assert forall|k: int| 0 <= k < plan.len() implies {
            let i = #[trigger] plan[k].output as int;
            &&& i < outputs.len()
            &&& outputs[i].has_view
            &&& plan[k] == spec_draw_pass(i, outputs[i], window, lens, size, width, height)
        } by {
            if k < prev.len() {
                assert(plan[k] == prev[k]);
                assert(prefix[prev[k].output as int] == outputs[prev[k].output as int]);
            }
        }
    }
}

/// Each pass draws the lens at its place on the desktop, stays inside the
/// overlay window, and draws exactly the window pixels that show its output.
pub proof fn lemma_pass_geometry(
    i: int,
    o: OutputCapture,
    window: Rect,
    lens: Point,
    size: Point,
    width: i32,
    height: i32,
    x: int,
    y: int,
)
    requires
        pass_fits(o.rect, window, lens),
    ensures
        ({
            let p = spec_draw_pass(i, o, window, lens, size, width as int, height as int);
            &&& p.output_origin == (Point { x: o.rect.left, y: o.rect.top })
            &&& p.output_size.x == o.rect.right - o.rect.left
            &&& p.output_size.y == o.rect.bottom - o.rect.top
            &&& p.window_origin == (Point { x: window.left, y: window.top })
            &&& p.window_size == (Point { x: width, y: height })
            &&& p.padding.x == lens.x - window.left
            &&& p.padding.y == lens.y - window.top
            &&& p.lens_size == size
            &&& p.window_origin.x + p.padding.x == lens.x
            &&& p.window_origin.y + p.padding.y == lens.y
            &&& p.output_origin.x + p.output_size.x == o.rect.right
            &&& p.output_origin.y + p.output_size.y == o.rect.bottom
            &&& 0 <= p.scissor.left
            &&& 0 <= p.scissor.top
            &&& p.scissor.right <= width
            &&& p.scissor.bottom <= height
            &&& rect_contains(p.scissor, x, y) <==> (rect_contains(
                o.rect,
                x + window.left,
                y + window.top,
            ) && 0 <= x < width && 0 <= y < height)
        }),
{
}

/// Two rectangles do not overlap: one lies wholly left of, right of, above
/// or below the other. The monitors of a desktop never overlap.
pub open spec fn rects_apart(a: Rect, b: Rect) -> bool {
    a.right <= b.left || b.right <= a.left || a.bottom <= b.top || b.bottom <= a.top
}

/// No two outputs overlap on the desktop.
pub open spec fn outputs_apart(outputs: Seq<OutputCapture>) -> bool {
    forall|i: int, j: int|
        0 <= i < j < outputs.len() ==> rects_apart(#[trigger] outputs[i].rect, #[trigger] outputs[j].rect)
}

/// Each screen's part of the lens is drawn separately: where the outputs do
/// not overlap, no pixel of the overlay window is drawn by two passes, and
/// every window pixel that shows a point of an output with a view is drawn by
/// that output's pass.
pub proof fn lemma_passes_partition_window(
    outputs: Seq<OutputCapture>,
    window: Rect,
    lens: Point,
    size: Point,
    width: i32,
    height: i32,
    x: int,
    y: int,
)
    requires
        outputs.len() <= usize::MAX,
        frame_fits(outputs, window, lens),
        outputs_apart(outputs),
    ensures
        ({
            let plan = spec_frame_plan(outputs, window, lens, size, width as int, height as int);
            &&& forall|k1: int, k2: int|
                0 <= k1 < plan.len() && 0 <= k2 < plan.len() && k1 != k2 ==> !(rect_contains(
                    #[trigger] plan[k1].scissor,
                    x,
                    y,
                ) && rect_contains(#[trigger] plan[k2].scissor, x, y))
            &&& forall|i: int|
                0 <= i < outputs.len() && #[trigger] outputs[i].has_view && rect_contains(
                    outputs[i].rect,
                    x + window.left,
                    y + window.top,
                ) && 0 <= x < width && 0 <= y < height ==> exists|k: int|
                    0 <= k < plan.len() && plan[k].output == i && rect_contains(plan[k].scissor, x, y)
        }),
{
    let plan = spec_frame_plan(outputs, window, lens, size, width as int, height as int);
    lemma_plan_draws_viewed_outputs(outputs, window, lens, size, width as int, height as int);
    assert forall|k1: int, k2: int|
        0 <= k1 < plan.len() && 0 <= k2 < plan.len() && k1 != k2 implies !(rect_contains(
            #[trigger] plan[k1].scissor,
            x,
            y,
        ) && rect_contains(#[trigger] plan[k2].scissor, x, y)) by {
        let i1 = plan[k1].output as int;
        let i2 = plan[k2].output as int;
        assert(outputs[i1].has_view && outputs[i2].has_view);
        lemma_scissor_is_intersection(outputs[i1].rect, window, width, height, x, y);
        lemma_scissor_is_intersection(outputs[i2].rect, window, width, height, x, y);
        if k1 < k2 {
            assert(plan[k1].output < plan[k2].output);
            assert(rects_apart(outputs[i1].rect, outputs[i2].rect));
        } else {
            assert(plan[k2].output < plan[k1].output);
            assert(rects_apart(outputs[i2].rect, outputs[i1].rect));
        }
    }
    assert forall|i: int|
        0 <= i < outputs.len() && #[trigger] outputs[i].has_view && rect_contains(
            outputs[i].rect,
            x + window.left,
            y + window.top,
        ) && 0 <= x < width && 0 <= y < height implies exists|k: int|
            0 <= k < plan.len() && plan[k].output == i && rect_contains(plan[k].scissor, x, y) by {
        let k = choose|k: int| 0 <= k < plan.len() && #[trigger] plan[k].output == i;
        lemma_scissor_is_intersection(outputs[i].rect, window, width, height, x, y);
        assert(plan[k].output as int == i);
    }
}

} // verus!
