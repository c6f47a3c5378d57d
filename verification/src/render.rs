use crate::color::Color;
use crate::framebuffer::Framebuffer;
use vstd::prelude::*;

verus! {

/// Whether `value` is the packed form of a colour that `shade` may return
/// for the pixel `(x, y)`.
pub open spec fn painted_by<F: Fn(usize, usize) -> Color>(
    shade: F,
    x: usize,
    y: usize,
    value: u32,
) -> bool {
    exists|c: Color| shade.ensures((x, y), c) && value == c.hex()
}

/// Whether each of the first `count` cells of `buffer`, taken row by row in
/// a grid `width` wide, holds a colour that `shade` may return for it.
pub open spec fn shaded<F: Fn(usize, usize) -> Color>(
    shade: F,
    buffer: Seq<u32>,
    width: int,
    count: int,
) -> bool {
    forall|i: int|
        0 <= i < count ==> painted_by(
            shade,
            (i % width) as usize,
            (i / width) as usize,
            #[trigger] buffer[i],
        )
}

/// Draws one frame: every pixel `(x, y)` of the buffer is set to the colour
/// that `shade` gives for it, row by row from the top. The drawing colour is
/// left at the colour of the last pixel drawn.
pub fn render<F: Fn(usize, usize) -> Color>(framebuffer: &mut Framebuffer, shade: F)
    requires
        old(framebuffer).wf(),
        forall|x: usize, y: usize|
            old(framebuffer).in_bounds(x, y) ==> #[trigger] shade.requires((x, y)),
    ensures
        final(framebuffer).wf(),
        final(framebuffer).width == old(framebuffer).width,
        final(framebuffer).height == old(framebuffer).height,
        final(framebuffer).background_color == old(framebuffer).background_color,
        forall|x: usize, y: usize|
            final(framebuffer).in_bounds(x, y) ==> painted_by(
                shade,
                x,
                y,
                #[trigger] final(framebuffer).pixel(x, y),
            ),
        final(framebuffer).buffer@.len() == 0 ==> final(framebuffer).current_color == old(
            framebuffer).current_color,
        final(framebuffer).buffer@.len() > 0 ==> final(framebuffer).current_color == final(
            framebuffer).buffer@.last(),
{
    let width = framebuffer.width;
    let height = framebuffer.height;
    let ghost first_color = framebuffer.current_color;
    let ghost background = framebuffer.background_color;
    let mut y: usize = 0;
    while y < height
        invariant
            y <= height,
            framebuffer.wf(),
            framebuffer.width == width,
            framebuffer.height == height,
            framebuffer.background_color == background,
            forall|x: usize, y: usize| x < width && y < height ==> #[trigger] shade.requires((x, y)),
            0 <= y * width <= framebuffer.buffer@.len(),
            shaded(shade, framebuffer.buffer@, width as int, y * width),
            y * width == 0 ==> framebuffer.current_color == first_color,
            y * width > 0 ==> framebuffer.current_color == framebuffer.buffer@[y * width - 1],
        decreases height - y,
    {
        let mut x: usize = 0;
        while x < width
            invariant
                y < height,
                x <= width,
                framebuffer.wf(),
                framebuffer.width == width,
                framebuffer.height == height,
                framebuffer.background_color == background,
                forall|x: usize, y: usize|
                    x < width && y < height ==> #[trigger] shade.requires((x, y)),
                0 <= y * width + x <= framebuffer.buffer@.len(),
                shaded(shade, framebuffer.buffer@, width as int, y * width + x),
                y * width + x == 0 ==> framebuffer.current_color == first_color,
                y * width + x > 0 ==> framebuffer.current_color == framebuffer.buffer@[y * width
                    + x - 1],
            decreases width - x,
        {
            let pixel_color = shade(x, y);
            let ghost before = framebuffer.buffer@;
            let ghost i = y * width + x;
            let ghost w = width as int;
            proof {
                framebuffer.lemma_index_of(x, y);
                assert(i % w == x && i / w == y) by (nonlinear_arith)
                    requires
                        i == y * w + x,
                        0 <= x < w,
                        0 <= y,
                ;
            }
            framebuffer.set_current_color(pixel_color.to_u32());
            framebuffer.point(x, y);
            proof {
                assert(framebuffer.buffer@ == before.update(i, pixel_color.hex() as u32));
                assert forall|j: int| 0 <= j < i + 1 implies painted_by(
                    shade,
                    (j % w) as usize,
                    (j / w) as usize,
                    #[trigger] framebuffer.buffer@[j],
                ) by {
                    if j < i {
                        assert(painted_by(shade, (j % w) as usize, (j / w) as usize, before[j]));
                    } else {
                        assert(shade.ensures((x, y), pixel_color));
                    }
                }
            }
            x += 1;
        }
        assert((y + 1) * width == y * width + width) by (nonlinear_arith);
        y += 1;
    }
    proof {
        let w = width as int;
        assert(y * width == framebuffer.buffer@.len()) by (nonlinear_arith)
            requires
                y == height,
                framebuffer.buffer@.len() == width * height,
        ;
        assert forall|x: usize, y: usize| framebuffer.in_bounds(x, y) implies painted_by(
            shade,
            x,
            y,
            #[trigger] framebuffer.pixel(x, y),
        ) by {
            framebuffer.lemma_index_of(x, y);
            let i = framebuffer.index_of(x, y);
            assert(i % w == x && i / w == y) by (nonlinear_arith)
                requires
                    i == y * w + x,
                    0 <= x < w,
                    0 <= y,
            ;
            assert(painted_by(shade, (i % w) as usize, (i / w) as usize, framebuffer.buffer@[i]));
        }
    }
}

} // verus!
