use vstd::prelude::*;

verus! {

/// The pixel size of a two-dimensional image.
#[derive(Debug, Copy, Clone, PartialEq, Eq, Structural)]
pub struct Extent2D {
    pub width: u32,
    pub height: u32,
}

/// How an image is laid out in memory, which decides what it can be used for.
#[derive(Debug, Copy, Clone, PartialEq, Eq, Structural)]
pub enum Layout {
    /// Contents are undefined; a transition from here discards them.
    Undefined,
    General,
    ColorAttachment,
    DepthAttachment,
    TransferSrc,
    TransferDst,
    PresentSrc,
}

/// The image aspect that a layout transition covers.
#[derive(Debug, Copy, Clone, PartialEq, Eq, Structural)]
pub enum Aspect {
    Color,
    Depth,
}

/// An image that a frame's commands touch.
#[derive(Debug, Copy, Clone, PartialEq, Eq, Structural)]
pub enum ImageRef {
    /// The offscreen image the passes draw into.
    Draw,
    /// The swapchain image with the given index.
    Swapchain(u32),
}

/// One step of a frame's command buffer.
#[derive(Debug, Copy, Clone, PartialEq, Eq, Structural)]
pub enum FrameCommand {
    /// Begin the command buffer for a single submission.
    Begin,
    /// A pipeline barrier that moves `image` from layout `from` to layout `to`.
    Transition { image: ImageRef, from: Layout, to: Layout },
    /// The sky pass, rendered into the draw image over `extent`.
    DrawSky { extent: Extent2D },
    /// A linear-filtered blit of the whole draw image (`src`) onto the whole
    /// swapchain image `target` (`dst`).
    Blit { src: Extent2D, dst: Extent2D, target: u32 },
    /// End the command buffer.
    End,
}

/// The far corners of a blit, as the graphics API takes them; both regions
/// start at the origin and are one layer deep.
#[derive(Debug, Copy, Clone, PartialEq, Eq, Structural)]
pub struct BlitRegion {
    pub src_x: i32,
    pub src_y: i32,
    pub dst_x: i32,
    pub dst_y: i32,
}

/// The largest side that a blit offset, a signed 32-bit value, can reach.
pub const MAX_SIDE: u32 = 0x7fff_ffff;

/// An extent whose sides are positive and fit a blit offset.
pub open spec fn extent_ok(e: Extent2D) -> bool {
    0 < e.width <= MAX_SIDE && 0 < e.height <= MAX_SIDE
}

/// The command buffer of one frame that presents swapchain image `image`:
/// draw the sky into the draw image, copy it onto the swapchain image, and
/// leave that image ready for presentation.
pub open spec fn frame_commands(image: u32, draw: Extent2D, swap: Extent2D) -> Seq<FrameCommand> {
    seq![
        FrameCommand::Begin,
        FrameCommand::Transition { image: ImageRef::Draw, from: Layout::Undefined, to: Layout::ColorAttachment },
        FrameCommand::DrawSky { extent: draw },
        FrameCommand::Transition { image: ImageRef::Draw, from: Layout::ColorAttachment, to: Layout::TransferSrc },
        FrameCommand::Transition { image: ImageRef::Swapchain(image), from: Layout::Undefined, to: Layout::TransferDst },
        FrameCommand::Blit { src: draw, dst: swap, target: image },
        FrameCommand::Transition { image: ImageRef::Swapchain(image), from: Layout::TransferDst, to: Layout::PresentSrc },
        FrameCommand::End,
    ]
}

/// The layout of `img` after one command, given its layout `before`.
pub open spec fn layout_step(before: Layout, c: FrameCommand, img: ImageRef) -> Layout {
    match c {
        FrameCommand::Transition { image, to, .. } => if image == img { to } else { before },
        _ => before,
    }
}

/// The layout of `img` after the first `k` commands of `cmds`, starting from `start`.
pub open spec fn layout_at(cmds: Seq<FrameCommand>, img: ImageRef, start: Layout, k: nat) -> Layout
    decreases k,
{
    if k == 0 || k > cmds.len() {
        start
    } else {
        layout_step(layout_at(cmds, img, start, (k - 1) as nat), cmds[k - 1], img)
    }
}

/// The layout of `img` once all of `cmds` has run, with every image starting undefined.
pub open spec fn final_layout(cmds: Seq<FrameCommand>, img: ImageRef) -> Layout {
    layout_at(cmds, img, Layout::Undefined, cmds.len())
}

/// Command `j` of `cmds` finds every image it touches in the layout it needs:
/// a transition starts from the image's current layout (or discards it), the
/// sky is drawn into a colour attachment, and a blit reads a transfer source
/// and writes a transfer destination.
pub open spec fn command_in_order(cmds: Seq<FrameCommand>, j: int) -> bool {
    let at = |img: ImageRef| layout_at(cmds, img, Layout::Undefined, j as nat);
    match cmds[j] {
        FrameCommand::Transition { image, from, .. } => from == Layout::Undefined || from == at(image),
        FrameCommand::DrawSky { .. } => at(ImageRef::Draw) == Layout::ColorAttachment,
        FrameCommand::Blit { target, .. } => at(ImageRef::Draw) == Layout::TransferSrc
            && at(ImageRef::Swapchain(target)) == Layout::TransferDst,
        _ => true,
    }
}

/// Every command of `cmds` finds its images in the layouts it needs.
pub open spec fn layouts_in_order(cmds: Seq<FrameCommand>) -> bool {
    forall|j: int| 0 <= j < cmds.len() ==> #[trigger] command_in_order(cmds, j)
}

/// The commands that record one frame presenting swapchain image `image`.
pub fn record_frame(image: u32, draw: Extent2D, swap: Extent2D) -> (r: Vec<FrameCommand>)
    ensures
        r@ == frame_commands(image, draw, swap),
{
    let mut cmds: Vec<FrameCommand> = Vec::new();
    cmds.push(FrameCommand::Begin);
    cmds.push(FrameCommand::Transition { image: ImageRef::Draw, from: Layout::Undefined, to: Layout::ColorAttachment });
    cmds.push(FrameCommand::DrawSky { extent: draw });
    cmds.push(FrameCommand::Transition { image: ImageRef::Draw, from: Layout::ColorAttachment, to: Layout::TransferSrc });
    cmds.push(FrameCommand::Transition { image: ImageRef::Swapchain(image), from: Layout::Undefined, to: Layout::TransferDst });
    cmds.push(FrameCommand::Blit { src: draw, dst: swap, target: image });
    cmds.push(FrameCommand::Transition { image: ImageRef::Swapchain(image), from: Layout::TransferDst, to: Layout::PresentSrc });
    cmds.push(FrameCommand::End);
    assert(cmds@ =~= frame_commands(image, draw, swap));
    cmds
}

/// A frame's commands use every image in a layout it is in, and leave the
/// swapchain image presentable and the draw image as a transfer source.
pub proof fn lemma_frame_layouts(image: u32, draw: Extent2D, swap: Extent2D)
    ensures
        layouts_in_order(frame_commands(image, draw, swap)),
        final_layout(frame_commands(image, draw, swap), ImageRef::Swapchain(image)) == Layout::PresentSrc,
        final_layout(frame_commands(image, draw, swap), ImageRef::Draw) == Layout::TransferSrc,
{
    let cmds = frame_commands(image, draw, swap);
    let sw = ImageRef::Swapchain(image);
    let d = ImageRef::Draw;
    reveal_with_fuel(layout_at, 9);
    assert(layout_at(cmds, d, Layout::Undefined, 2) == Layout::ColorAttachment);
    assert(layout_at(cmds, d, Layout::Undefined, 5) == Layout::TransferSrc);
    assert(layout_at(cmds, sw, Layout::Undefined, 5) == Layout::TransferDst);
    assert(layout_at(cmds, sw, Layout::Undefined, 8) == Layout::PresentSrc);
    assert(layout_at(cmds, d, Layout::Undefined, 8) == Layout::TransferSrc);
    assert forall|j: int| 0 <= j < cmds.len() implies #[trigger] command_in_order(cmds, j) by {
        assert(0 <= j < 8);
    }
}

/// The aspect that a transition into `to` covers: depth for a depth
/// attachment, colour otherwise.
pub fn transition_aspect(to: Layout) -> (r: Aspect)
    ensures
        r == (if to == Layout::DepthAttachment { Aspect::Depth } else { Aspect::Color }),
{
    match to {
        Layout::DepthAttachment => Aspect::Depth,
        _ => Aspect::Color,
    }
}

/// The far corners of a blit that stretches all of `src` over all of `dst`,
/// one layer deep.
pub fn blit_region(src: Extent2D, dst: Extent2D) -> (r: BlitRegion)
    requires
        src.width <= MAX_SIDE,
        src.height <= MAX_SIDE,
        dst.width <= MAX_SIDE,
        dst.height <= MAX_SIDE,
    ensures
        r.src_x == src.width && r.src_y == src.height,
        r.dst_x == dst.width && r.dst_y == dst.height,
{
    BlitRegion {
        src_x: src.width as i32,
        src_y: src.height as i32,
        dst_x: dst.width as i32,
        dst_y: dst.height as i32,
    }
}

} // verus!
