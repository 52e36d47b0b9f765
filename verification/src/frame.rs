//! The plan of a frame: the buffers to create and the commands to record,
//! for a list of rectangles.

use vstd::prelude::*;
use crate::buffer::{IndexFormat, RECT_INDICES};
use crate::component::{
    is_index_upload, vertex_upload, Point, Rectangle, HALF_HEIGHT, HALF_WIDTH,
};
use crate::pass::{background, draw_once, RenderCommand, RenderPass, RenderPassView};
use crate::pipeline::PipelineKind;
use crate::render_util::{rect_commands, RenderUtil};
use crate::surface::{HEIGHT, WIDTH};
use crate::upload::{BufferId, BufferInitView, BufferUsages, ContentsView, ResourceAllocator};

verus! {

/// Where a rectangle is drawn: its top-left corner and its extent.
#[derive(Clone, Copy, Debug, PartialEq, Eq, Structural)]
pub struct Placement {
    pub origin: Point,
    pub width: u32,
    pub height: u32,
}

/// All that one frame asks of the GPU: the buffers to create, and the pass
/// that draws from them.
#[derive(Debug, PartialEq, Eq)]
pub struct Frame {
    /// The buffers to create; a [`BufferId`] in `pass` counts from the first
    /// of them.
    pub uploads: ResourceAllocator,
    pub pass: RenderPass,
}

/// The mathematical value of a [`Frame`].
pub struct FrameView {
    pub uploads: Seq<BufferInitView>,
    pub pass: RenderPassView,
}

impl View for Frame {
    type V = FrameView;

    open spec fn view(&self) -> FrameView {
        FrameView { uploads: self.uploads@, pass: self.pass@ }
    }
}

/// The rectangles of every frame: a line across the middle of the window
/// and a line down the middle.
pub open spec fn draw_list_spec() -> Seq<Placement> {
    seq![
        Placement { origin: Point { x: 0, y: 360 }, width: 1280, height: 1 },
        Placement { origin: Point { x: 640, y: 0 }, width: 1, height: 720 },
    ]
}

/// The commands that draw rectangle number `i` of a frame: its vertex
/// buffer is buffer `2 * i` of the frame, its index buffer the one after.
pub open spec fn rect_draw(i: int) -> Seq<RenderCommand> {
    seq![
        RenderCommand::SetVertexBuffer { slot: 0, buffer: BufferId((2 * i) as usize) },
        RenderCommand::SetIndexBuffer {
            buffer: BufferId((2 * i + 1) as usize),
            index_format: IndexFormat::Uint16,
        },
        draw_once(6),
    ]
}

/// The commands that draw the first `count` rectangles of a frame, in order.
pub open spec fn draw_commands(count: nat) -> Seq<RenderCommand>
    decreases count,
{
    if count == 0 {
        Seq::empty()
    } else {
        draw_commands((count - 1) as nat) + rect_draw(count - 1)
    }
}

/// Whether `uploads` are the buffers of the rectangles in `list`: for each
/// rectangle its vertex buffer and then its index buffer, in the order of
/// the list.
pub open spec fn uploads_for(uploads: Seq<BufferInitView>, list: Seq<Placement>) -> bool {
    &&& uploads.len() == 2 * list.len()
    &&& forall|i: int|
        #![trigger list[i]]
        0 <= i < list.len() ==> {
            &&& uploads[2 * i] == vertex_upload(list[i].origin, list[i].width, list[i].height)
            &&& is_index_upload(uploads[2 * i + 1])
        }
}

/// Whether `command` can be carried out with the buffers of `uploads`: a
/// buffer that it binds has been asked for and holds what it is bound as,
/// four vertices or the six indices of a rectangle, and a draw takes
/// exactly those six indices, once.
pub open spec fn command_resolves(command: RenderCommand, uploads: Seq<BufferInitView>) -> bool {
    match command {
        RenderCommand::SetPipeline { .. } => true,
        RenderCommand::SetVertexBuffer { slot, buffer } => {
            &&& slot == 0
            &&& buffer.0 < uploads.len()
            &&& uploads[buffer.0 as int].usage == BufferUsages::Vertex
            &&& uploads[buffer.0 as int].contents matches ContentsView::Vertices(vertices)
            &&& vertices.len() == 4
        },
        RenderCommand::SetIndexBuffer { buffer, index_format } => {
            &&& index_format == IndexFormat::Uint16
            &&& buffer.0 < uploads.len()
            &&& uploads[buffer.0 as int].usage == BufferUsages::Index
            &&& uploads[buffer.0 as int].contents matches ContentsView::Bytes(bytes)
            &&& bytes.len() == 2 * RECT_INDICES@.len()
        },
        RenderCommand::DrawIndexed {
            first_index,
            end_index,
            base_vertex,
            first_instance,
            end_instance,
        } => {
            &&& first_index == 0
            &&& end_index == RECT_INDICES@.len()
            &&& base_vertex == 0
            &&& first_instance == 0
            &&& end_instance == 1
        },
    }
}

impl FrameView {
    /// Whether every command of the frame can be carried out with the
    /// buffers of the frame.
    pub open spec fn resolves(self) -> bool {
        forall|k: int|
            0 <= k < self.pass.commands.len() ==> command_resolves(
                #[trigger] self.pass.commands[k],
                self.uploads,
            )
    }

    /// Whether this frame clears to the background, selects `pipeline` and
    /// then draws each rectangle of `list` once, from buffers made for it.
    pub open spec fn draws(self, pipeline: PipelineKind, list: Seq<Placement>) -> bool {
        &&& uploads_for(self.uploads, list)
        &&& self.pass.clear == background()
        &&& self.pass.commands == seq![RenderCommand::SetPipeline { pipeline }] + draw_commands(
            list.len(),
        )
    }
}

/// The rectangles of every frame.
pub fn draw_list() -> (list: [Placement; 2])
    ensures
        list@ == draw_list_spec(),
{
    let list = [
        Placement { origin: Point { x: 0, y: 360 }, width: 1280, height: 1 },
        Placement { origin: Point { x: 640, y: 0 }, width: 1, height: 720 },
    ];
    assert(list@ =~= draw_list_spec());
    list
}

/// Plans a frame that draws the rectangles of `list` with `pipeline`: asks
/// for the buffers of each rectangle and records its draw, in the order of
/// the list.
pub fn record_frame(pipeline: PipelineKind, list: &[Placement]) -> (frame: Frame)
    ensures
        frame@.draws(pipeline, list@),
        frame@.resolves(),
{
    let mut uploads = ResourceAllocator::new();
    let mut pass = RenderPass::begin();
    pass.set_pipeline(pipeline);
    let mut i: usize = 0;
    while i < list.len()
        invariant
            0 <= i <= list@.len(),
            uploads@.len() == 2 * i,
            forall|j: int|
                #![trigger list@[j]]
                0 <= j < i ==> {
                    &&& uploads@[2 * j] == vertex_upload(
                        list@[j].origin,
                        list@[j].width,
                        list@[j].height,
                    )
                    &&& is_index_upload(uploads@[2 * j + 1])
                },
            pass@.clear == background(),
            pass@.commands == seq![RenderCommand::SetPipeline { pipeline }] + draw_commands(
                i as nat,
            ),
        decreases list@.len() - i,
    {
        let ghost before = uploads@;
        let placement = list[i];
        let rect = Rectangle::new(
            &mut uploads,
            placement.origin,
            placement.width,
            placement.height,
            None,
        );
        RenderUtil::draw_rect(&mut pass, &rect);
        proof {
            assert(rect_commands(rect) == rect_draw(i as int));
            assert forall|j: int| #![trigger list@[j]] 0 <= j < i implies {
                &&& uploads@[2 * j] == vertex_upload(
                    list@[j].origin,
                    list@[j].width,
                    list@[j].height,
                )
                &&& is_index_upload(uploads@[2 * j + 1])
            } by {
                assert(uploads@.take(before.len() as int)[2 * j] == before[2 * j]);
                assert(uploads@.take(before.len() as int)[2 * j + 1] == before[2 * j + 1]);
            }
        }
        i += 1;
    }
    let frame = Frame { uploads, pass };
    proof {
        frame.uploads.lemma_len_fits();
        lemma_frame_resolves(frame@, pipeline, list@);
    }
    frame
}

/// The commands of `count` rectangles are three for each, and those of
/// rectangle `j` stand at `3 * j`.
pub proof fn lemma_draw_commands(count: nat)
    ensures
        draw_commands(count).len() == 3 * count,
        forall|j: int|
            #![trigger rect_draw(j)]
            0 <= j < count ==> draw_commands(count).subrange(3 * j, 3 * j + 3) == rect_draw(j),
    decreases count,
{
    if count > 0 {
        let before = draw_commands((count - 1) as nat);
        lemma_draw_commands((count - 1) as nat);
        assert forall|j: int| #![trigger rect_draw(j)] 0 <= j < count implies draw_commands(
            count,
        ).subrange(3 * j, 3 * j + 3) == rect_draw(j) by {
            if j < count - 1 {
                assert(draw_commands(count).subrange(3 * j, 3 * j + 3) =~= before.subrange(
                    3 * j,
                    3 * j + 3,
                ));
            } else {
                assert(draw_commands(count).subrange(3 * j, 3 * j + 3) =~= rect_draw(j));
            }
        }
    }
}

/// In a frame that draws a list of rectangles, every command can be
/// carried out with the buffers of the frame: each rectangle is drawn from
/// its own two buffers, bound as what they hold.
pub proof fn lemma_frame_resolves(frame: FrameView, pipeline: PipelineKind, list: Seq<Placement>)
    requires
        frame.draws(pipeline, list),
        frame.uploads.len() <= usize::MAX,
    ensures
        frame.pass.commands.len() == 1 + 3 * list.len(),
        frame.resolves(),
{
    lemma_draw_commands(list.len());
    let commands = frame.pass.commands;
    let draws = draw_commands(list.len());
    assert forall|k: int| 0 <= k < commands.len() implies command_resolves(
        #[trigger] commands[k],
        frame.uploads,
    ) by {
        if k > 0 {
            let j = (k - 1) / 3;
            let r = (k - 1) % 3;
            assert(0 <= j < list.len() && 0 <= r < 3 && k - 1 == 3 * j + r);
            assert(commands[k] == draws[k - 1]);
            assert(draws.subrange(3 * j, 3 * j + 3) == rect_draw(j));
            assert(draws[k - 1] == draws.subrange(3 * j, 3 * j + 3)[r]);
            let placement = list[j];
            assert(frame.uploads[2 * j] == vertex_upload(
                placement.origin,
                placement.width,
                placement.height,
            ));
            assert(is_index_upload(frame.uploads[2 * j + 1]));
        }
    }
}

/// The viewport that rectangles are placed in is the window as it opens,
/// and every rectangle of the draw list has an area and lies within it.
pub proof fn lemma_draw_list_in_window(i: int)
    requires
        0 <= i < draw_list_spec().len(),
    ensures
        2 * HALF_WIDTH == WIDTH,
        2 * HALF_HEIGHT == HEIGHT,
        draw_list_spec()[i].width > 0,
        draw_list_spec()[i].height > 0,
        0 <= draw_list_spec()[i].origin.x,
        draw_list_spec()[i].origin.x + draw_list_spec()[i].width <= WIDTH,
        0 <= draw_list_spec()[i].origin.y,
        draw_list_spec()[i].origin.y + draw_list_spec()[i].height <= HEIGHT,
{
}

} // verus!
