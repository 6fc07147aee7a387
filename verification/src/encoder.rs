//! The commands that a pass records, and the recorder.

use vstd::prelude::*;
use crate::light::PointLight;
use crate::math::{Mat4, Scalar, Vec4};
use crate::scene::Handle;

verus! {

/// What a flat draw binds.
#[derive(Clone, Copy, Debug, PartialEq, Eq)]
pub struct FlatData {
    pub vbuf: Handle,
    pub ka: Vec4,
    pub model: Mat4,
    pub view: Mat4,
    pub proj: Mat4,
    pub out_ka: Handle,
    pub out_depth: Handle,
}

/// What a lit draw binds.
#[derive(Clone, Copy, Debug, PartialEq, Eq)]
pub struct ShadedData {
    pub vbuf: Handle,
    pub ka: Vec4,
    pub kd: Vec4,
    /// The uniform block of light records.
    pub lights: Handle,
    /// How many records of the block the fragment stage walks.
    pub light_count: i32,
    pub model: Mat4,
    pub view: Mat4,
    pub proj: Mat4,
    pub out_ka: Handle,
    pub out_depth: Handle,
}

/// What a wireframe draw binds. It has no depth image: whatever depth test
/// there is belongs to the pipeline.
#[derive(Clone, Copy, Debug, PartialEq, Eq)]
pub struct WireframeData {
    pub vbuf: Handle,
    pub ka: Vec4,
    pub model: Mat4,
    pub view: Mat4,
    pub proj: Mat4,
    pub out_ka: Handle,
}

/// The bindings of one draw, by the layout of its pipeline.
#[derive(Clone, Copy, Debug, PartialEq, Eq)]
pub enum Data {
    Flat(FlatData),
    Shaded(ShadedData),
    Wireframe(WireframeData),
}

/// One recorded command.
#[derive(Clone, Debug, PartialEq, Eq)]
pub enum Command {
    /// Set every texel of a color image to `color`.
    ClearColor { view: Handle, color: Vec4 },
    /// Set every texel of a depth image to `depth`.
    ClearDepth { view: Handle, depth: Scalar },
    /// Overwrite the records of `buffer` from `offset` on with `records`.
    UpdateBuffer { buffer: Handle, records: Vec<PointLight>, offset: usize },
    /// Draw the range `slice` with `pipeline` and the bindings `data`.
    Draw { slice: Handle, pipeline: Handle, data: Data },
}

/// A command as contracts speak of it: as [`Command`], with the uploaded
/// records as a sequence.
pub enum Op {
    ClearColor { view: Handle, color: Vec4 },
    ClearDepth { view: Handle, depth: Scalar },
    UpdateBuffer { buffer: Handle, records: Seq<PointLight>, offset: usize },
    Draw { slice: Handle, pipeline: Handle, data: Data },
}

impl View for Command {
    type V = Op;

    open spec fn view(&self) -> Op {
        match *self {
            Command::ClearColor { view, color } => Op::ClearColor { view, color },
            Command::ClearDepth { view, depth } => Op::ClearDepth { view, depth },
            Command::UpdateBuffer { buffer, records, offset } => Op::UpdateBuffer {
                buffer,
                records: records@,
                offset,
            },
            Command::Draw { slice, pipeline, data } => Op::Draw { slice, pipeline, data },
        }
    }
}

/// The commands of `commands`, each as contracts speak of it.
pub open spec fn ops(commands: Seq<Command>) -> Seq<Op> {
    Seq::new(commands.len(), |i: int| commands[i]@)
}

/// Records commands in the order in which they are given.
pub struct Encoder {
    commands: Vec<Command>,
}

impl View for Encoder {
    type V = Seq<Op>;

    closed spec fn view(&self) -> Seq<Op> {
        ops(self.commands@)
    }
}

impl Encoder {
    /// A recorder that holds no command yet.
    pub fn new() -> (encoder: Encoder)
        ensures
            encoder@ == Seq::<Op>::empty(),
    {
        let encoder = Encoder { commands: Vec::new() };
        assert(encoder@ =~= Seq::<Op>::empty());
        encoder
    }

    fn record(&mut self, command: Command)
        ensures
            final(self)@ == old(self)@.push(command@),
    {
        self.commands.push(command);
        assert(self@ =~= old(self)@.push(command@));
    }

    /// Records a clear of the color image `view` to `color`.
    pub fn clear(&mut self, view: Handle, color: Vec4)
        ensures
            final(self)@ == old(self)@.push(Op::ClearColor { view, color }),
    {
        self.record(Command::ClearColor { view, color });
    }

    /// Records a clear of the depth image `view` to `depth`.
    pub fn clear_depth(&mut self, view: Handle, depth: Scalar)
        ensures
            final(self)@ == old(self)@.push(Op::ClearDepth { view, depth }),
    {
        self.record(Command::ClearDepth { view, depth });
    }

    /// Records that `records` overwrite those of `buffer` from `offset` on.
    pub fn update_buffer(&mut self, buffer: Handle, records: Vec<PointLight>, offset: usize)
        ensures
            final(self)@ == old(self)@.push(
                Op::UpdateBuffer { buffer, records: records@, offset },
            ),
    {
        self.record(Command::UpdateBuffer { buffer, records, offset });
    }

    /// Records a draw of the range `slice` with `pipeline` and the bindings
    /// `data`.
    pub fn draw(&mut self, slice: Handle, pipeline: Handle, data: Data)
        ensures
            final(self)@ == old(self)@.push(Op::Draw { slice, pipeline, data }),
    {
        self.record(Command::Draw { slice, pipeline, data });
    }

    /// The recorded commands, first to last.
    pub fn commands(&self) -> (commands: &Vec<Command>)
        ensures
            ops(commands@) == self@,
    {
        &self.commands
    }
}

} // verus!
