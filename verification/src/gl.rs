//! Recording of graphics commands.
//!
//! No function of this module touches a GPU. A [`CommandBuffer`] records the
//! commands that the cache and the renderer ask for, in order, and reserves a
//! name for every object that one of its commands creates. The host takes the
//! recorded commands out and performs them on the platform's context, keeping
//! the platform's objects under the names reserved here.

use vstd::prelude::*;

verus! {

/// The two programmable stages of the sprite pipeline.
#[derive(Clone, Copy, Debug, PartialEq, Eq)]
pub enum ShaderStage {
    Vertex,
    Fragment,
}

/// A corner of the unit square. The host uploads each coordinate as a 32-bit
/// float.
#[derive(Clone, Copy, Debug, PartialEq, Eq)]
pub struct Vertex {
    pub x: u8,
    pub y: u8,
}

/// Three vertices, in drawing order.
#[derive(Clone, Copy, Debug, PartialEq, Eq)]
pub struct Triangle {
    pub a: Vertex,
    pub b: Vertex,
    pub c: Vertex,
}

/// Two triangles that cover a rectangle, six vertices in all.
#[derive(Clone, Copy, Debug, PartialEq, Eq)]
pub struct Quad {
    pub first: Triangle,
    pub second: Triangle,
}

/// One operation on the graphics context.
///
/// Objects are referred to by the names that the recording buffer reserved
/// for them. Buffers are bound and filled at the array-buffer target,
/// textures are bound at the 2D target, vertex attributes are unnormalised
/// floats and draws are triangle lists.
#[derive(Debug, PartialEq, Eq)]
pub enum Command {
    /// Create a texture object and keep it under `texture`.
    CreateTexture { texture: u32 },
    /// Ask the image loader to fill `texture` from `source`. The request is
    /// not awaited.
    LoadImage { texture: u32, source: String },
    /// Create a program object and keep it under `program`.
    CreateProgram { program: u32 },
    /// Create a shader object for `stage` and keep it under `shader`.
    CreateShader { shader: u32, stage: ShaderStage },
    /// Give `shader` the source text that is configured for `stage`.
    ShaderSource { shader: u32, stage: ShaderStage },
    CompileShader { shader: u32 },
    /// Read the information log of `shader` and report it if it says
    /// anything; see [`crate::sprite::check_shader_log`].
    CheckShaderLog { shader: u32, stage: ShaderStage },
    AttachShader { program: u32, shader: u32 },
    LinkProgram { program: u32 },
    /// Create a vertex array object and keep it under `vertex_array`.
    CreateVertexArray { vertex_array: u32 },
    /// Create a buffer object and keep it under `buffer`.
    CreateBuffer { buffer: u32 },
    BindVertexArray { vertex_array: u32 },
    BindBuffer { buffer: u32 },
    /// Fill the bound buffer with the six vertices of `quad`, for static
    /// drawing.
    BufferData { quad: Quad },
    EnableVertexAttribArray { index: u32 },
    /// Attribute `index` reads `size` floats per vertex from the bound
    /// buffer.
    VertexAttribPointer { index: u32, size: i32, stride: i32, offset: i32 },
    UseProgram { program: u32 },
    /// Select texture unit `unit`, counted from the first.
    ActiveTexture { unit: u32 },
    BindTexture { texture: u32 },
    /// Draw `count` vertices, from vertex `start` on.
    DrawArrays { start: i32, count: i32 },
    DeleteProgram { program: u32 },
    DeleteVertexArray { vertex_array: u32 },
    DeleteBuffer { buffer: u32 },
}

/// What a [`CommandBuffer`] stands for: the commands recorded and not yet
/// taken, the next object name to reserve, and the bound that names stay
/// below.
pub struct Recording {
    pub commands: Seq<Command>,
    pub next_name: u32,
    pub name_limit: u32,
}

impl Recording {
    /// How many more object names can be reserved.
    pub open spec fn remaining(self) -> nat {
        if self.next_name < self.name_limit {
            (self.name_limit - self.next_name) as nat
        } else {
            0
        }
    }

    /// The recording after `command` has been recorded.
    pub open spec fn record(self, command: Command) -> Recording {
        Recording { commands: self.commands.push(command), ..self }
    }

    /// The recording after `more` have been recorded, in order.
    pub open spec fn record_all(self, more: Seq<Command>) -> Recording {
        Recording { commands: self.commands + more, ..self }
    }

    /// The recording after `count` names have been reserved.
    pub open spec fn reserve(self, count: nat) -> Recording {
        Recording { next_name: (self.next_name + count) as u32, ..self }
    }
}

/// How many textures `commands` create.
pub open spec fn textures_created(commands: Seq<Command>) -> nat
    decreases commands.len(),
{
    if commands.len() == 0 {
        0
    } else if commands.last() is CreateTexture {
        textures_created(commands.drop_last()) + 1
    } else {
        textures_created(commands.drop_last())
    }
}

/// The texture unit that is selected once `commands` have run: the first
/// one until another is selected.
pub open spec fn active_unit(commands: Seq<Command>) -> u32
    decreases commands.len(),
{
    if commands.len() == 0 {
        0
    } else if let Command::ActiveTexture { unit } = commands.last() {
        unit
    } else {
        active_unit(commands.drop_last())
    }
}

/// The texture that the first unit holds once `commands` have run, if one
/// was bound there. This is the texture that the sprite program samples.
pub open spec fn bound_texture(commands: Seq<Command>) -> Option<u32>
    decreases commands.len(),
{
    if commands.len() == 0 {
        None
    } else if let Command::BindTexture { texture } = commands.last() {
        if active_unit(commands.drop_last()) == 0 {
            Some(texture)
        } else {
            bound_texture(commands.drop_last())
        }
    } else {
        bound_texture(commands.drop_last())
    }
}

/// For each draw in `commands`, in order, the texture that the first unit
/// holds when the draw is issued.
pub open spec fn draws(commands: Seq<Command>) -> Seq<Option<u32>>
    decreases commands.len(),
{
    if commands.len() == 0 {
        Seq::empty()
    } else if commands.last() is DrawArrays {
        draws(commands.drop_last()).push(bound_texture(commands.drop_last()))
    } else {
        draws(commands.drop_last())
    }
}

/// What one more command adds to the readings of a recording.
pub proof fn lemma_push_command(commands: Seq<Command>, command: Command)
    ensures
        textures_created(commands.push(command)) == textures_created(commands) + (if command
            is CreateTexture {
            1nat
        } else {
            0nat
        }),
        active_unit(commands.push(command)) == (if let Command::ActiveTexture { unit } = command {
            unit
        } else {
            active_unit(commands)
        }),
        bound_texture(commands.push(command)) == (if let Command::BindTexture { texture } =
            command {
            if active_unit(commands) == 0 {
                Some(texture)
            } else {
                bound_texture(commands)
            }
        } else {
            bound_texture(commands)
        }),
        draws(commands.push(command)) == (if command is DrawArrays {
            draws(commands).push(bound_texture(commands))
        } else {
            draws(commands)
        }),
{
    assert(commands.push(command).drop_last() =~= commands);
}

/// Records graphics commands and reserves object names.
#[derive(Debug)]
pub struct CommandBuffer {
    commands: Vec<Command>,
    next_name: u32,
    name_limit: u32,
}

impl View for CommandBuffer {
    type V = Recording;

    closed spec fn view(&self) -> Recording {
        Recording {
            commands: self.commands@,
            next_name: self.next_name,
            name_limit: self.name_limit,
        }
    }
}

impl CommandBuffer {
    /// An empty buffer that can reserve the names `0` up to, but not
    /// including, `name_limit`.
    pub fn new(name_limit: u32) -> (gl: CommandBuffer)
        ensures
            gl@.commands == Seq::<Command>::empty(),
            gl@.next_name == 0,
            gl@.name_limit == name_limit,
    {
        CommandBuffer { commands: Vec::new(), next_name: 0, name_limit }
    }

    /// How many more object names can be reserved.
    pub fn remaining(&self) -> (n: u32)
        ensures
            n == self@.remaining(),
    {
        if self.next_name < self.name_limit {
            self.name_limit - self.next_name
        } else {
            0
        }
    }

    /// Reserves `count` object names in a row and returns the first of them,
    /// if that many are left.
    pub fn reserve(&mut self, count: u32) -> (first: Option<u32>)
        ensures
            old(self)@.remaining() < count ==> first is None && final(self)@ == old(self)@,
            old(self)@.remaining() >= count ==> first == Some(old(self)@.next_name)
                && final(self)@ == old(self)@.reserve(count as nat),
    {
        if self.remaining() >= count {
            let first = self.next_name;
            self.next_name = first + count;
            Some(first)
        } else {
            None
        }
    }

    /// Appends `command` to the recording.
    pub fn record(&mut self, command: Command)
        ensures
            final(self)@ == old(self)@.record(command),
    {
        self.commands.push(command);
    }

    /// Hands the recorded commands to the host, oldest first, and starts a
    /// new recording. Reserved names stay reserved.
    pub fn take_commands(&mut self) -> (commands: Vec<Command>)
        ensures
            commands@ == old(self)@.commands,
            final(self)@ == (Recording { commands: Seq::empty(), ..old(self)@ }),
    {
        let mut commands: Vec<Command> = Vec::new();
        std::mem::swap(&mut self.commands, &mut commands);
        commands
    }
}

} // verus!
