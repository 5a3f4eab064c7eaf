//! The sprite pipeline: one program and one unit quad, drawn once per sprite.

use crate::asset::{Asset, AssetCache, Texture};
use crate::error::Error;
use crate::gl::{
    draws, lemma_push_command, Command, CommandBuffer, Quad, Recording, ShaderStage, Triangle,
    Vertex,
};
use vstd::prelude::*;
use vstd::string::StringExecFns;

verus! {

/// What to draw: a textured unit quad.
#[derive(Debug)]
pub struct Sprite {
    pub texture: Asset<Texture>,
}

/// The unit square as two triangles that share the diagonal from (0, 0) to
/// (1, 1).
pub open spec fn unit_quad() -> Quad {
    Quad {
        first: Triangle {
            a: Vertex { x: 0, y: 0 },
            b: Vertex { x: 0, y: 1 },
            c: Vertex { x: 1, y: 1 },
        },
        second: Triangle {
            a: Vertex { x: 0, y: 0 },
            b: Vertex { x: 1, y: 1 },
            c: Vertex { x: 1, y: 0 },
        },
    }
}

/// The objects of a sprite pipeline, by name.
pub struct Pipeline {
    pub program: u32,
    pub vertex_array: u32,
    pub buffer: u32,
}

/// The commands that build a pipeline out of the five names from `first` on:
/// the program, the vertex shader, the fragment shader, the vertex array and
/// the buffer, in this order.
///
/// Both shaders are compiled and their logs checked, the program is linked
/// whatever the logs say, the buffer gets the unit quad, and attribute 0
/// reads two floats per vertex from it.
pub open spec fn setup_commands(first: u32) -> Seq<Command> {
    let program = first;
    let vertex_shader = (first + 1) as u32;
    let fragment_shader = (first + 2) as u32;
    let vertex_array = (first + 3) as u32;
    let buffer = (first + 4) as u32;
    seq![
        Command::CreateProgram { program },
        Command::CreateShader { shader: vertex_shader, stage: ShaderStage::Vertex },
        Command::CreateShader { shader: fragment_shader, stage: ShaderStage::Fragment },
        Command::ShaderSource { shader: vertex_shader, stage: ShaderStage::Vertex },
        Command::CompileShader { shader: vertex_shader },
        Command::CheckShaderLog { shader: vertex_shader, stage: ShaderStage::Vertex },
        Command::ShaderSource { shader: fragment_shader, stage: ShaderStage::Fragment },
        Command::CompileShader { shader: fragment_shader },
        Command::CheckShaderLog { shader: fragment_shader, stage: ShaderStage::Fragment },
        Command::AttachShader { program, shader: vertex_shader },
        Command::AttachShader { program, shader: fragment_shader },
        Command::LinkProgram { program },
        Command::CreateVertexArray { vertex_array },
        Command::CreateBuffer { buffer },
        Command::BindVertexArray { vertex_array },
        Command::BindBuffer { buffer },
        Command::BufferData { quad: unit_quad() },
        Command::EnableVertexAttribArray { index: 0 },
        Command::VertexAttribPointer { index: 0, size: 2, stride: 0, offset: 0 },
    ]
}

/// The recording and the result that building a pipeline leaves behind.
pub struct Built {
    pub gl: Recording,
    pub result: Result<Pipeline, Error>,
}

/// What building a pipeline does: with fewer than five object names left it
/// fails and records nothing; otherwise it reserves five and records
/// [`setup_commands`].
pub open spec fn build(gl: Recording) -> Built {
    if gl.remaining() < 5 {
        Built { gl, result: Err(Error::ResourceExhausted) }
    } else {
        Built {
            gl: gl.reserve(5).record_all(setup_commands(gl.next_name)),
            result: Ok(
                Pipeline {
                    program: gl.next_name,
                    vertex_array: (gl.next_name + 3) as u32,
                    buffer: (gl.next_name + 4) as u32,
                },
            ),
        }
    }
}

/// The commands that draw one sprite with `texture`.
pub open spec fn sprite_commands(texture: u32) -> Seq<Command> {
    seq![
        Command::ActiveTexture { unit: 0 },
        Command::BindTexture { texture },
        Command::DrawArrays { start: 0, count: 6 },
    ]
}

/// The position, from `from` on, of the first sprite whose handle has no
/// texture; the number of sprites if there is none.
pub open spec fn first_unknown(textures: Map<u32, Texture>, sprites: Seq<Sprite>, from: nat) -> nat
    decreases sprites.len() - from,
{
    if from >= sprites.len() {
        sprites.len()
    } else if !textures.contains_key(sprites[from as int].texture@) {
        from
    } else {
        first_unknown(textures, sprites, from + 1)
    }
}

/// The commands that draw the first `count` sprites, in their order.
pub open spec fn draw_commands(textures: Map<u32, Texture>, sprites: Seq<Sprite>, count: nat) -> Seq<
    Command,
>
    decreases count,
{
    if count == 0 {
        Seq::empty()
    } else {
        draw_commands(textures, sprites, (count - 1) as nat) + sprite_commands(
            textures[sprites[count - 1].texture@].texture,
        )
    }
}

/// The recording and the result that a frame leaves behind.
pub struct Rendered {
    pub gl: Recording,
    pub result: Result<(), Error>,
}

/// What rendering `sprites` does: the program and the quad are bound once,
/// then each sprite is drawn with its own texture, in the order given. The
/// frame ends at the first sprite whose handle has no texture, with
/// `UnknownHandle` for that handle; the sprites before it are drawn.
pub open spec fn render(
    pipeline: Pipeline,
    gl: Recording,
    textures: Map<u32, Texture>,
    sprites: Seq<Sprite>,
) -> Rendered {
    let drawn = first_unknown(textures, sprites, 0);
    Rendered {
        gl: gl.record(Command::UseProgram { program: pipeline.program }).record(
            Command::BindVertexArray { vertex_array: pipeline.vertex_array },
        ).record_all(draw_commands(textures, sprites, drawn)),
        result: if drawn == sprites.len() {
            Ok(())
        } else {
            Err(Error::UnknownHandle { handle: sprites[drawn as int].texture@ })
        },
    }
}

/// What releasing a pipeline does: its program, its vertex array and its
/// buffer are deleted, in this order.
pub open spec fn release(pipeline: Pipeline, gl: Recording) -> Recording {
    gl.record(Command::DeleteProgram { program: pipeline.program }).record(
        Command::DeleteVertexArray { vertex_array: pipeline.vertex_array },
    ).record(Command::DeleteBuffer { buffer: pipeline.buffer })
}

/// Where the sprites from `from` up to `at` have their textures and the one
/// at `at`, if there is one, has none, the first sprite without a texture
/// is the one at `at`.
pub proof fn lemma_first_unknown(
    textures: Map<u32, Texture>,
    sprites: Seq<Sprite>,
    from: nat,
    at: nat,
)
    requires
        from <= at <= sprites.len(),
        forall|j: int| from <= j < at ==> textures.contains_key(#[trigger] sprites[j].texture@),
        at < sprites.len() ==> !textures.contains_key(sprites[at as int].texture@),
    ensures
        first_unknown(textures, sprites, from) == at,
    decreases at - from,
{
    if from < at {
        lemma_first_unknown(textures, sprites, from + 1, at);
    }
}

/// The textures of the first `count` sprites, in their order.
pub open spec fn sprite_textures(textures: Map<u32, Texture>, sprites: Seq<Sprite>, count: nat) -> Seq<
    Option<u32>,
> {
    Seq::new(count, |i: int| Some(textures[sprites[i].texture@].texture))
}

/// Drawing the first `count` sprites adds one draw for each, in their
/// order, each with the texture of its sprite bound.
proof fn lemma_draw_commands_draw(
    before: Seq<Command>,
    textures: Map<u32, Texture>,
    sprites: Seq<Sprite>,
    count: nat,
)
    ensures
        draws(before + draw_commands(textures, sprites, count)) == draws(before) + sprite_textures(
            textures,
            sprites,
            count,
        ),
    decreases count,
{
    if count == 0 {
        assert(before + draw_commands(textures, sprites, count) =~= before);
    } else {
        let fewer = (count - 1) as nat;
        let texture = textures[sprites[count - 1].texture@].texture;
        let start = before + draw_commands(textures, sprites, fewer);
        let active = start.push(Command::ActiveTexture { unit: 0 });
        let bound = active.push(Command::BindTexture { texture });
        let drawn = bound.push(Command::DrawArrays { start: 0, count: 6 });
        lemma_draw_commands_draw(before, textures, sprites, fewer);
        lemma_push_command(start, Command::ActiveTexture { unit: 0 });
        lemma_push_command(active, Command::BindTexture { texture });
        lemma_push_command(bound, Command::DrawArrays { start: 0, count: 6 });
        assert(before + draw_commands(textures, sprites, count) =~= drawn);
    }
}

/// A frame issues exactly one draw for each sprite that it reaches, in the
/// order given, and each with the texture of its sprite bound.
pub proof fn lemma_render_draws(
    pipeline: Pipeline,
    gl: Recording,
    textures: Map<u32, Texture>,
    sprites: Seq<Sprite>,
)
    ensures
        draws(render(pipeline, gl, textures, sprites).gl.commands) == draws(gl.commands)
            + sprite_textures(textures, sprites, first_unknown(textures, sprites, 0)),
{
    let used = gl.commands.push(Command::UseProgram { program: pipeline.program });
    let ready = used.push(Command::BindVertexArray { vertex_array: pipeline.vertex_array });
    lemma_push_command(gl.commands, Command::UseProgram { program: pipeline.program });
    lemma_push_command(used, Command::BindVertexArray { vertex_array: pipeline.vertex_array });
    lemma_draw_commands_draw(ready, textures, sprites, first_unknown(textures, sprites, 0));
}

/// A frame without sprites succeeds and issues no draw.
pub proof fn lemma_render_nothing(pipeline: Pipeline, gl: Recording, textures: Map<u32, Texture>)
    ensures
        render(pipeline, gl, textures, Seq::empty()).result == Ok::<(), Error>(()),
        draws(render(pipeline, gl, textures, Seq::empty()).gl.commands) == draws(gl.commands),
{
    lemma_render_draws(pipeline, gl, textures, Seq::empty());
}

/// A frame of two sprites that share a registered handle succeeds and
/// issues exactly two draws, both with the texture of that handle bound.
pub proof fn lemma_render_shared_texture(
    pipeline: Pipeline,
    gl: Recording,
    textures: Map<u32, Texture>,
    first: Sprite,
    second: Sprite,
)
    requires
        first.texture@ == second.texture@,
        textures.contains_key(first.texture@),
    ensures
        render(pipeline, gl, textures, seq![first, second]).result == Ok::<(), Error>(()),
        draws(render(pipeline, gl, textures, seq![first, second]).gl.commands) == draws(
            gl.commands,
        ).push(Some(textures[first.texture@].texture)).push(
            Some(textures[first.texture@].texture),
        ),
{
    let sprites = seq![first, second];
    lemma_first_unknown(textures, sprites, 0, 2);
    lemma_render_draws(pipeline, gl, textures, sprites);
}

/// Owns the program and the quad geometry that every sprite is drawn with.
#[derive(Debug)]
pub struct SpriteRenderer {
    program: u32,
    vao: u32,
    vbo: u32,
}

impl View for SpriteRenderer {
    type V = Pipeline;

    closed spec fn view(&self) -> Pipeline {
        Pipeline { program: self.program, vertex_array: self.vao, buffer: self.vbo }
    }
}

/// The pipeline in the result of building a renderer.
pub open spec fn pipeline_of(result: Result<SpriteRenderer, Error>) -> Result<Pipeline, Error> {
    match result {
        Ok(renderer) => Ok(renderer@),
        Err(error) => Err(error),
    }
}

impl SpriteRenderer {
    /// Builds the pipeline: a program of a vertex and a fragment shader, and
    /// the unit quad in a static buffer.
    pub fn new(gl: &mut CommandBuffer) -> (result: Result<SpriteRenderer, Error>)
        ensures
            final(gl)@ == build(old(gl)@).gl,
            pipeline_of(result) == build(old(gl)@).result,
    {
        let program = match gl.reserve(5) {
            Some(first) => first,
            None => {
                return Err(Error::ResourceExhausted);
            },
        };
        let v_shader = program + 1;
        let f_shader = program + 2;
        let vao = program + 3;
        let vbo = program + 4;
        gl.record(Command::CreateProgram { program });
        gl.record(Command::CreateShader { shader: v_shader, stage: ShaderStage::Vertex });
        gl.record(Command::CreateShader { shader: f_shader, stage: ShaderStage::Fragment });

        gl.record(Command::ShaderSource { shader: v_shader, stage: ShaderStage::Vertex });
        gl.record(Command::CompileShader { shader: v_shader });
        gl.record(Command::CheckShaderLog { shader: v_shader, stage: ShaderStage::Vertex });

        gl.record(Command::ShaderSource { shader: f_shader, stage: ShaderStage::Fragment });
        gl.record(Command::CompileShader { shader: f_shader });
        gl.record(Command::CheckShaderLog { shader: f_shader, stage: ShaderStage::Fragment });

        gl.record(Command::AttachShader { program, shader: v_shader });
        gl.record(Command::AttachShader { program, shader: f_shader });
        gl.record(Command::LinkProgram { program });

        gl.record(Command::CreateVertexArray { vertex_array: vao });
        gl.record(Command::CreateBuffer { buffer: vbo });
        gl.record(Command::BindVertexArray { vertex_array: vao });
        gl.record(Command::BindBuffer { buffer: vbo });
        gl.record(Command::BufferData { quad: quad() });

        gl.record(Command::EnableVertexAttribArray { index: 0 });
        gl.record(Command::VertexAttribPointer { index: 0, size: 2, stride: 0, offset: 0 });
        assert(gl@.commands =~= old(gl)@.commands + setup_commands(old(gl)@.next_name));
        Ok(SpriteRenderer { program, vao, vbo })
    }

    /// Draws `sprites` in the order given, later ones over earlier ones:
    /// one draw of six vertices for each.
    pub fn render_sprites(
        &self,
        gl: &mut CommandBuffer,
        assets: &AssetCache,
        sprites: &[Sprite],
    ) -> (result: Result<(), Error>)
        ensures
            final(gl)@ == render(self@, old(gl)@, assets@.textures, sprites@).gl,
            result == render(self@, old(gl)@, assets@.textures, sprites@).result,
    {
        gl.record(Command::UseProgram { program: self.program });
        gl.record(Command::BindVertexArray { vertex_array: self.vao });
        let ghost bound = gl@;
        let ghost textures = assets@.textures;
        let mut i: usize = 0;
        while i < sprites.len()
            invariant
                i <= sprites.len(),
                textures == assets@.textures,
                bound == old(gl)@.record(Command::UseProgram { program: self@.program }).record(
                    Command::BindVertexArray { vertex_array: self@.vertex_array },
                ),
                forall|j: int| 0 <= j < i ==> textures.contains_key(#[trigger] sprites@[j].texture@),
                gl@ == bound.record_all(draw_commands(textures, sprites@, i as nat)),
            decreases sprites.len() - i,
        {
            match assets.get_texture(&sprites[i].texture) {
                Err(error) => {
                    proof {
                        lemma_first_unknown(textures, sprites@, 0, i as nat);
                    }
                    return Err(error);
                },
                Ok(texture) => {
                    gl.record(Command::ActiveTexture { unit: 0 });
                    gl.record(Command::BindTexture { texture: texture.texture });
                    gl.record(Command::DrawArrays { start: 0, count: 6 });
                    assert(gl@.commands =~= bound.commands + draw_commands(
                        textures,
                        sprites@,
                        (i + 1) as nat,
                    ));
                },
            }
            i += 1;
        }
        proof {
            lemma_first_unknown(textures, sprites@, 0, i as nat);
        }
        Ok(())
    }

    /// Releases the program, the vertex array and the buffer. The renderer
    /// is given up with them.
    pub fn destroy(self, gl: &mut CommandBuffer)
        ensures
            final(gl)@ == release(self@, old(gl)@),
    {
        gl.record(Command::DeleteProgram { program: self.program });
        gl.record(Command::DeleteVertexArray { vertex_array: self.vao });
        gl.record(Command::DeleteBuffer { buffer: self.vbo });
    }
}

/// The unit quad that the pipeline draws.
pub fn quad() -> (quad: Quad)
    ensures
        quad == unit_quad(),
{
    Quad {
        first: Triangle {
            a: Vertex { x: 0, y: 0 },
            b: Vertex { x: 0, y: 1 },
            c: Vertex { x: 1, y: 1 },
        },
        second: Triangle {
            a: Vertex { x: 0, y: 0 },
            b: Vertex { x: 1, y: 1 },
            c: Vertex { x: 1, y: 0 },
        },
    }
}

/// The text that a diagnostic for `stage` starts with.
pub open spec fn diagnostic_prefix(stage: ShaderStage) -> Seq<char> {
    match stage {
        ShaderStage::Vertex => "Error compiling v shader: "@,
        ShaderStage::Fragment => "Error compiling f shader: "@,
    }
}

/// Judges the information log that compiling the shader of `stage` left:
/// an absent or empty log is a clean compile, anything else is reported with
/// the log's text.
pub fn check_shader_log(stage: ShaderStage, log: Option<String>) -> (result: Result<(), Error>)
    ensures
        match log {
            Some(text) if text@.len() > 0 => result matches Err(
                Error::ShaderCompileFailed { message },
            ) && message@ == diagnostic_prefix(stage) + text@,
            _ => result == Ok::<(), Error>(()),
        },
{
    match log {
        Some(text) => {
            if text.as_str().is_empty() {
                Ok(())
            } else {
                let prefix = match stage {
                    ShaderStage::Vertex => String::from_str("Error compiling v shader: "),
                    ShaderStage::Fragment => String::from_str("Error compiling f shader: "),
                };
                Err(Error::ShaderCompileFailed { message: prefix.concat(text.as_str()) })
            }
        },
        None => Ok(()),
    }
}

} // verus!
