//! The frame loop: what the two signals of the platform's event loop do.

use crate::asset::{AssetCache, Texture};
use crate::error::Error;
use crate::gl::{CommandBuffer, Recording};
use crate::sprite::{release, render, Pipeline, Sprite, SpriteRenderer};
use vstd::prelude::*;

verus! {

/// What the event loop tells the renderer.
#[derive(Clone, Copy, Debug, PartialEq, Eq)]
pub enum Signal {
    /// A frame is due.
    RedrawRequested,
    /// The window is closing.
    CloseRequested,
}

/// What the event loop does next.
#[derive(Clone, Copy, Debug, PartialEq, Eq)]
pub enum Flow {
    Continue,
    Exit,
}

/// The pipeline that is still alive, the recording and the result that a
/// signal leaves behind.
pub struct Handled {
    pub running: Option<Pipeline>,
    pub gl: Recording,
    pub result: Result<Flow, Error>,
}

/// What a signal does. While the pipeline is alive, a redraw renders one
/// frame of `sprites` and the loop goes on, also after a frame that failed;
/// a close releases the pipeline and ends the loop. Once the pipeline is
/// released no signal records anything.
pub open spec fn react(
    running: Option<Pipeline>,
    gl: Recording,
    textures: Map<u32, Texture>,
    sprites: Seq<Sprite>,
    signal: Signal,
) -> Handled {
    match running {
        None => Handled { running, gl, result: Ok(Flow::Exit) },
        Some(pipeline) => match signal {
            Signal::RedrawRequested => {
                let frame = render(pipeline, gl, textures, sprites);
                Handled {
                    running,
                    gl: frame.gl,
                    result: match frame.result {
                        Ok(()) => Ok(Flow::Continue),
                        Err(error) => Err(error),
                    },
                }
            },
            Signal::CloseRequested => Handled {
                running: None,
                gl: release(pipeline, gl),
                result: Ok(Flow::Exit),
            },
        },
    }
}

/// After a close nothing more is recorded, whatever signal comes: no
/// command can name the program, the vertex array or the buffer that the
/// close released.
pub proof fn lemma_nothing_after_close(
    pipeline: Pipeline,
    gl: Recording,
    textures: Map<u32, Texture>,
    sprites: Seq<Sprite>,
    later: Seq<Sprite>,
    signal: Signal,
)
    ensures
        ({
            let closed = react(Some(pipeline), gl, textures, sprites, Signal::CloseRequested);
            let after = react(closed.running, closed.gl, textures, later, signal);
            &&& closed.running is None
            &&& closed.gl == release(pipeline, gl)
            &&& after.running is None
            &&& after.gl == closed.gl
        }),
{
}

/// Holds the renderer from its construction to the close of the window.
#[derive(Debug)]
pub struct FrameLoop {
    renderer: Option<SpriteRenderer>,
}

impl View for FrameLoop {
    type V = Option<Pipeline>;

    closed spec fn view(&self) -> Option<Pipeline> {
        match self.renderer {
            Some(renderer) => Some(renderer@),
            None => None,
        }
    }
}

impl FrameLoop {
    /// A loop that draws with `renderer`.
    pub fn new(renderer: SpriteRenderer) -> (frames: FrameLoop)
        ensures
            frames@ == Some(renderer@),
    {
        FrameLoop { renderer: Some(renderer) }
    }

    /// Reacts to one signal of the event loop.
    pub fn handle(
        &mut self,
        gl: &mut CommandBuffer,
        assets: &AssetCache,
        sprites: &[Sprite],
        signal: Signal,
    ) -> (result: Result<Flow, Error>)
        ensures
            final(self)@ == react(old(self)@, old(gl)@, assets@.textures, sprites@, signal).running,
            final(gl)@ == react(old(self)@, old(gl)@, assets@.textures, sprites@, signal).gl,
            result == react(old(self)@, old(gl)@, assets@.textures, sprites@, signal).result,
    {
        match signal {
            Signal::RedrawRequested => match &self.renderer {
                Some(renderer) => match renderer.render_sprites(gl, assets, sprites) {
                    Ok(()) => Ok(Flow::Continue),
                    Err(error) => Err(error),
                },
                None => Ok(Flow::Exit),
            },
            Signal::CloseRequested => {
                match self.renderer.take() {
                    Some(renderer) => {
                        renderer.destroy(gl);
                    },
                    None => {},
                }
                Ok(Flow::Exit)
            },
        }
    }
}

} // verus!
