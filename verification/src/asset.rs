//! Typed handles and the texture cache.

use crate::error::Error;
use crate::gl::{lemma_push_command, textures_created, Command, CommandBuffer, Recording};
use std::collections::HashMap;
use std::marker::PhantomData;
use vstd::prelude::*;

verus! {

broadcast use vstd::std_specs::hash::group_hash_axioms;

/// A GPU texture object, by the name that the command buffer reserved for it.
#[derive(Clone, Copy, Debug, PartialEq, Eq, Hash)]
pub struct Texture {
    pub texture: u32,
}

/// A handle to a resource of kind `T`. It is an integer; the kind keeps a
/// handle of one sort of resource from being passed for another.
#[derive(Debug, Hash)]
pub struct Asset<T>(u32, PhantomData<T>);

impl<T> Clone for Asset<T> {
    fn clone(&self) -> (copy: Self)
        ensures
            copy == *self,
    {
        Asset(self.0, PhantomData)
    }
}

impl<T> Copy for Asset<T> {

}

impl<T> View for Asset<T> {
    type V = u32;

    closed spec fn view(&self) -> u32 {
        self.0
    }
}

impl<T> Asset<T> {
    /// The handle with the integer `handle`. Nothing is checked: a handle is
    /// valid once a cache has registered a resource under it.
    pub fn new(handle: u32) -> (asset: Asset<T>)
        ensures
            asset@ == handle,
    {
        Asset(handle, PhantomData)
    }

    /// The integer of this handle.
    pub fn id(&self) -> (id: u32)
        ensures
            id == self@,
    {
        self.0
    }
}

impl<T> PartialEq for Asset<T> {
    fn eq(&self, other: &Self) -> (equal: bool) {
        self.0 == other.0
    }
}

impl<T> Eq for Asset<T> {

}

impl<T> vstd::std_specs::cmp::PartialEqSpecImpl for Asset<T> {
    open spec fn obeys_eq_spec() -> bool {
        true
    }

    open spec fn eq_spec(&self, other: &Self) -> bool {
        self@ == other@
    }
}

/// What an [`AssetCache`] stands for.
pub struct CacheState {
    /// The sources loaded so far, in the order of their first load. The
    /// source at position `h` was given the handle `h`.
    pub paths: Seq<Seq<char>>,
    /// The texture registered under each handle.
    pub textures: Map<u32, Texture>,
    /// The handle that the next new source will get.
    pub next_handle: nat,
}

impl CacheState {
    /// No source is listed twice, every source has its texture, no texture
    /// is without a source, and the counter is past every handle given out.
    pub open spec fn wf(self) -> bool {
        &&& self.paths.no_duplicates()
        &&& self.paths.len() == self.next_handle
        &&& self.next_handle <= u32::MAX
        &&& forall|h: u32| self.textures.contains_key(h) <==> h < self.next_handle
    }

    /// The handle that was given to `path`, if it has been loaded.
    pub open spec fn handle_of(self, path: Seq<char>) -> Option<u32> {
        if self.paths.contains(path) {
            Some(self.paths.index_of(path) as u32)
        } else {
            None
        }
    }

    /// The cache after `texture` has been registered for the new source
    /// `path`, under the handle that the counter held.
    pub open spec fn register(self, path: Seq<char>, texture: Texture) -> CacheState {
        CacheState {
            paths: self.paths.push(path),
            textures: self.textures.insert(self.next_handle as u32, texture),
            next_handle: self.next_handle + 1,
        }
    }
}

/// The cache, the recording and the result that a load leaves behind.
pub struct Loaded {
    pub cache: CacheState,
    pub gl: Recording,
    pub result: Result<u32, Error>,
}

/// What loading `name` does.
///
/// A source that is already in the cache keeps its handle, and nothing else
/// happens. A new source needs a handle and an object name: where either has
/// run out the load fails and changes nothing. Otherwise a texture is
/// created under the next name, the image loader is asked to fill it from
/// `name`, and the texture is registered under the next handle.
pub open spec fn load(cache: CacheState, gl: Recording, name: String) -> Loaded {
    match cache.handle_of(name@) {
        Some(handle) => Loaded { cache, gl, result: Ok(handle) },
        None => if cache.next_handle >= u32::MAX || gl.remaining() == 0 {
            Loaded { cache, gl, result: Err(Error::ResourceExhausted) }
        } else {
            let texture = gl.next_name;
            Loaded {
                cache: cache.register(name@, Texture { texture }),
                gl: gl.reserve(1).record(Command::CreateTexture { texture }).record(
                    Command::LoadImage { texture, source: name },
                ),
                result: Ok(cache.next_handle as u32),
            }
        },
    }
}

/// The integer of the handle in a load's result.
pub open spec fn handle_id(result: Result<Asset<Texture>, Error>) -> Result<u32, Error> {
    match result {
        Ok(asset) => Ok(asset@),
        Err(error) => Err(error),
    }
}

/// A load keeps the cache well-formed.
pub proof fn lemma_load_keeps_wf(cache: CacheState, gl: Recording, name: String)
    requires
        cache.wf(),
    ensures
        load(cache, gl, name).cache.wf(),
{
    let after = load(cache, gl, name).cache;
    if after != cache {
        // the new source is in last place, and was in no place before
        assert forall|i: int, j: int|
            0 <= i < after.paths.len() && 0 <= j < after.paths.len() && i != j implies after.paths[i]
            != after.paths[j] by {
            if i < cache.paths.len() {
                assert(cache.paths.contains(after.paths[i]));
            }
            if j < cache.paths.len() {
                assert(cache.paths.contains(after.paths[j]));
            }
        }
    }
}

/// Loading a source a second time changes nothing and returns the same
/// handle. After a load that succeeded the source is listed exactly once,
/// and both loads together have created one texture if the source was new,
/// and none if it was loaded before.
pub proof fn lemma_load_twice(cache: CacheState, gl: Recording, name: String)
    requires
        cache.wf(),
        load(cache, gl, name).result is Ok,
    ensures
        ({
            let once = load(cache, gl, name);
            let twice = load(once.cache, once.gl, name);
            &&& twice.cache == once.cache
            &&& twice.gl == once.gl
            &&& twice.result == once.result
            &&& once.cache.paths.contains(name@)
            &&& forall|i: int, j: int|
                0 <= i < once.cache.paths.len() && 0 <= j < once.cache.paths.len()
                    && once.cache.paths[i] == name@ && once.cache.paths[j] == name@ ==> i == j
            &&& textures_created(twice.gl.commands) == textures_created(gl.commands) + (
            if cache.paths.contains(name@) {
                0nat
            } else {
                1nat
            })
        }),
{
    let once = load(cache, gl, name);
    lemma_load_keeps_wf(cache, gl, name);
    if !cache.paths.contains(name@) {
        let handle = cache.next_handle as int;
        assert(once.cache.paths[handle] == name@);
        let texture = gl.next_name;
        let created = gl.commands.push(Command::CreateTexture { texture });
        lemma_push_command(gl.commands, Command::CreateTexture { texture });
        lemma_push_command(created, Command::LoadImage { texture, source: name });
    }
}

/// Two sources that differ get handles that differ, whatever was loaded
/// before them.
pub proof fn lemma_distinct_sources_distinct_handles(
    cache: CacheState,
    gl: Recording,
    first: String,
    second: String,
)
    requires
        cache.wf(),
        first@ != second@,
        load(cache, gl, first).result is Ok,
        load(load(cache, gl, first).cache, load(cache, gl, first).gl, second).result is Ok,
    ensures
        load(cache, gl, first).result != load(
            load(cache, gl, first).cache,
            load(cache, gl, first).gl,
            second,
        ).result,
{
    lemma_load_keeps_wf(cache, gl, first);
}

/// The handle that a load returns has a texture in the cache that the load
/// leaves behind.
pub proof fn lemma_loaded_handle_has_texture(cache: CacheState, gl: Recording, name: String)
    requires
        cache.wf(),
    ensures
        load(cache, gl, name).result matches Ok(handle) ==> load(
            cache,
            gl,
            name,
        ).cache.textures.contains_key(handle),
{
}

/// A load takes no texture away: what a handle resolved to before, it
/// resolves to after.
pub proof fn lemma_load_keeps_textures(cache: CacheState, gl: Recording, name: String, handle: u32)
    requires
        cache.wf(),
        cache.textures.contains_key(handle),
    ensures
        load(cache, gl, name).cache.textures.contains_key(handle),
        load(cache, gl, name).cache.textures[handle] == cache.textures[handle],
{
}

/// Owns the loaded textures and finds them by handle. A source is loaded at
/// most once; nothing is ever removed.
#[derive(Debug)]
pub struct AssetCache {
    paths_cache: Vec<String>,
    next_texture_handle: u32,
    textures: HashMap<u32, Texture>,
}

impl View for AssetCache {
    type V = CacheState;

    closed spec fn view(&self) -> CacheState {
        CacheState {
            paths: Seq::new(self.paths_cache@.len(), |i: int| self.paths_cache@[i]@),
            textures: self.textures@,
            next_handle: self.next_texture_handle as nat,
        }
    }
}

impl AssetCache {
    /// The invariant of the cache.
    pub open spec fn wf(&self) -> bool {
        self@.wf()
    }

    /// An empty cache, with the handle counter at 0.
    pub fn new() -> (cache: AssetCache)
        ensures
            cache.wf(),
            cache@.paths == Seq::<Seq<char>>::empty(),
            cache@.textures == Map::<u32, Texture>::empty(),
            cache@.next_handle == 0,
    {
        AssetCache { paths_cache: Vec::new(), next_texture_handle: 0, textures: HashMap::new() }
    }

    /// The texture registered under `handle`, or `UnknownHandle`.
    pub fn get_texture(&self, handle: &Asset<Texture>) -> (found: Result<&Texture, Error>)
        ensures
            self@.textures.contains_key(handle@) ==> found == Ok::<&Texture, Error>(
                &self@.textures[handle@],
            ),
            !self@.textures.contains_key(handle@) ==> found == Err::<&Texture, Error>(
                Error::UnknownHandle { handle: handle@ },
            ),
    {
        match self.textures.get(&handle.0) {
            Some(texture) => Ok(texture),
            None => Err(Error::UnknownHandle { handle: handle.0 }),
        }
    }

    /// Loads the texture of the source `name`, once, and returns its handle.
    pub fn load_texture(&mut self, gl: &mut CommandBuffer, name: String) -> (result: Result<
        Asset<Texture>,
        Error,
    >)
        requires
            old(self).wf(),
        ensures
            final(self).wf(),
            final(self)@ == load(old(self)@, old(gl)@, name).cache,
            final(gl)@ == load(old(self)@, old(gl)@, name).gl,
            handle_id(result) == load(old(self)@, old(gl)@, name).result,
    {
        let ghost paths = self@.paths;
        let mut i: usize = 0;
        while i < self.paths_cache.len()
            invariant
                i <= self.paths_cache.len(),
                *self == *old(self),
                paths == self@.paths,
                self.wf(),
                forall|j: int| 0 <= j < i ==> paths[j] != name@,
            decreases self.paths_cache.len() - i,
        {
            if self.paths_cache[i] == name {
                assert(paths[i as int] == name@);
                return Ok(Asset::new(i as u32));
            }
            i += 1;
        }
        if self.next_texture_handle == u32::MAX {
            return Err(Error::ResourceExhausted);
        }
        match gl.reserve(1) {
            None => Err(Error::ResourceExhausted),
            Some(texture) => {
                gl.record(Command::CreateTexture { texture });
                gl.record(Command::LoadImage { texture, source: name.clone() });
                let handle = self.next_texture_handle;
                self.paths_cache.push(name);
                self.textures.insert(handle, Texture { texture });
                self.next_texture_handle = handle + 1;
                assert(self@.paths =~= paths.push(name@));
                Ok(Asset::new(handle))
            },
        }
    }
}

} // verus!
