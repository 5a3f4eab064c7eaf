use sprite_render::asset::{Asset, AssetCache, Texture};
use sprite_render::error::Error;
use sprite_render::gl::{Command, CommandBuffer};
use std::collections::HashSet;

fn path(text: &str) -> String {
    String::from(text)
}

#[test]
fn new_cache_resolves_nothing() {
    let cache = AssetCache::new();
    assert_eq!(
        cache.get_texture(&Asset::new(0)),
        Err(Error::UnknownHandle { handle: 0 })
    );
}

#[test]
fn handles_count_up_from_zero() {
    let mut gl = CommandBuffer::new(16);
    let mut cache = AssetCache::new();
    assert_eq!(cache.load_texture(&mut gl, path("a.png")), Ok(Asset::new(0)));
    assert_eq!(cache.load_texture(&mut gl, path("b.png")), Ok(Asset::new(1)));
    assert_eq!(cache.load_texture(&mut gl, path("c.png")), Ok(Asset::new(2)));
}

#[test]
fn second_load_of_a_path_returns_its_handle() {
    let mut gl = CommandBuffer::new(16);
    let mut cache = AssetCache::new();
    assert_eq!(cache.load_texture(&mut gl, path("a.png")), Ok(Asset::new(0)));
    assert_eq!(cache.load_texture(&mut gl, path("b.png")), Ok(Asset::new(1)));
    assert_eq!(cache.load_texture(&mut gl, path("a.png")), Ok(Asset::new(0)));
    assert_eq!(cache.load_texture(&mut gl, path("b.png")), Ok(Asset::new(1)));
    assert_eq!(cache.load_texture(&mut gl, path("c.png")), Ok(Asset::new(2)));
}

#[test]
fn loading_twice_allocates_once() {
    let mut gl = CommandBuffer::new(16);
    let mut cache = AssetCache::new();
    cache.load_texture(&mut gl, path("a.png")).unwrap();
    cache.load_texture(&mut gl, path("a.png")).unwrap();
    assert_eq!(
        gl.take_commands(),
        vec![
            Command::CreateTexture { texture: 0 },
            Command::LoadImage { texture: 0, source: path("a.png") },
        ]
    );
    assert_eq!(gl.remaining(), 15);
}

#[test]
fn second_load_records_nothing() {
    let mut gl = CommandBuffer::new(16);
    let mut cache = AssetCache::new();
    cache.load_texture(&mut gl, path("a.png")).unwrap();
    gl.take_commands();
    cache.load_texture(&mut gl, path("a.png")).unwrap();
    assert_eq!(gl.take_commands(), vec![]);
}

#[test]
fn distinct_paths_get_distinct_handles() {
    let mut gl = CommandBuffer::new(16);
    let mut cache = AssetCache::new();
    let first = cache.load_texture(&mut gl, path("left.png")).unwrap();
    let second = cache.load_texture(&mut gl, path("right.png")).unwrap();
    assert_ne!(first, second);
    assert_ne!(first.id(), second.id());
    assert_ne!(
        cache.get_texture(&first).unwrap(),
        cache.get_texture(&second).unwrap()
    );
}

#[test]
fn paths_differing_in_case_are_distinct() {
    let mut gl = CommandBuffer::new(16);
    let mut cache = AssetCache::new();
    assert_eq!(cache.load_texture(&mut gl, path("a.png")), Ok(Asset::new(0)));
    assert_eq!(cache.load_texture(&mut gl, path("A.png")), Ok(Asset::new(1)));
    assert_eq!(cache.load_texture(&mut gl, path("")), Ok(Asset::new(2)));
    assert_eq!(cache.load_texture(&mut gl, path("")), Ok(Asset::new(2)));
}

#[test]
fn loaded_handle_resolves_to_its_texture() {
    let mut gl = CommandBuffer::new(16);
    let mut cache = AssetCache::new();
    let first = cache.load_texture(&mut gl, path("a.png")).unwrap();
    let second = cache.load_texture(&mut gl, path("b.png")).unwrap();
    assert_eq!(cache.get_texture(&first), Ok(&Texture { texture: 0 }));
    assert_eq!(cache.get_texture(&second), Ok(&Texture { texture: 1 }));
    cache.load_texture(&mut gl, path("c.png")).unwrap();
    assert_eq!(cache.get_texture(&first), Ok(&Texture { texture: 0 }));
}

#[test]
fn texture_names_follow_the_command_buffer() {
    let mut gl = CommandBuffer::new(16);
    assert_eq!(gl.reserve(3), Some(0));
    let mut cache = AssetCache::new();
    let handle = cache.load_texture(&mut gl, path("a.png")).unwrap();
    assert_eq!(handle, Asset::new(0));
    assert_eq!(cache.get_texture(&handle), Ok(&Texture { texture: 3 }));
    assert_eq!(
        gl.take_commands(),
        vec![
            Command::CreateTexture { texture: 3 },
            Command::LoadImage { texture: 3, source: path("a.png") },
        ]
    );
}

#[test]
fn unregistered_handle_is_unknown() {
    let mut gl = CommandBuffer::new(16);
    let mut cache = AssetCache::new();
    cache.load_texture(&mut gl, path("a.png")).unwrap();
    assert_eq!(
        cache.get_texture(&Asset::new(1)),
        Err(Error::UnknownHandle { handle: 1 })
    );
    assert_eq!(
        cache.get_texture(&Asset::new(u32::MAX)),
        Err(Error::UnknownHandle { handle: u32::MAX })
    );
}

#[test]
fn load_fails_when_no_name_is_left() {
    let mut gl = CommandBuffer::new(1);
    let mut cache = AssetCache::new();
    assert_eq!(cache.load_texture(&mut gl, path("a.png")), Ok(Asset::new(0)));
    gl.take_commands();
    assert_eq!(
        cache.load_texture(&mut gl, path("b.png")),
        Err(Error::ResourceExhausted)
    );
    assert_eq!(gl.take_commands(), vec![]);
    assert_eq!(
        cache.get_texture(&Asset::new(1)),
        Err(Error::UnknownHandle { handle: 1 })
    );
    assert_eq!(cache.load_texture(&mut gl, path("a.png")), Ok(Asset::new(0)));
}

#[test]
fn failed_load_leaves_no_entry_behind() {
    let mut empty = CommandBuffer::new(0);
    let mut cache = AssetCache::new();
    assert_eq!(
        cache.load_texture(&mut empty, path("a.png")),
        Err(Error::ResourceExhausted)
    );
    let mut gl = CommandBuffer::new(4);
    assert_eq!(cache.load_texture(&mut gl, path("b.png")), Ok(Asset::new(0)));
    assert_eq!(cache.load_texture(&mut gl, path("a.png")), Ok(Asset::new(1)));
    assert_eq!(
        gl.take_commands(),
        vec![
            Command::CreateTexture { texture: 0 },
            Command::LoadImage { texture: 0, source: path("b.png") },
            Command::CreateTexture { texture: 1 },
            Command::LoadImage { texture: 1, source: path("a.png") },
        ]
    );
}

#[test]
fn source_is_passed_on_unchanged() {
    let url = "https://example.org/photo?ixlib=rb-1.2.1&w=687&q=80";
    let mut gl = CommandBuffer::new(16);
    let mut cache = AssetCache::new();
    cache.load_texture(&mut gl, path(url)).unwrap();
    assert_eq!(
        gl.take_commands(),
        vec![
            Command::CreateTexture { texture: 0 },
            Command::LoadImage { texture: 0, source: path(url) },
        ]
    );
}

#[test]
fn handles_compare_by_integer() {
    let three: Asset<Texture> = Asset::new(3);
    assert_eq!(three.id(), 3);
    assert_eq!(three, Asset::new(3));
    assert_ne!(three, Asset::new(4));
    let copy = three;
    assert_eq!(copy, three);
    assert_eq!(three.clone().id(), 3);
}

#[test]
fn handles_hash_by_integer() {
    let mut seen: HashSet<Asset<Texture>> = HashSet::new();
    assert!(seen.insert(Asset::new(1)));
    assert!(seen.insert(Asset::new(2)));
    assert!(!seen.insert(Asset::new(1)));
    assert_eq!(seen.len(), 2);
    assert!(seen.contains(&Asset::new(2)));
    assert!(!seen.contains(&Asset::new(0)));
}
