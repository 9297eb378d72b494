use miniquad::cache::GlCache;
use miniquad::call::GlCall;
use miniquad::gl::{GL_ARRAY_BUFFER, GL_ELEMENT_ARRAY_BUFFER, GL_TEXTURE_2D};

#[test]
fn a_bound_buffer_is_not_bound_again() {
    let mut cache = GlCache::new();
    let mut calls = Vec::new();
    cache.bind_buffer(GL_ARRAY_BUFFER, 7, &mut calls);
    cache.bind_buffer(GL_ARRAY_BUFFER, 7, &mut calls);
    cache.bind_buffer(GL_ELEMENT_ARRAY_BUFFER, 7, &mut calls);
    assert_eq!(
        calls,
        vec![
            GlCall::BindBuffer { target: GL_ARRAY_BUFFER, buffer: 7 },
            GlCall::BindBuffer { target: GL_ELEMENT_ARRAY_BUFFER, buffer: 7 },
        ]
    );
    assert_eq!(cache.vertex_buffer, 7);
    assert_eq!(cache.index_buffer, 7);
}

#[test]
fn a_fresh_cache_has_nothing_bound() {
    let mut cache = GlCache::new();
    let mut calls = Vec::new();
    cache.bind_buffer(GL_ARRAY_BUFFER, 0, &mut calls);
    cache.bind_buffer(GL_ELEMENT_ARRAY_BUFFER, 0, &mut calls);
    cache.clear_buffer_bindings(&mut calls);
    cache.clear_texture_bindings(&mut calls);
    assert!(calls.is_empty());
    assert!(cache.cur_pipeline.is_none());
    assert_eq!(cache.color_write, (true, true, true, true));
}

#[test]
fn a_stored_binding_comes_back() {
    for target in [GL_ARRAY_BUFFER, GL_ELEMENT_ARRAY_BUFFER] {
        let mut cache = GlCache::new();
        let mut calls = Vec::new();
        cache.bind_buffer(target, 3, &mut calls);
        cache.store_buffer_binding(target);
        cache.bind_buffer(target, 9, &mut calls);
        calls.clear();
        cache.restore_buffer_binding(target, &mut calls);
        assert_eq!(calls, vec![GlCall::BindBuffer { target, buffer: 3 }]);
        cache.restore_buffer_binding(target, &mut calls);
        assert_eq!(calls.len(), 1);
    }
}

#[test]
fn a_texture_slot_is_activated_in_any_case() {
    let mut cache = GlCache::new();
    let mut calls = Vec::new();
    cache.bind_texture(2, 5, &mut calls);
    cache.bind_texture(2, 5, &mut calls);
    assert_eq!(
        calls,
        vec![
            GlCall::ActiveTexture { unit: 0x84C2 },
            GlCall::BindTexture { target: GL_TEXTURE_2D, texture: 5 },
            GlCall::ActiveTexture { unit: 0x84C2 },
        ]
    );
    assert_eq!(cache.textures[2], 5);
}

#[test]
fn a_stored_texture_comes_back() {
    let mut cache = GlCache::new();
    let mut calls = Vec::new();
    cache.bind_texture(0, 5, &mut calls);
    cache.store_texture_binding(0);
    cache.bind_texture(0, 6, &mut calls);
    calls.clear();
    cache.restore_texture_binding(0, &mut calls);
    assert_eq!(
        calls,
        vec![
            GlCall::ActiveTexture { unit: 0x84C0 },
            GlCall::BindTexture { target: GL_TEXTURE_2D, texture: 5 },
        ]
    );
    assert_eq!(cache.textures[0], 5);
}

#[test]
fn clearing_unbinds_what_is_bound() {
    let mut cache = GlCache::new();
    let mut calls = Vec::new();
    cache.bind_buffer(GL_ELEMENT_ARRAY_BUFFER, 4, &mut calls);
    cache.bind_texture(11, 8, &mut calls);
    cache.bind_texture(1, 9, &mut calls);
    calls.clear();
    cache.clear_buffer_bindings(&mut calls);
    cache.clear_texture_bindings(&mut calls);
    assert_eq!(
        calls,
        vec![
            GlCall::BindBuffer { target: GL_ELEMENT_ARRAY_BUFFER, buffer: 0 },
            GlCall::ActiveTexture { unit: 0x84C1 },
            GlCall::BindTexture { target: GL_TEXTURE_2D, texture: 0 },
            GlCall::ActiveTexture { unit: 0x84CB },
            GlCall::BindTexture { target: GL_TEXTURE_2D, texture: 0 },
        ]
    );
    assert_eq!(cache.textures, [0; 12]);
}
