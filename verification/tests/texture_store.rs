use manifold::context::SurfaceConfig;
use manifold::texture::TextureError;
use manifold::texture::TextureStore;

// A valid 1x1 RGBA PNG holding a single opaque red pixel.
fn red_pixel_png() -> Vec<u8> {
    vec![
        137, 80, 78, 71, 13, 10, 26, 10, 0, 0, 0, 13, 73, 72, 68, 82, 0, 0, 0, 1, 0, 0, 0, 1, 8,
        6, 0, 0, 0, 31, 21, 196, 137, 0, 0, 0, 13, 73, 68, 65, 84, 120, 156, 99, 248, 207, 192,
        240, 31, 0, 5, 0, 1, 255, 137, 153, 61, 29, 0, 0, 0, 0, 73, 69, 78, 68, 174, 66, 96, 130,
    ]
}

// A valid 2x1 RGBA PNG holding a red pixel and a green pixel.
fn red_green_png() -> Vec<u8> {
    vec![
        137, 80, 78, 71, 13, 10, 26, 10, 0, 0, 0, 13, 73, 72, 68, 82, 0, 0, 0, 2, 0, 0, 0, 1, 8,
        6, 0, 0, 0, 244, 34, 127, 138, 0, 0, 0, 14, 73, 68, 65, 84, 120, 156, 99, 248, 207, 192,
        240, 31, 4, 1, 16, 248, 3, 253, 78, 149, 193, 111, 0, 0, 0, 0, 73, 69, 78, 68, 174, 66,
        96, 130,
    ]
}

#[test]
fn new_store_is_empty_with_a_surface_sized_depth_buffer() {
    let config = SurfaceConfig::new(0, 800, 600, 0);
    let store = TextureStore::new(&config);
    assert_eq!(store.textures.len(), 0);
    assert_eq!(store.depth_texture.width, 800);
    assert_eq!(store.depth_texture.height, 600);
}

#[test]
fn depth_buffer_dimensions_are_at_least_one() {
    let config = SurfaceConfig::new(0, 0, 0, 0);
    let depth = TextureStore::create_depth_texture(&config);
    assert_eq!(depth.width, 1);
    assert_eq!(depth.height, 1);
}

#[test]
fn loading_decodes_the_image_and_issues_monotonic_handles() {
    let config = SurfaceConfig::new(0, 800, 600, 0);
    let mut store = TextureStore::new(&config);

    let first = store.load_texture_from_bytes(&red_pixel_png()).unwrap();
    assert_eq!(first.id, 0);
    assert_eq!((first.width, first.height), (1, 1));
    assert_eq!(first.rgba, vec![255, 0, 0, 255]);

    let second = store.load_texture_from_bytes(&red_green_png()).unwrap();
    assert_eq!(second.id, 1);
    assert_eq!((second.width, second.height), (2, 1));
    assert_eq!(second.rgba, vec![255, 0, 0, 255, 0, 255, 0, 255]);

    assert_eq!(store.textures.len(), 2);
    assert!(store.contains_texture(0));
    assert!(store.contains_texture(1));
    assert!(!store.contains_texture(2));
    let info = store.get_texture(1);
    assert_eq!((info.width, info.height), (2, 1));
}

#[test]
fn malformed_bytes_fail_with_a_decode_error_and_change_nothing() {
    let config = SurfaceConfig::new(0, 320, 200, 0);
    let mut store = TextureStore::new(&config);
    let result = store.load_texture_from_bytes(&vec![1, 2, 3, 4, 5]);
    assert_eq!(result.unwrap_err(), TextureError::Decode);
    assert_eq!(store.textures.len(), 0);
    assert_eq!(store.depth_texture.width, 320);
}
