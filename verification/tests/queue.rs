use irid::plan_texture_write;
use irid::LoadedTexture;
use irid::QueueError;
use irid::TextureMetadataCache;

fn cache() -> TextureMetadataCache {
    TextureMetadataCache::new(8192)
}

#[test]
fn plan_places_texture_at_its_logarithmic_slot() {
    let texture = LoadedTexture {
        width: 512,
        height: 128,
        rgba_bytes: Some(vec![7u8; 4 * 512 * 128]),
        path: String::from("bricks.png"),
    };
    let plan = plan_texture_write(&cache(), &texture).unwrap();
    assert_eq!(plan.width_exp, 9);
    assert_eq!(plan.height_exp, 7);
    assert_eq!(plan.entry.width, 512);
    assert_eq!(plan.entry.height, 128);
    assert_eq!(plan.entry.bytes_per_row, 2048);
    assert_eq!(plan.entry.rows_per_image, 128);
}

#[test]
fn plan_fails_without_rgba_bytes() {
    let texture = LoadedTexture {
        width: 256,
        height: 256,
        rgba_bytes: None,
        path: String::from("bricks.png"),
    };
    match plan_texture_write(&cache(), &texture) {
        Err(QueueError::RgbaTextureNoneBytes { path }) => assert_eq!(path, "bricks.png"),
        other => panic!("expected the missing-bytes error, found {:?}", other),
    }
}

#[test]
fn plan_fails_on_truncated_rgba_bytes() {
    // Bytes that do not cover the pixels cannot be uploaded.
    let texture = LoadedTexture {
        width: 256,
        height: 256,
        rgba_bytes: Some(vec![0u8; 1000]),
        path: String::from("torn.png"),
    };
    assert!(matches!(
        plan_texture_write(&cache(), &texture),
        Err(QueueError::RgbaTextureNoneBytes { .. })
    ));
}

#[test]
fn plan_fails_on_unsupported_size_before_checking_bytes() {
    let texture = LoadedTexture {
        width: 300,
        height: 200,
        rgba_bytes: None,
        path: String::from("odd.png"),
    };
    match plan_texture_write(&cache(), &texture) {
        Err(QueueError::UnsupportedSize { width, height }) => {
            assert_eq!(width, 300);
            assert_eq!(height, 200);
        }
        other => panic!("expected the unsupported-size error, found {:?}", other),
    }
}
