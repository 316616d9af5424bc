use irid::TextureCacheError;
use irid::TextureMetadataCache;
use irid::COPY_BYTES_PER_ROW_ALIGNMENT;

#[test]
fn cache_covers_every_power_of_two_pair() {
    let cache = TextureMetadataCache::new(8192);
    assert_eq!(cache.max_exponent(), 13);
    let mut width: u32 = 1;
    for _w in 0..=13u32 {
        let mut height: u32 = 1;
        for _h in 0..=13u32 {
            let entry = cache.get_or_fail(width, height).unwrap();
            assert_eq!(entry.width, width);
            assert_eq!(entry.height, height);
            assert!(entry.width > 0 && entry.height > 0);
            assert_eq!(entry.rows_per_image, height);
            assert_eq!(entry.bytes_per_row % COPY_BYTES_PER_ROW_ALIGNMENT, 0);
            assert!(entry.bytes_per_row >= 4 * width);
            height *= 2;
        }
        width *= 2;
    }
}

#[test]
fn cache_lookup_is_stable_across_calls() {
    let cache = TextureMetadataCache::new(8192);
    let first = cache.get_or_fail(256, 256).unwrap();
    let second = cache.get_or_fail(256, 256).unwrap();
    assert_eq!(first, second);
    assert_eq!(first.width, 256);
    assert_eq!(first.height, 256);
}

#[test]
fn cache_entry_byte_layout_is_aligned() {
    let cache = TextureMetadataCache::new(8192);
    // A row of one RGBA8 pixel still occupies a whole aligned stride.
    assert_eq!(cache.get_or_fail(1, 1).unwrap().bytes_per_row, 256);
    // 64 pixels: 256 bytes exactly.
    assert_eq!(cache.get_or_fail(64, 1).unwrap().bytes_per_row, 256);
    // 256 pixels: 1024 bytes, already aligned.
    assert_eq!(cache.get_or_fail(256, 256).unwrap().bytes_per_row, 1024);
    // The largest slot.
    assert_eq!(cache.get_or_fail(8192, 8192).unwrap().bytes_per_row, 32768);
}

#[test]
fn cache_rejects_non_power_of_two_sizes() {
    let cache = TextureMetadataCache::new(8192);
    assert_eq!(cache.get_or_fail(100, 256), Err(TextureCacheError::UnsupportedSize));
    assert_eq!(cache.get_or_fail(256, 100), Err(TextureCacheError::UnsupportedSize));
    assert_eq!(cache.get_or_fail(3, 3), Err(TextureCacheError::UnsupportedSize));
    assert_eq!(cache.get_or_fail(0, 256), Err(TextureCacheError::UnsupportedSize));
    assert_eq!(cache.get_or_fail(0, 0), Err(TextureCacheError::UnsupportedSize));
}

#[test]
fn cache_rejects_sizes_past_the_bound() {
    let cache = TextureMetadataCache::new(8192);
    assert_eq!(cache.get_or_fail(16384, 256), Err(TextureCacheError::UnsupportedSize));
    assert_eq!(cache.get_or_fail(256, 16384), Err(TextureCacheError::UnsupportedSize));
    assert_eq!(cache.get_or_fail(16384, 16384), Err(TextureCacheError::UnsupportedSize));
}

#[test]
fn cache_bound_follows_max_dimension() {
    assert_eq!(TextureMetadataCache::new(1).max_exponent(), 0);
    assert_eq!(TextureMetadataCache::new(2).max_exponent(), 1);
    assert_eq!(TextureMetadataCache::new(256).max_exponent(), 8);
    // A bound that is not a power of two is rounded up.
    assert_eq!(TextureMetadataCache::new(5000).max_exponent(), 13);
    let small = TextureMetadataCache::new(256);
    assert!(small.get_or_fail(256, 256).is_ok());
    assert_eq!(small.get_or_fail(512, 256), Err(TextureCacheError::UnsupportedSize));
}
