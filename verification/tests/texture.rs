use sim2d::texture::{Source, TextureAtlas, TextureId};
use std::path::PathBuf;

#[test]
fn texture_ids() {
    assert_eq!(TextureId::no_texture().get_index(), -1);
    assert_eq!(TextureId::default(), TextureId::no_texture());
    assert_eq!(TextureId::from_raw(7).get_index(), 7);
    assert!(TextureId::from_raw(1) < TextureId::from_raw(2));
}

#[test]
fn atlas_reservations_get_sequential_ids() {
    let mut atlas: TextureAtlas<Vec<u8>> = TextureAtlas::default();
    let first = atlas.load_file(PathBuf::from("a.png"));
    let second = atlas.load_image(vec![1, 2, 3]);
    let third = atlas.load_file(PathBuf::from("b.png"));
    assert_eq!(first.get_index(), 0);
    assert_eq!(second.get_index(), 1);
    assert_eq!(third.get_index(), 2);
    assert_eq!(atlas.reserved_count(), 3);
    let sources = atlas.into_reservations();
    assert!(matches!(&sources[0], Source::FilePath(p) if p == &PathBuf::from("a.png")));
    assert!(matches!(&sources[1], Source::Image(img) if img == &vec![1, 2, 3]));
    assert!(matches!(&sources[2], Source::FilePath(p) if p == &PathBuf::from("b.png")));
}

#[test]
fn default_id_is_no_texture() {
    assert_eq!(TextureId::default(), TextureId::no_texture());
    assert_ne!(TextureId::from_raw(0), TextureId::no_texture());
}
