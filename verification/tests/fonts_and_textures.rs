use std::sync::Arc;
use bunny_manager::manager::font::{font_file_stem, FontData, Fonts};
use bunny_manager::manager::texture::{ImageLoad, LoadEntry, LoadProgress, TextureLoader};

#[test]
fn font_files() {
    assert_eq!(font_file_stem("NotoSans.TTF"), Some("NotoSans".to_string()));
    assert_eq!(font_file_stem("mono.otf"), Some("mono".to_string()));
    assert_eq!(font_file_stem("mono.woff"), None);
    assert_eq!(font_file_stem(".ttf"), None);
}

#[test]
fn font_names_in_order() {
    let mut f = Fonts::new();
    f.push(FontData { name: "b".to_string(), data: vec![1] });
    f.push(FontData { name: "a".to_string(), data: vec![] });
    assert_eq!(f.names(), vec!["b", "a"]);
    let ctx = egui::Context::default();
    f.add_all(&ctx);
}

fn image() -> Arc<egui::ColorImage> {
    Arc::new(egui::ColorImage::filled([1, 1], egui::Color32::WHITE))
}

#[test]
fn entry_records_attempts() {
    let mut e = LoadEntry::new("cursor.png".to_string(), "/tex/cursor.png");
    assert_eq!(e.uri, "file:///tex/cursor.png");
    assert!(e.pending());
    e.record(ImageLoad::Pending);
    assert!(e.pending());
    e.record(ImageLoad::Ready(image()));
    assert_eq!(e.progress, LoadProgress::Done);
    assert!(e.data.is_some());
    let mut f = LoadEntry::new("bad.png".to_string(), "/tex/bad.png");
    f.record(ImageLoad::Failed);
    assert_eq!(f.progress, LoadProgress::Error);
    assert!(f.data.is_none());
}

#[test]
fn collect_takes_each_image_once() {
    let mut a = LoadEntry::new("a.png".to_string(), "/a.png");
    a.record(ImageLoad::Ready(image()));
    let mut b = LoadEntry::new("b.png".to_string(), "/b.png");
    b.record(ImageLoad::Failed);
    let mut loader = TextureLoader::new(vec![a, b]);
    let results = loader.collect();
    assert_eq!(results.len(), 1);
    assert_eq!(results[0].file_name, "a.png");
    assert_eq!(loader.entries[0].file_name, "");
    assert_eq!(loader.entries[1].file_name, "b.png");
    assert!(loader.collect().is_empty());
}

#[test]
fn load_all_without_image_loaders_fails_every_entry() {
    // A context with no image loaders installed refuses every image.
    let ctx = egui::Context::default();
    let mut loader = TextureLoader::new(vec![
        LoadEntry::new("a.png".to_string(), "/a.png"),
        LoadEntry::new("b.png".to_string(), "/b.png"),
    ]);
    let results = loader.load_all(&ctx).expect("every entry settles");
    assert!(results.is_empty());
    assert!(loader.entries.iter().all(|e| e.progress == LoadProgress::Error));
}
