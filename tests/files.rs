use enoki2d::files::{dropped_file_kind, DroppedFile};

#[test]
fn effect_files_by_suffix() {
    assert_eq!(dropped_file_kind("/tmp/fire.particle.ron"), DroppedFile::Effect);
    assert_eq!(dropped_file_kind(".particle.ron"), DroppedFile::Effect);
    assert_eq!(dropped_file_kind("C:\\fx\\smoke.particle.ron"), DroppedFile::Effect);
}

#[test]
fn other_files_are_textures() {
    assert_eq!(dropped_file_kind("/tmp/spark.png"), DroppedFile::Texture);
    assert_eq!(dropped_file_kind("fire.ron"), DroppedFile::Texture);
    assert_eq!(dropped_file_kind("particle.ron"), DroppedFile::Texture);
    assert_eq!(dropped_file_kind("fire.particle.ron.bak"), DroppedFile::Texture);
    assert_eq!(dropped_file_kind(""), DroppedFile::Texture);
}
