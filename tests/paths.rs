use hevc_watch::paths::{destination_path, extension, file_stem, working_path};

#[test]
fn derived_paths_for_hvc1_suffix() {
    assert_eq!(working_path("a/b.mkv", "hvc1.mp4"), "a/.b.hvc1.mp4");
    assert_eq!(destination_path("a/b.mkv", "hvc1.mp4"), "a/b.hvc1.mp4");
}

#[test]
fn derived_paths_are_deterministic() {
    assert_eq!(working_path("a/b.mkv", "hvc1.mp4"), working_path("a/b.mkv", "hvc1.mp4"));
    assert_eq!(destination_path("a/b.mkv", "hvc1.mp4"), destination_path("a/b.mkv", "hvc1.mp4"));
}

#[test]
fn derived_paths_without_directory() {
    assert_eq!(working_path("movie.mkv", "hvc1.mp4"), ".movie.hvc1.mp4");
    assert_eq!(destination_path("movie.mkv", "hvc1.mp4"), "movie.hvc1.mp4");
}

#[test]
fn derived_paths_without_extension() {
    assert_eq!(working_path("/x/y/movie", "hvc1.mp4"), "/x/y/.movie.hvc1.mp4");
    assert_eq!(destination_path("/x/y/movie", "hvc1.mp4"), "/x/y/movie.hvc1.mp4");
}

#[test]
fn derived_paths_keep_inner_dots_of_stem() {
    assert_eq!(destination_path("d.e/b.c.mkv", "hvc1.mp4"), "d.e/b.c.hvc1.mp4");
    assert_eq!(working_path("d.e/b.c.mkv", "hvc1.mp4"), "d.e/.b.c.hvc1.mp4");
}

#[test]
fn derived_paths_of_hidden_file() {
    assert_eq!(destination_path("a/.b", "hvc1.mp4"), "a/.b.hvc1.mp4");
    assert_eq!(working_path("a/.b", "hvc1.mp4"), "a/..b.hvc1.mp4");
}

#[test]
fn distinct_sources_get_distinct_paths() {
    assert_ne!(destination_path("a/b.mkv", "hvc1.mp4"), destination_path("a/c.mkv", "hvc1.mp4"));
    assert_ne!(working_path("a/b.mkv", "hvc1.mp4"), working_path("x/b.mkv", "hvc1.mp4"));
    assert_ne!(working_path("a/b.mkv", "hvc1.mp4"), destination_path("a/b.mkv", "hvc1.mp4"));
}

#[test]
fn extension_and_stem_of_paths() {
    assert_eq!(extension("a/b.mkv"), Some(String::from("mkv")));
    assert_eq!(extension("a.d/b"), None);
    assert_eq!(extension("a/.mkv"), None);
    assert_eq!(extension("a/b."), Some(String::new()));
    assert_eq!(extension("clip.hvc1.mp4"), Some(String::from("mp4")));
    assert_eq!(file_stem("a/b.mkv"), "b");
    assert_eq!(file_stem("a/.mkv"), ".mkv");
    assert_eq!(file_stem("clip.hvc1.mp4"), "clip.hvc1");
}

#[test]
fn non_ascii_paths() {
    assert_eq!(destination_path("vidéos/été.mkv", "hvc1.mp4"), "vidéos/été.hvc1.mp4");
    assert_eq!(working_path("vidéos/été.mkv", "hvc1.mp4"), "vidéos/.été.hvc1.mp4");
}
