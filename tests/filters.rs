use hevc_watch::filters::{
    needs_probe, passes_all, MinimumSizeFilter, NotFilter, PathExtensionFilter, PathFacts,
    PathFilter, Predicate, VideoCodecFilter,
};
use hevc_watch::probe::AVProbeMetadata;

fn meta(codec: &str, tag: &str) -> AVProbeMetadata {
    AVProbeMetadata {
        video_codec: String::from(codec),
        video_codec_tag: String::from(tag),
        width: 1920,
        height: 1080,
    }
}

fn facts(path: &str, size: Option<u64>, probe: Option<AVProbeMetadata>) -> PathFacts {
    PathFacts { path: String::from(path), size, probe }
}

fn not_hevc() -> Predicate {
    Predicate::Not(NotFilter::new(Box::new(Predicate::VideoCodec(VideoCodecFilter::new(
        "hevc", "hvc1",
    )))))
}

#[test]
fn extension_filter_is_exact_and_case_sensitive() {
    let f = PathExtensionFilter::new("mkv");
    assert!(f.filter(&facts("a/b.mkv", None, None)));
    assert!(!f.filter(&facts("a/b.MKV", None, None)));
    assert!(!f.filter(&facts("a/b.mkv.part", None, None)));
    assert!(!f.filter(&facts("a/mkv", None, None)));
    assert!(!f.filter(&facts("a/.mkv", None, None)));
}

#[test]
fn minimum_size_filter_threshold_and_unreadable() {
    let f = MinimumSizeFilter::new(100);
    assert!(f.filter(&facts("a", Some(100), None)));
    assert!(f.filter(&facts("a", Some(101), None)));
    assert!(!f.filter(&facts("a", Some(99), None)));
    assert!(!f.filter(&facts("a", None, None)));
    assert!(MinimumSizeFilter::new(0).filter(&facts("a", Some(0), None)));
}

#[test]
fn codec_filter_needs_name_and_tag() {
    let f = VideoCodecFilter::new("hevc", "hvc1");
    assert!(f.filter(&facts("a", None, Some(meta("hevc", "hvc1")))));
    assert!(!f.filter(&facts("a", None, Some(meta("hevc", "hev1")))));
    assert!(!f.filter(&facts("a", None, Some(meta("h264", "hvc1")))));
    assert!(!f.filter(&facts("a", None, None)));
}

#[test]
fn not_filter_inverts() {
    let cases = [
        facts("a", None, Some(meta("hevc", "hvc1"))),
        facts("a", None, Some(meta("h264", "avc1"))),
        facts("a", None, None),
    ];
    for c in cases.iter() {
        let inner = Predicate::VideoCodec(VideoCodecFilter::new("hevc", "hvc1"));
        let expected = !inner.evaluate(c);
        let n = NotFilter::new(Box::new(inner));
        assert_eq!(n.filter(c), expected);
        assert_eq!(Predicate::Not(n).evaluate(c), expected);
    }
}

#[test]
fn double_negation_restores() {
    let p = Predicate::Not(NotFilter::new(Box::new(not_hevc())));
    assert!(p.evaluate(&facts("a", None, Some(meta("hevc", "hvc1")))));
    assert!(!p.evaluate(&facts("a", None, None)));
}

#[test]
fn chain_fails_when_any_predicate_fails() {
    let chain = vec![
        Predicate::Extension(PathExtensionFilter::new("mkv")),
        Predicate::MinimumSize(MinimumSizeFilter::new(10)),
        not_hevc(),
    ];
    assert!(passes_all(&chain, &facts("m.mkv", Some(10), Some(meta("h264", "avc1")))));
    assert!(!passes_all(&chain, &facts("m.avi", Some(10), Some(meta("h264", "avc1")))));
    assert!(!passes_all(&chain, &facts("m.mkv", Some(9), Some(meta("h264", "avc1")))));
    assert!(!passes_all(&chain, &facts("m.mkv", Some(10), Some(meta("hevc", "hvc1")))));
    assert!(!passes_all(&chain, &facts("m.mkv", None, Some(meta("h264", "avc1")))));
}

#[test]
fn empty_chain_passes() {
    assert!(passes_all(&Vec::new(), &facts("anything", None, None)));
}

#[test]
fn probe_needed_only_when_it_decides() {
    let chain = vec![Predicate::Extension(PathExtensionFilter::new("mkv")), not_hevc()];
    assert!(needs_probe(&chain, &facts("m.mkv", None, None)));
    assert!(!needs_probe(&chain, &facts("m.mp4", None, None)));
    let no_probe = vec![Predicate::Extension(PathExtensionFilter::new("mkv"))];
    assert!(!needs_probe(&no_probe, &facts("m.mkv", None, None)));
    assert!(!needs_probe(&Vec::new(), &facts("m.mkv", None, None)));
}

#[test]
fn predicate_trait_matches_evaluate() {
    let p = not_hevc();
    let f = facts("a", None, Some(meta("h264", "avc1")));
    assert_eq!(p.filter(&f), p.evaluate(&f));
    assert!(p.uses_probe());
    assert!(!Predicate::MinimumSize(MinimumSizeFilter::new(1)).uses_probe());
}
