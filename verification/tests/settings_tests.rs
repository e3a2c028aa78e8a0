use sinus::settings::Settings;
use sinus::shapes::Shape;

fn texts(v: &Vec<Vec<char>>) -> Vec<String> {
    v.iter().map(|c| c.iter().collect()).collect()
}

const FALLBACK: &str = "\
# WeAct H750 -- osiloskop XY sekil cizici
# shape: ellipse|circle|figure8|heart|star|rose|butterfly|spiral|gear
shape     = heart
amplitude = 0.85
offset    = 0.5
frame_hz  = 60
";

#[test]
fn fallback_text_draws_the_heart() {
    let s = Settings::parse(FALLBACK);
    assert_eq!(s.shape, Shape::Heart);
    assert_eq!(texts(&s.amplitude), vec!["0.85"]);
    assert_eq!(texts(&s.offset), vec!["0.5"]);
    assert_eq!(texts(&s.frame_hz), vec!["60"]);
}

#[test]
fn empty_text_gives_defaults() {
    let s = Settings::parse("");
    assert_eq!(s.shape, Shape::Heart);
    assert!(s.amplitude.is_empty());
    assert!(s.offset.is_empty());
    assert!(s.frame_hz.is_empty());
    let d = Settings::default();
    assert_eq!(d.shape, Shape::Heart);
    assert!(d.frame_hz.is_empty());
}

#[test]
fn comments_and_spaces_are_ignored() {
    let s = Settings::parse(
        "shape     = star        # ellipse|circle|figure8|heart|star|rose|butterfly|spiral\n  amplitude=0.3#x\n",
    );
    assert_eq!(s.shape, Shape::Star);
    assert_eq!(texts(&s.amplitude), vec!["0.3"]);
}

#[test]
fn crlf_lines_are_read() {
    let s = Settings::parse("shape = rose\r\noffset = 0.25\r\n");
    assert_eq!(s.shape, Shape::Rose);
    assert_eq!(texts(&s.offset), vec!["0.25"]);
}

#[test]
fn unicode_white_space_is_trimmed() {
    let s = Settings::parse("\u{a0}shape\u{3000}=\u{2003}kelebek\u{85}");
    assert_eq!(s.shape, Shape::Butterfly);
}

#[test]
fn broken_and_unknown_lines_are_skipped() {
    let s = Settings::parse("garbage line\n=\ncolour = red\n# shape = star\nshape = gear\n");
    assert_eq!(s.shape, Shape::Heart);
    assert!(s.amplitude.is_empty());
}

#[test]
fn later_lines_override_earlier_ones() {
    let s = Settings::parse("shape = star\nshape = spiral\nshape = nonsense\n");
    assert_eq!(s.shape, Shape::Spiral);
    let s = Settings::parse("amplitude = 0.1\namplitude = abc\namplitude = 0.9");
    assert_eq!(texts(&s.amplitude), vec!["0.1", "abc", "0.9"]);
}

#[test]
fn value_is_split_at_first_equals() {
    let s = Settings::parse("frame_hz = 50 = 60\n");
    assert_eq!(texts(&s.frame_hz), vec!["50 = 60"]);
    let s = Settings::parse("offset =\n");
    assert_eq!(texts(&s.offset), vec![""]);
}

#[test]
fn keys_are_case_sensitive() {
    let s = Settings::parse("Shape = star\nAMPLITUDE = 1\n");
    assert_eq!(s.shape, Shape::Heart);
    assert!(s.amplitude.is_empty());
}

#[test]
fn parse_bytes_decodes_utf8() {
    let s = Settings::parse_bytes("shape = figure8\nframe_hz = 120\n".as_bytes());
    assert_eq!(s.shape, Shape::Figure8);
    assert_eq!(texts(&s.frame_hz), vec!["120"]);
    let s = Settings::parse_bytes("shape = \u{e7}i\u{e7}ek\nshape = gul".as_bytes());
    assert_eq!(s.shape, Shape::Rose);
}

#[test]
fn parse_bytes_rejects_invalid_utf8() {
    let mut bytes = b"shape = star\n".to_vec();
    bytes.push(0xff);
    let s = Settings::parse_bytes(&bytes);
    assert_eq!(s.shape, Shape::Heart);
    assert!(s.amplitude.is_empty());
    let s = Settings::parse_bytes(&[b's', 0xc3]);
    assert_eq!(s.shape, Shape::Heart);
}

#[test]
fn parse_chars_matches_parse() {
    let text = "shape = circle\noffset = 0.7";
    let chars: Vec<char> = text.chars().collect();
    let a = Settings::parse_chars(&chars);
    let b = Settings::parse(text);
    assert_eq!(a.shape, b.shape);
    assert_eq!(a.shape, Shape::Circle);
    assert_eq!(texts(&a.offset), texts(&b.offset));
}
