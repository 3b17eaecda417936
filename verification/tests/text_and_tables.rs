use niveluno::asset::default_filename;
use niveluno::big_buffer::BigBuffer;
use niveluno::error::NUError;
use niveluno::text_util::{parse_u32, parse_u8, split_commas, str_eq};

#[test]
fn error_messages_match_the_engine() {
    assert_eq!(NUError::ShaderLoadError.to_string(), "Error loading shader");
    assert_eq!(
        NUError::ShaderCompilationError("bad token".to_string()).to_string(),
        "Error compiling shader: bad token"
    );
    assert_eq!(NUError::NulError("nul byte".to_string()).to_string(), "Error nul byte");
    assert_eq!(NUError::Utf8Error("invalid utf-8".to_string()).to_string(), "invalid utf-8");
    assert_eq!(
        NUError::SDLError("no video".to_string()).to_string(),
        "Error initializing sdl2: no video"
    );
    assert_eq!(
        NUError::MiniPNGError("not a png file".to_string()).to_string(),
        "MiniPNG error: not a png file"
    );
    assert_eq!(NUError::misc("oops").to_string(), "Miscellaneous error: oops");
    assert_eq!(NUError::misc("oops"), NUError::MiscError("oops".to_string()));
}

#[test]
fn strings_compare_by_characters() {
    assert!(str_eq("floor", "floor"));
    assert!(!str_eq("floor", "floors"));
    assert!(!str_eq("floor", "Floor"));
    assert!(str_eq("", ""));
}

#[test]
fn split_at_commas_like_str_split() {
    assert_eq!(split_commas("1,128,255,255"), vec!["1", "128", "255", "255"]);
    assert_eq!(split_commas(""), vec![""]);
    assert_eq!(split_commas("a,,b,"), vec!["a", "", "b", ""]);
    assert_eq!(split_commas("no commas"), vec!["no commas"]);
}

#[test]
fn unsigned_parsing_follows_from_str() {
    assert_eq!(parse_u8("0"), Some(0));
    assert_eq!(parse_u8("255"), Some(255));
    assert_eq!(parse_u8("+7"), Some(7));
    assert_eq!(parse_u8("007"), Some(7));
    assert_eq!(parse_u8("256"), None);
    assert_eq!(parse_u8(""), None);
    assert_eq!(parse_u8("+"), None);
    assert_eq!(parse_u8("-1"), None);
    assert_eq!(parse_u8(" 1"), None);
    assert_eq!(parse_u8("12a"), None);
    assert_eq!(parse_u32("4294967295"), Some(4294967295));
    assert_eq!(parse_u32("4294967296"), None);
    assert_eq!(parse_u32("42"), Some(42));
    for s in ["0", "9", "100", "65535", "+12", "x", "", "99999999999"] {
        assert_eq!(parse_u32(s), s.parse::<u32>().ok());
        assert_eq!(parse_u8(s), s.parse::<u8>().ok());
    }
}

#[test]
fn floats_are_stored_once() {
    let mut bb = BigBuffer::new();
    let one = 1.0f32.to_bits();
    let two = 2.0f32.to_bits();
    assert_eq!(bb.add_f32(one), 0);
    assert_eq!(bb.add_f32(two), 1);
    assert_eq!(bb.add_f32(one), 0);
    assert_eq!(bb.get_f32_data(), &vec![one, two]);
    assert_eq!(bb.get_f32(1), Some(two));
    assert_eq!(bb.get_f32(2), None);
    // +0.0 and -0.0 differ in their bits, so both are kept
    assert_eq!(bb.add_f32(0.0f32.to_bits()), 2);
    assert_eq!(bb.add_f32((-0.0f32).to_bits()), 3);
}

#[test]
fn images_are_stored_once() {
    let mut bb = BigBuffer::new();
    assert_eq!(bb.add_image(vec![1, 2, 3]), 0);
    assert_eq!(bb.add_image(vec![4]), 1);
    assert_eq!(bb.add_image(vec![1, 2, 3]), 0);
    assert_eq!(bb.add_image(vec![]), 2);
    assert_eq!(bb.get_img_data().len(), 3);
}

#[test]
fn parameter_strings_are_interned() {
    let mut bb = BigBuffer::new();
    assert_eq!(bb.add_kv_string("color"), 0);
    assert_eq!(bb.add_kv_string("1,2,3,4"), 1);
    // interning the same string twice gives the same position
    assert_eq!(bb.add_kv_string("color"), 0);
    // two different strings get different positions
    assert_eq!(bb.add_kv_string("orientation"), 2);
    assert_eq!(
        bb.get_kvs_data(),
        &vec!["color".to_string(), "1,2,3,4".to_string(), "orientation".to_string()]
    );
}

#[test]
fn names_are_added_once_and_found_again() {
    let mut bb = BigBuffer::new();
    assert_eq!(bb.add_decor_name("floor"), Ok(0));
    assert_eq!(bb.add_decor_name("table"), Ok(1));
    assert_eq!(bb.add_decor_name("floor"), Err(()));
    assert_eq!(bb.get_decor_index("table"), Some(1));
    assert_eq!(bb.get_decor_index("chair"), None);
    assert_eq!(bb.add_entt_name("player"), Ok(0));
    assert_eq!(bb.add_entt_name("player"), Err(()));
    assert_eq!(bb.add_entt_name("pig"), Ok(1));
    // a lookup after an addition finds the name where it was added
    assert_eq!(bb.get_entt_index("pig"), Some(1));
    assert_eq!(bb.get_entt_index("ogre"), None);
    assert_eq!(bb.get_drn_data(), &vec!["floor".to_string(), "table".to_string()]);
    assert_eq!(bb.get_ern_data(), &vec!["player".to_string(), "pig".to_string()]);
}

#[test]
fn default_archive_from_arguments() {
    let args = |v: &[&str]| v.iter().map(|s| s.to_string()).collect::<Vec<String>>();
    assert_eq!(default_filename(&args(&["nu", "-d", "assets.zip"])), "assets.zip");
    assert_eq!(default_filename(&args(&["nu", "-d"])), "todo");
    assert_eq!(default_filename(&args(&["nu"])), "todo");
    assert_eq!(default_filename(&args(&[])), "todo");
    assert_eq!(default_filename(&args(&["nu", "-d", "a.zip", "-d", "b.zip"])), "a.zip");
}
