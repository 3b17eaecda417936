use niveluno::compiler::{
    entity_instance_core, f32s_from_acc, has_noref, image_from_prim, instance_kind,
    intern_params, json_string_pairs, reference_kind, register_decor_reference,
    register_entity_reference, string_pairs_of, u32s_from_acc,
    AccessorData, BufferView, ComponentType, ImageSource, InstanceExtras, JsonDoc, NmccError,
    NodeRole, ReferenceExtras,
};
use niveluno::big_buffer::BigBuffer;
use niveluno::error::NUError;
use niveluno::texture::{decode_pixels, decode_texture};

fn pair(k: &str, v: &str) -> (String, String) {
    (k.to_string(), v.to_string())
}

fn some(s: &str) -> Option<String> {
    Some(s.to_string())
}

#[test]
fn string_members_of_json_objects() {
    assert_eq!(
        json_string_pairs(r#"{"_type": "entity", "_entity": "light", "n": 3, "color": "1,2,3,4"}"#),
        vec![pair("_entity", "light"), pair("_type", "entity"), pair("color", "1,2,3,4")]
    );
    assert_eq!(json_string_pairs(r#"{"b": "x", "a": null, "c": ["y"]}"#), vec![pair("b", "x")]);
    assert_eq!(json_string_pairs("[1, 2]"), vec![]);
    assert_eq!(json_string_pairs("\"text\""), vec![]);
    assert_eq!(json_string_pairs("{not json"), vec![]);
    assert_eq!(json_string_pairs(""), vec![]);
}

#[test]
fn string_members_of_a_parsed_document() {
    let doc = JsonDoc::Object(vec![
        ("a".to_string(), some("1")),
        ("b".to_string(), None),
        ("c".to_string(), some("3")),
    ]);
    assert_eq!(string_pairs_of(doc), vec![pair("a", "1"), pair("c", "3")]);
    assert_eq!(string_pairs_of(JsonDoc::Invalid), vec![]);
    assert_eq!(string_pairs_of(JsonDoc::NotObject), vec![]);
}

#[test]
fn index_accessors() {
    let buffers = vec![vec![9, 1, 0, 2, 0, 255, 255], vec![1, 0, 0, 0, 0, 1, 0, 0]];
    let u16s = AccessorData {
        view: Some(BufferView { buffer: 0, offset: 1, length: 6 }),
        data_type: ComponentType::U16,
    };
    assert_eq!(u32s_from_acc(&u16s, &buffers), Some(vec![1, 2, 65535]));
    let u32s = AccessorData {
        view: Some(BufferView { buffer: 1, offset: 0, length: 8 }),
        data_type: ComponentType::U32,
    };
    assert_eq!(u32s_from_acc(&u32s, &buffers), Some(vec![1, 256]));
    let empty = AccessorData { view: Some(BufferView { buffer: 1, offset: 8, length: 0 }), data_type: ComponentType::U32 };
    assert_eq!(u32s_from_acc(&empty, &buffers), Some(vec![]));
    let no_view = AccessorData { view: None, data_type: ComponentType::I8 };
    assert_eq!(u32s_from_acc(&no_view, &buffers), None);
}

#[test]
fn float_accessors_give_bit_patterns() {
    let one = 1.5f32.to_le_bytes();
    let two = (-2.0f32).to_le_bytes();
    let mut b = vec![0u8];
    b.extend_from_slice(&one);
    b.extend_from_slice(&two);
    let acc = AccessorData { view: Some(BufferView { buffer: 0, offset: 1, length: 8 }), data_type: ComponentType::F32 };
    assert_eq!(f32s_from_acc(&acc, &vec![b]), Some(vec![1.5f32.to_bits(), (-2.0f32).to_bits()]));
    assert_eq!(f32s_from_acc(&AccessorData { view: None, data_type: ComponentType::F32 }, &vec![]), None);
}

#[test]
fn textures_must_be_embedded_pngs() {
    let buffers = vec![vec![0, 1, 2, 3, 4, 5]];
    let png = Some(ImageSource::View { view: BufferView { buffer: 0, offset: 2, length: 3 }, mime_type: "image/png".to_string() });
    assert_eq!(image_from_prim(&png, &buffers), Some(vec![2, 3, 4]));
    let jpeg = Some(ImageSource::View { view: BufferView { buffer: 0, offset: 2, length: 3 }, mime_type: "image/jpeg".to_string() });
    assert_eq!(image_from_prim(&jpeg, &buffers), None);
    assert_eq!(image_from_prim(&Some(ImageSource::Uri), &buffers), None);
    assert_eq!(image_from_prim(&None, &buffers), None);
}

fn rx(t: Option<&str>, noref: Option<&str>, entity: Option<&str>, decor: Option<&str>) -> Option<ReferenceExtras> {
    Some(ReferenceExtras {
        _type: t.map(|s| s.to_string()),
        _noref: noref.map(|s| s.to_string()),
        _entity: entity.map(|s| s.to_string()),
        _decor: decor.map(|s| s.to_string()),
    })
}

#[test]
fn what_a_reference_node_is() {
    assert_eq!(reference_kind(&rx(Some("decor"), None, None, Some("table"))), NodeRole::Decor("table".to_string()));
    assert_eq!(reference_kind(&rx(Some("entity"), None, Some("pig"), None)), NodeRole::Entity("pig".to_string()));
    assert_eq!(reference_kind(&rx(Some("entity"), Some("true"), Some("pig"), None)), NodeRole::Skip);
    assert_eq!(reference_kind(&rx(Some("entity"), Some("false"), Some("pig"), None)), NodeRole::Entity("pig".to_string()));
    assert_eq!(reference_kind(&rx(Some("decor"), None, Some("pig"), None)), NodeRole::Skip);
    assert_eq!(reference_kind(&rx(Some("prop"), None, Some("pig"), Some("table"))), NodeRole::Skip);
    assert_eq!(reference_kind(&rx(None, None, Some("pig"), Some("table"))), NodeRole::Skip);
    assert_eq!(reference_kind(&None), NodeRole::Skip);
}

#[test]
fn what_a_placed_node_is() {
    let ix = |t: Option<&str>, d: Option<&str>, e: Option<&str>| Some(InstanceExtras {
        _type: t.map(|s| s.to_string()),
        _decor: d.map(|s| s.to_string()),
        _entity: e.map(|s| s.to_string()),
    });
    assert_eq!(instance_kind(&ix(Some("decor"), Some("table"), None)), NodeRole::Decor("table".to_string()));
    assert_eq!(instance_kind(&ix(Some("entity"), None, Some("light"))), NodeRole::Entity("light".to_string()));
    assert_eq!(instance_kind(&ix(Some("entity"), Some("table"), None)), NodeRole::Skip);
    assert_eq!(instance_kind(&ix(None, Some("table"), None)), NodeRole::Skip);
    assert_eq!(instance_kind(&None), NodeRole::Skip);
}

#[test]
fn entity_parameters_are_interned_in_pairs() {
    let mut bb = BigBuffer::new();
    let p = intern_params(&vec![pair("id", "3"), pair("color", "3"), pair("id", "4")], &mut bb);
    assert_eq!(p, vec![0, 1, 2, 1, 0, 3]);
    assert_eq!(bb.get_kvs_data(), &vec!["id".to_string(), "3".to_string(), "color".to_string(), "4".to_string()]);
    assert!(has_noref(&vec![pair("a", "b"), pair("_noref", "true")]));
    assert!(!has_noref(&vec![pair("_noref", "yes")]));
}

#[test]
fn placed_entities() {
    let mut bb = BigBuffer::new();
    bb.add_entt_name("player").unwrap();
    bb.add_entt_name("light").unwrap();
    let r = entity_instance_core("light", &vec![pair("color", "1,2,3,4")], &mut bb);
    assert_eq!(r, Some((Some(1), vec![0, 1])));
    // an unknown model drops the node before any parameter is stored
    let r = entity_instance_core("ogre", &vec![pair("x", "y")], &mut bb);
    assert_eq!(r, None);
    assert_eq!(bb.get_kvs_data().len(), 2);
    // without a model, the node keeps its parameters
    let r = entity_instance_core("ogre", &vec![pair("_noref", "true")], &mut bb);
    assert_eq!(r, Some((None, vec![2, 3])));
}

#[test]
fn compiler_errors_keep_their_message() {
    let e = NmccError("Malformed or missing arguments");
    assert_eq!(e.message(), "Malformed or missing arguments");
    assert_eq!(e.0, "Malformed or missing arguments");
}

fn good_png() -> Vec<u8> {
    vec![137, 80, 78, 71, 13, 10, 26, 10, 0, 0, 0, 13, 73, 72, 68, 82, 0, 0, 0, 2, 0, 0, 0, 1, 8, 6, 0, 0, 0, 244, 34, 127, 138, 0, 0, 0, 14, 73, 68, 65, 84, 120, 156, 99, 248, 207, 192, 240, 31, 4, 1, 16, 248, 3, 253, 78, 149, 193, 111, 0, 0, 0, 0, 73, 69, 78, 68, 174, 66, 96, 130]
}

fn bad_png() -> Vec<u8> {
    vec![137, 80, 78, 71, 13, 10, 26, 10, 0, 0, 0, 13, 73, 72, 68, 82, 0, 0, 0, 2, 0, 0, 0, 1, 8, 6, 0, 0, 0, 244, 34, 127, 138, 0, 0, 0, 4, 73, 68, 65, 84, 120, 156, 255, 255, 14, 135, 60, 31, 0, 0, 0, 0, 73, 69, 78, 68, 174, 66, 96, 130]
}

#[test]
fn decoding_textures() {
    let placeholder = vec![7u8; 4];
    let t = decode_texture(&good_png(), &placeholder).unwrap();
    assert_eq!((t.width, t.height), (2, 1));
    assert_eq!(t.pixels.len(), 9);
    assert_eq!(&t.pixels[0..8], &[255, 0, 0, 255, 0, 255, 0, 255]);
    // a header that reads but pixels that do not decode give the placeholder
    let t = decode_texture(&bad_png(), &placeholder).unwrap();
    assert_eq!((t.width, t.height), (1, 1));
    assert_eq!(t.pixels, placeholder);
    // a header that does not read is an error
    let e = decode_texture(&vec![1, 2, 3], &placeholder).err();
    assert_eq!(e, Some(NUError::MiniPNGError("not a png file".to_string())));
}

#[test]
fn decoding_pixels_with_a_small_buffer_falls_back() {
    let placeholder = vec![1u8, 2, 3, 4];
    let t = decode_pixels(&good_png(), 2, &placeholder);
    assert_eq!((t.width, t.height), (1, 1));
    assert_eq!(t.pixels, placeholder);
}

#[test]
fn registering_models() {
    let mut bb = BigBuffer::new();
    assert_eq!(register_decor_reference("table", vec![1, 2], &mut bb), Some((0, 0)));
    assert_eq!(register_decor_reference("chair", vec![1, 2], &mut bb), Some((1, 0)));
    // a second model of the same name is dropped, and its texture not stored
    assert_eq!(register_decor_reference("table", vec![9], &mut bb), None);
    assert_eq!(bb.get_img_data().len(), 1);
    assert_eq!(register_entity_reference("pig", vec![9], &mut bb), Some((0, 1)));
    assert_eq!(register_entity_reference("pig", vec![8], &mut bb), None);
    assert_eq!(register_entity_reference("table", vec![1, 2], &mut bb), Some((1, 0)));
    assert_eq!(bb.get_drn_data(), &vec!["table".to_string(), "chair".to_string()]);
    assert_eq!(bb.get_ern_data(), &vec!["pig".to_string(), "table".to_string()]);
}
