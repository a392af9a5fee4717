use type_kernel::dataclasses::{
    compute_init_signature, compute_post_init_signature, deserialize_fields, encode_signature,
    rust_dataclass_post_init_transform, rust_dataclass_transform, signature_fits, Field,
    DC_FIELD, DC_INIT_SIG, END_TAG, NONE_TYPE,
};
use type_kernel::wire::{read_int_at, read_str_at, write_int_bare};

/// Serialize a field list in the layout Python produces.
fn serialize(fields: &[Field]) -> Vec<u8> {
    let mut buf = Vec::new();
    write_int_bare(&mut buf, fields.len() as i64);
    for f in fields {
        buf.push(DC_FIELD);
        write_int_bare(&mut buf, f.name.len() as i64);
        buf.extend_from_slice(f.name.as_bytes());
        write_int_bare(&mut buf, f.alias.len() as i64);
        buf.extend_from_slice(f.alias.as_bytes());
        buf.push(f.has_default as u8);
        buf.push(f.kw_only as u8);
        buf.push(f.is_in_init as u8);
        buf.push(f.is_init_var as u8);
    }
    buf
}

/// Read an encoded signature back as the Python side does: names and kinds.
fn read_signature(result: &[u8]) -> (Vec<String>, Vec<i64>) {
    assert_eq!(result[0], DC_INIT_SIG);
    let (body_len, pos) = read_int_at(result, 1).unwrap();
    assert_eq!(body_len as usize, result.len() - pos);
    assert_eq!(result[pos], DC_INIT_SIG);
    let (n_args, mut pos) = read_int_at(result, pos + 1).unwrap();
    let mut names = Vec::new();
    let mut kinds = Vec::new();
    for _ in 0..n_args {
        let (name, next) = read_str_at(result, pos).unwrap();
        let (kind, next) = read_int_at(result, next).unwrap();
        names.push(name);
        kinds.push(kind);
        pos = next;
    }
    assert_eq!(result[pos], 0);
    assert_eq!(result[pos + 1], NONE_TYPE);
    assert_eq!(result[pos + 2], END_TAG);
    assert_eq!(result.len(), pos + 3);
    (names, kinds)
}

fn parse_signature(args: &[(String, i64)]) -> (Vec<String>, Vec<i64>) {
    assert!(signature_fits(args));
    read_signature(&encode_signature(args))
}

fn roundtrip(fields: &[Field]) -> Option<(Vec<String>, Vec<i64>)> {
    let bytes = serialize(fields);
    let parsed = deserialize_fields(&bytes)?;
    let args = compute_init_signature(&parsed);
    Some(parse_signature(&args))
}

fn roundtrip_post_init(fields: &[Field]) -> Option<(Vec<String>, Vec<i64>)> {
    let bytes = serialize(fields);
    let parsed = deserialize_fields(&bytes)?;
    let args = compute_post_init_signature(&parsed);
    Some(parse_signature(&args))
}

fn field(name: &str, alias: &str, has_default: bool, kw_only: bool) -> Field {
    Field {
        name: name.to_string(),
        alias: alias.to_string(),
        has_default,
        kw_only,
        is_in_init: true,
        is_init_var: false,
    }
}

fn init_var(name: &str, alias: &str, has_default: bool, kw_only: bool) -> Field {
    Field {
        name: name.to_string(),
        alias: alias.to_string(),
        has_default,
        kw_only,
        is_in_init: true,
        is_init_var: true,
    }
}

#[test]
fn empty_fields_roundtrip() {
    let names_kinds = roundtrip(&[]).expect("empty input handles");
    assert_eq!(names_kinds.0, Vec::<String>::new());
    assert_eq!(names_kinds.1, Vec::<i64>::new());
}

#[test]
fn positions_kinds_match_python() {
    let fields = vec![
        field("a", "", false, false),
        field("b", "", true, false),
        field("c", "", true, true),
        field("d", "", false, true),
    ];
    let names_kinds = roundtrip(&fields).expect("roundtrip handles");
    assert_eq!(names_kinds.0, vec!["a", "b", "c", "d"]);
    assert_eq!(names_kinds.1, vec![0, 1, 5, 3]);
}

#[test]
fn fields_order_preserved() {
    let fields = vec![
        field("kw_first", "", false, true),
        field("pos_first", "", false, false),
    ];
    let names_kinds = roundtrip(&fields).expect("roundtrip handles");
    assert_eq!(names_kinds.0, vec!["kw_first", "pos_first"]);
    assert_eq!(names_kinds.1, vec![3, 0]);
}

#[test]
fn alias_overrides_field_name() {
    let fields = vec![field("y", "yy", false, false)];
    let names_kinds = roundtrip(&fields).expect("roundtrip handles");
    assert_eq!(names_kinds.0, vec!["yy"]);
    assert_eq!(names_kinds.1, vec![0]);
}

#[test]
fn non_init_fields_skipped_by_caller() {
    let fields = vec![Field {
        name: "skipped".to_string(),
        alias: String::new(),
        has_default: false,
        kw_only: false,
        is_in_init: false,
        is_init_var: false,
    }];
    let names_kinds = roundtrip(&fields).expect("roundtrip handles");
    assert_eq!(names_kinds.0, vec!["skipped"]);
    assert_eq!(names_kinds.1, vec![0]);
}

#[test]
fn bad_tag_falls_back() {
    let mut buf = Vec::new();
    write_int_bare(&mut buf, 1);
    buf.push(99);
    assert!(deserialize_fields(&buf).is_none());
}

#[test]
fn long_int_count_falls_back() {
    let buf = vec![15u8];
    assert!(deserialize_fields(&buf).is_none());
}

#[test]
fn huge_count_falls_back() {
    let mut buf = Vec::new();
    write_int_bare(&mut buf, 1001);
    assert!(deserialize_fields(&buf).is_none());
}

#[test]
fn large_field_count_uses_two_byte_varint() {
    let fields: Vec<Field> = (0..200)
        .map(|i| field(&format!("f{i}"), "", false, false))
        .collect();
    let names_kinds = roundtrip(&fields).expect("200 fields handle");
    assert_eq!(names_kinds.0.len(), 200);
    assert_eq!(names_kinds.1, vec![0; 200]);
    assert_eq!(names_kinds.0[0], "f0");
    assert_eq!(names_kinds.0[199], "f199");
}

#[test]
fn post_init_only_keeps_init_var_fields() {
    let fields = vec![
        field("a", "", false, false),
        init_var("b", "", true, true),
        init_var("c", "", false, false),
    ];
    let names_kinds = roundtrip_post_init(&fields).expect("post-init handles");
    assert_eq!(names_kinds.0, vec!["b", "c"]);
    assert_eq!(names_kinds.1, vec![0, 0]);
}

#[test]
fn post_init_kind_is_pos_even_with_default_or_kw_only() {
    let fields = vec![init_var("x", "", true, true)];
    let names_kinds = roundtrip_post_init(&fields).expect("post-init handles");
    assert_eq!(names_kinds.0, vec!["x"]);
    assert_eq!(names_kinds.1, vec![0]);
}

#[test]
fn post_init_uses_alias() {
    let fields = vec![init_var("y", "provided", false, false)];
    let names_kinds = roundtrip_post_init(&fields).expect("post-init handles");
    assert_eq!(names_kinds.0, vec!["provided"]);
    assert_eq!(names_kinds.1, vec![0]);
}

// ---------------------------------------------------------------------------
// Further cases
// ---------------------------------------------------------------------------

#[test]
fn deserialized_fields_keep_every_attribute() {
    let fields = vec![
        init_var("p", "q", true, false),
        Field {
            name: "r".to_string(),
            alias: String::new(),
            has_default: false,
            kw_only: true,
            is_in_init: false,
            is_init_var: false,
        },
    ];
    let parsed = deserialize_fields(&serialize(&fields)).expect("decodes");
    assert_eq!(parsed.len(), 2);
    assert_eq!(parsed[0].name, "p");
    assert_eq!(parsed[0].alias, "q");
    assert!(parsed[0].has_default && !parsed[0].kw_only && parsed[0].is_in_init);
    assert!(parsed[0].is_init_var);
    assert_eq!(parsed[1].name, "r");
    assert_eq!(parsed[1].alias, "");
    assert!(!parsed[1].has_default && parsed[1].kw_only && !parsed[1].is_in_init);
    assert!(!parsed[1].is_init_var);
}

#[test]
fn non_ascii_names_roundtrip() {
    let fields = vec![field("größe", "", false, false), field("x", "名前", true, false)];
    let names_kinds = roundtrip(&fields).expect("utf-8 names handle");
    assert_eq!(names_kinds.0, vec!["größe", "名前"]);
    assert_eq!(names_kinds.1, vec![0, 1]);
}

#[test]
fn invalid_utf8_name_falls_back() {
    let mut buf = Vec::new();
    write_int_bare(&mut buf, 1);
    buf.push(DC_FIELD);
    write_int_bare(&mut buf, 2);
    buf.extend_from_slice(&[0xC3, 0x28]);
    write_int_bare(&mut buf, 0);
    buf.extend_from_slice(&[0, 0, 1, 0]);
    assert!(deserialize_fields(&buf).is_none());
}

#[test]
fn flag_other_than_zero_or_one_falls_back() {
    let mut bytes = serialize(&[field("a", "", false, false)]);
    let last = bytes.len() - 1;
    bytes[last] = 2;
    assert!(deserialize_fields(&bytes).is_none());
}

#[test]
fn truncated_input_falls_back() {
    let bytes = serialize(&[field("abc", "", false, false)]);
    assert!(deserialize_fields(&bytes[..bytes.len() - 1]).is_none());
    assert!(deserialize_fields(&[]).is_none());
}

#[test]
fn trailing_bytes_are_not_read() {
    let mut bytes = serialize(&[field("a", "", false, false)]);
    bytes.extend_from_slice(&[7, 7, 7]);
    let parsed = deserialize_fields(&bytes).expect("decodes");
    assert_eq!(parsed.len(), 1);
}

#[test]
fn count_thousand_is_accepted_and_negative_rejected() {
    let fields: Vec<Field> = (0..1000).map(|_| field("a", "", false, false)).collect();
    assert_eq!(deserialize_fields(&serialize(&fields)).map(|f| f.len()), Some(1000));
    let mut buf = Vec::new();
    write_int_bare(&mut buf, -1);
    assert!(deserialize_fields(&buf).is_none());
}

#[test]
fn encoded_signature_exact_bytes() {
    let args = vec![("ab".to_string(), 1i64)];
    let out = encode_signature(&args);
    // body: tag, count 1, name "ab", kind 1, flag, None, end
    let body = vec![211u8, 22, 24, b'a', b'b', 22, 0, 108, 255];
    let mut expected = vec![211u8, ((body.len() as u8) + 10) * 2];
    expected.extend_from_slice(&body);
    assert_eq!(out, expected);
}

#[test]
fn transform_seams_match_their_pieces() {
    let fields = vec![field("a", "", true, false), init_var("b", "bb", false, true)];
    let bytes = serialize(&fields);
    let init = rust_dataclass_transform(&bytes, "m.C", true, true, false, false).expect("handled");
    assert_eq!(read_signature(&init), (vec!["a".to_string(), "bb".to_string()], vec![1, 3]));
    let post = rust_dataclass_post_init_transform(&bytes, "m.C").expect("handled");
    assert_eq!(read_signature(&post), (vec!["bb".to_string()], vec![0]));
    assert!(rust_dataclass_transform(&[15], "m.C", true, true, false, false).is_none());
    assert!(rust_dataclass_post_init_transform(&[15], "m.C").is_none());
}
