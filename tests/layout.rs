use pack_bools::bits::{get_bit, set_bit};
use pack_bools::config::global::{FieldName, GlobalKey, Modifier as GlobalModifier};
use pack_bools::config::local::{
    default_value, Accessor, LocalKey, Modifier as LocalModifier, VisibilityIdent,
};
use pack_bools::config::{CombinedConfig, GenType, GlobalConfig, LocalConfig, Visibility};
use pack_bools::error::{ErrorKind, Location, WidthChoice};
use pack_bools::pack_bools;
use pack_bools::packing::{PackedType, PackingStrategy};
use pack_bools::plan::{Field, FieldSchema, ModifiedField, StructDef, TransformPlan};
use pack_bools::template::Template;

fn field(name: &str, is_bool: bool, index: usize, configs: Vec<LocalConfig>) -> Field {
    Field {
        schema: FieldSchema {
            name: name.to_string(),
            is_bool,
            visibility: Visibility::Private,
            index,
        },
        configs,
    }
}

fn local(mods: Vec<LocalModifier>) -> LocalConfig {
    LocalConfig::default().with_modifiers(mods)
}

fn global(mods: Vec<GlobalModifier>) -> GlobalConfig {
    GlobalConfig::default().with_modifiers(mods)
}

fn def(name: &str, fields: Vec<Field>) -> StructDef {
    StructDef { name: name.to_string(), fields }
}

fn positions(plan: &TransformPlan) -> Vec<(usize, u32)> {
    plan.accessors.iter().map(|a| (a.flag_index, a.bit_position)).collect()
}

fn bools(n: usize) -> Vec<Field> {
    (0..n).map(|i| field(&format!("b{i}"), true, i, vec![])).collect()
}

#[test]
fn auto_width_is_smallest_that_fits() {
    let cases = [
        (0, Some(PackedType::U8)),
        (1, Some(PackedType::U8)),
        (8, Some(PackedType::U8)),
        (9, Some(PackedType::U16)),
        (16, Some(PackedType::U16)),
        (17, Some(PackedType::U32)),
        (32, Some(PackedType::U32)),
        (33, Some(PackedType::U64)),
        (64, Some(PackedType::U64)),
        (65, Some(PackedType::U128)),
        (128, Some(PackedType::U128)),
        (129, None),
    ];
    for (n, expected) in cases {
        assert_eq!(PackedType::smallest_larger_than(n), expected, "{n} flags");
    }
    let plan = pack_bools(&global(vec![]), &def("Nine", bools(9))).unwrap();
    assert_eq!(plan.packed_type, PackedType::U16);
    assert_eq!(plan.packed_type.bit_width(), 16);
}

#[test]
fn fixed_width_too_small_is_out_of_range() {
    let s = PackingStrategy::FixedType(PackedType::U8);
    assert_eq!(s.to_packed_type(9), Err(ErrorKind::OutOfRange(WidthChoice::Declared)));
    assert_eq!(s.to_packed_type(8), Ok(PackedType::U8));
    assert_eq!(
        PackingStrategy::Auto.to_packed_type(129),
        Err(ErrorKind::OutOfRange(WidthChoice::Auto))
    );
    let config = global(vec![GlobalModifier::Type(s)]);
    let e = pack_bools(&config, &def("Nine", bools(9))).unwrap_err();
    assert_eq!(e.kind, ErrorKind::OutOfRange(WidthChoice::Declared));
    assert_eq!(e.location, Location::Struct);
}

#[test]
fn bit_positions_skip_other_fields() {
    let skip = local(vec![LocalModifier::Skip]);
    let s = def(
        "Mixed",
        vec![
            field("name", false, 0, vec![]),
            field("a", true, 1, vec![]),
            field("skipped", true, 2, vec![skip]),
            field("count", false, 3, vec![]),
            field("b", true, 4, vec![]),
        ],
    );
    let plan = pack_bools(&global(vec![]), &s).unwrap();
    assert_eq!(positions(&plan), vec![(1, 0), (4, 1)]);
    let kept: Vec<&str> = plan.retained.iter().map(|f| f.name.as_str()).collect();
    assert_eq!(kept, vec!["name", "skipped", "count"]);
}

#[test]
fn inserting_a_non_bool_field_keeps_bits() {
    let before = def("S", vec![field("a", true, 0, vec![]), field("b", true, 1, vec![])]);
    let after = def(
        "S",
        vec![
            field("a", true, 0, vec![]),
            field("x", false, 1, vec![]),
            field("b", true, 2, vec![]),
        ],
    );
    let narrow = pack_bools(&global(vec![]), &before).unwrap();
    let wide = pack_bools(&global(vec![]), &after).unwrap();
    assert_eq!(positions(&narrow), vec![(0, 0), (1, 1)]);
    assert_eq!(positions(&wide), vec![(0, 0), (2, 1)]);
}

#[test]
fn set_then_get_round_trips() {
    for pos in 0..128u32 {
        for value in [false, true] {
            for start in [0u128, u128::MAX, 0x5555_5555_5555_5555_5555_5555_5555_5555] {
                let after = set_bit(start, pos, value);
                assert_eq!(get_bit(after, pos), value);
                for other in 0..128u32 {
                    if other != pos {
                        assert_eq!(get_bit(after, other), get_bit(start, other));
                    }
                }
            }
        }
    }
    assert_eq!(set_bit(0, 3, true), 8);
    assert_eq!(set_bit(0xff, 0, false), 0xfe);
}

#[test]
fn default_bitmask_is_or_of_default_bits() {
    let on = || local(vec![LocalModifier::SetDefault(true)]);
    let config = global(vec![GlobalModifier::GenType(GenType::NewType(Some("Flags".to_string())))]);
    let s = def(
        "S",
        vec![
            field("a", true, 0, vec![on()]),
            field("x", false, 1, vec![]),
            field("b", true, 2, vec![]),
            field("c", true, 3, vec![on()]),
        ],
    );
    let plan = pack_bools(&config, &s).unwrap();
    assert_eq!(plan.default_bits, Some(0b101));
    let decl = plan.container.as_ref().unwrap();
    assert_eq!(decl.name, "Flags");
    assert_eq!(decl.inner, PackedType::U8);
}

#[test]
fn default_true_under_inline_is_invalid() {
    let on = local(vec![LocalModifier::SetDefault(true)]);
    let s = def("S", vec![field("a", true, 0, vec![]), field("b", true, 1, vec![on])]);
    let e = pack_bools(&global(vec![GlobalModifier::GenType(GenType::Inline)]), &s).unwrap_err();
    assert_eq!(e.kind, ErrorKind::InvalidDefault);
    assert_eq!(e.location, Location::Field(1));
}

#[test]
fn single_default_sets_only_its_bit() {
    let on = local(vec![LocalModifier::SetDefault(true)]);
    let off = local(vec![LocalModifier::SetDefault(false)]);
    let config = global(vec![GlobalModifier::GenType(GenType::NewType(None))]);
    let s = def(
        "Config",
        vec![
            field("w", true, 0, vec![]),
            field("y", true, 1, vec![off]),
            field("x", true, 2, vec![on]),
            field("z", true, 3, vec![]),
        ],
    );
    let plan = pack_bools(&config, &s).unwrap();
    assert_eq!(plan.default_bits, Some(1 << 2));
    assert_eq!(plan.container.as_ref().unwrap().name, "ConfigPackedBools");
}

#[test]
fn template_formats_names() {
    let t = Template::parse("%_suffix").unwrap();
    assert_eq!(t.format("foo"), "foo_suffix");
    let t = Template::parse("pre_%").unwrap();
    assert_eq!(t.format("foo"), "pre_foo");
    let t = Template::parse("%").unwrap();
    assert_eq!(t.format("foo"), "foo");
    let t = Template::from_str("get_", "_now");
    assert_eq!(t.format("x"), "get_x_now");
    let t = Template::new("a".to_string(), "b".to_string());
    assert_eq!(t.format(""), "ab");
}

#[test]
fn malformed_templates_are_rejected() {
    for bad in ["abc", "", "a%b%c", "%%", "fn%", "%self", "1x%", " get_%", "get_ %", "a-b%", "_%"] {
        assert_eq!(Template::parse(bad).unwrap_err(), ErrorKind::MalformedTemplate, "{bad:?}");
    }
    assert_eq!(Template::split("abc").unwrap_err(), ErrorKind::MalformedTemplate);
    let t = Template::split("a-b%c d").unwrap();
    assert_eq!((t.before.as_str(), t.after.as_str()), ("a-b", "c d"));
}

#[test]
fn field_options_errors() {
    let a = local(vec![]);
    let b = local(vec![LocalModifier::NoGetter]);
    let s = def("S", vec![field("a", true, 0, vec![]), field("b", true, 1, vec![a, b])]);
    let e = pack_bools(&global(vec![]), &s).unwrap_err();
    assert_eq!(e.kind, ErrorKind::AmbiguousConfig);
    assert_eq!(e.location, Location::Field(1));

    let bad = field("n", false, 0, vec![local(vec![])]);
    assert!(matches!(ModifiedField::from_field(&bad), Err(ErrorKind::InvalidFieldType)));

    // a field error comes before a width error
    let u8_only = global(vec![GlobalModifier::Type(PackingStrategy::FixedType(PackedType::U8))]);
    let mut fields = bools(9);
    fields.push(field("n", false, 9, vec![local(vec![])]));
    let e = pack_bools(&u8_only, &def("S", fields)).unwrap_err();
    assert_eq!(e.kind, ErrorKind::InvalidFieldType);
    assert_eq!(e.location, Location::Field(9));
}

#[test]
fn modified_field_classification() {
    let kept = ModifiedField::from_field(&field("n", false, 0, vec![])).unwrap();
    assert!(!kept.is_packed());
    assert_eq!(kept.into_excluded().unwrap().name, "n");
    let packed = ModifiedField::from_field(&field("b", true, 1, vec![])).unwrap();
    assert!(packed.is_packed());
    let (schema, config) = packed.into_packaged().unwrap();
    assert_eq!(schema.name, "b");
    assert!(config.is_none());
    let skipped = ModifiedField::from_field(&field("s", true, 2, vec![local(vec![LocalModifier::Skip])]));
    assert!(skipped.unwrap().into_packaged().is_none());
}

#[test]
fn option_names() {
    assert_eq!(GlobalKey::from_name("get"), Ok(GlobalKey::Getters));
    assert_eq!(GlobalKey::from_name("setters"), Ok(GlobalKey::Setters));
    assert_eq!(GlobalKey::from_name("no_getter"), Ok(GlobalKey::NoGetters));
    assert_eq!(GlobalKey::from_name("no_set"), Ok(GlobalKey::NoSetters));
    assert_eq!(GlobalKey::from_name("type"), Ok(GlobalKey::Type));
    assert_eq!(GlobalKey::from_name("inline"), Ok(GlobalKey::Inline));
    assert_eq!(GlobalKey::from_name("newtype"), Ok(GlobalKey::NewType));
    assert_eq!(GlobalKey::from_name("field"), Ok(GlobalKey::Field));
    assert_eq!(GlobalKey::from_name("skip"), Err(ErrorKind::UnknownOption));
    assert_eq!(LocalKey::from_name("skip"), Ok(LocalKey::Skip));
    assert_eq!(LocalKey::from_name("set"), Ok(LocalKey::Setter));
    assert_eq!(LocalKey::from_name("no_get"), Ok(LocalKey::NoGetter));
    assert_eq!(LocalKey::from_name("default"), Ok(LocalKey::Default));
    assert_eq!(LocalKey::from_name("no_getters"), Err(ErrorKind::UnknownOption));
    assert_eq!(PackingStrategy::from_name("u32"), Ok(PackingStrategy::FixedType(PackedType::U32)));
    assert_eq!(PackingStrategy::from_name("auto"), Ok(PackingStrategy::Auto));
    assert_eq!(PackingStrategy::from_name("u7"), Err(ErrorKind::UnknownOption));
    assert_eq!(default_value("true"), Ok(true));
    assert_eq!(default_value("false"), Ok(false));
    assert_eq!(default_value("yes"), Err(ErrorKind::UnknownOption));
}

#[test]
fn accessor_resolution() {
    let mut config = global(vec![GlobalModifier::NoSetters]);
    config.field_name = FieldName("bits".to_string());
    let unnamed = local(vec![LocalModifier::Setter(VisibilityIdent {
        visibility: Visibility::Inherit,
        ident: None,
    })]);
    let combined = CombinedConfig::new(&config, &unnamed);
    let inherited = Visibility::Restricted("crate".to_string());
    let getter = combined.getter("flag", &inherited).unwrap();
    assert_eq!(getter.name, "get_flag");
    assert!(matches!(getter.visibility, Visibility::Restricted(ref p) if p == "crate"));
    let setter = combined.setter("flag", &inherited).unwrap();
    assert_eq!(setter.name, "set_flag");
    let plain = LocalConfig::default();
    assert!(CombinedConfig::new(&config, &plain).setter("flag", &inherited).is_none());
    let off = LocalConfig { getter: Accessor::Skip, ..LocalConfig::default() };
    assert!(CombinedConfig::new(&config, &off).getter("flag", &inherited).is_none());

    let plan = pack_bools(&config, &def("S", vec![field("a", true, 0, vec![])])).unwrap();
    assert_eq!(plan.field_name, "bits");
    assert!(plan.container.is_none());
    assert_eq!(plan.default_bits, None);
}

#[test]
fn no_flags_still_gets_a_container() {
    let plan = pack_bools(&global(vec![]), &def("S", vec![field("n", false, 0, vec![])])).unwrap();
    assert_eq!(plan.packed_type, PackedType::U8);
    assert!(plan.accessors.is_empty());
    assert_eq!(plan.retained.len(), 1);
    assert_eq!(plan.field_name, "packed_bools");
    assert!(GenType::Inline.is_inline());
    assert!(GenType::NewType(None).is_newtype());
}

fn texts(tokens: &[&str]) -> Vec<String> {
    tokens.iter().map(|t| t.to_string()).collect()
}

#[test]
fn templates_from_tokens() {
    let t = Template::from_tokens(&texts(&["get_", "%"])).unwrap();
    assert_eq!((t.before.as_str(), t.after.as_str()), ("get_", ""));
    let t = Template::from_tokens(&texts(&["%", "_suffix"])).unwrap();
    assert_eq!(t.format("foo"), "foo_suffix");
    let t = Template::from_tokens(&texts(&["pre_", "%", "_post"])).unwrap();
    assert_eq!(t.format("foo"), "pre_foo_post");
    let t = Template::from_tokens(&texts(&["%"])).unwrap();
    assert_eq!(t.format("foo"), "foo");
    let bad: [&[&str]; 8] = [
        &[],
        &["a", "%", "b", "c"],
        &["a", "b", "%"],
        &["%", "%"],
        &["fn", "%"],
        &["get_"],
        &["a", "-", "%"],
        &["%", "1"],
    ];
    for tokens in bad {
        assert_eq!(
            Template::from_tokens(&texts(tokens)).unwrap_err(),
            ErrorKind::MalformedTemplate,
            "{tokens:?}"
        );
    }
}

#[test]
fn non_ascii_template_without_one_marker_fails() {
    assert_eq!(Template::parse("é%é%").unwrap_err(), ErrorKind::MalformedTemplate);
    assert_eq!(Template::parse("é").unwrap_err(), ErrorKind::MalformedTemplate);
}
