use pack_bools::config::global::{
    Modifier as GlobalModifier, UpdateVisibilityTemplate,
};
use pack_bools::config::local::{Modifier as LocalModifier, VisibilityIdent};
use pack_bools::config::{GlobalConfig, LocalConfig, Visibility};
use pack_bools::error::{ErrorKind, Location, WidthChoice};
use pack_bools::pack_bools;
use pack_bools::packing::{PackedType, PackingStrategy};
use pack_bools::plan::{AccessorSpec, Field, FieldSchema, StructDef, TransformPlan};
use pack_bools::template::Template;

fn field(name: &str, is_bool: bool, index: usize, configs: Vec<LocalConfig>) -> Field {
    Field {
        schema: FieldSchema {
            name: name.to_string(),
            is_bool,
            visibility: Visibility::Private,
            index,
        },
        configs,
    }
}

fn local(mods: Vec<LocalModifier>) -> LocalConfig {
    LocalConfig::default().with_modifiers(mods)
}

fn global(mods: Vec<GlobalModifier>) -> GlobalConfig {
    GlobalConfig::default().with_modifiers(mods)
}

fn def(name: &str, fields: Vec<Field>) -> StructDef {
    StructDef { name: name.to_string(), fields }
}

fn named_template(visibility: Visibility, text: &str) -> UpdateVisibilityTemplate {
    UpdateVisibilityTemplate { visibility, template: Some(Template::parse(text).unwrap()) }
}

fn accessor<'a>(plan: &'a TransformPlan, index: usize) -> &'a AccessorSpec {
    plan.accessors.iter().find(|a| a.flag_index == index).unwrap()
}

fn getter_name(plan: &TransformPlan, index: usize) -> Option<String> {
    accessor(plan, index).getter.as_ref().map(|s| s.name.clone())
}

fn setter_name(plan: &TransformPlan, index: usize) -> Option<String> {
    accessor(plan, index).setter.as_ref().map(|s| s.name.clone())
}

fn bools(n: usize) -> Vec<Field> {
    (0..n).map(|i| field(&format!("b{i}"), true, i, vec![])).collect()
}

#[test]
fn test_defaults() {
    let config = global(vec![GlobalModifier::GenType(pack_bools::config::GenType::NewType(None))]);
    let s = def(
        "WithDefaults",
        vec![
            field("_string", false, 0, vec![]),
            field("default_false", true, 1, vec![]),
            field("default_false_2", true, 2, vec![local(vec![LocalModifier::SetDefault(false)])]),
            field("default_true", true, 3, vec![local(vec![LocalModifier::SetDefault(true)])]),
        ],
    );
    let plan = pack_bools(&config, &s).unwrap();
    let defaults = plan.default_bits.unwrap();
    assert!(!accessor(&plan, 1).read(defaults));
    assert!(!accessor(&plan, 1).read(defaults));
    assert!(accessor(&plan, 3).read(defaults));
    assert_eq!(getter_name(&plan, 3).as_deref(), Some("get_default_true"));
    assert_eq!(plan.container.as_ref().unwrap().name, "WithDefaultsPackedBools");
}

#[test]
fn test_custom_names() {
    let config = global(vec![
        GlobalModifier::Getters(named_template(Visibility::Private, "%")),
        GlobalModifier::Setters(named_template(Visibility::Private, "s%")),
    ]);
    let custom = local(vec![LocalModifier::Getter(VisibilityIdent {
        visibility: Visibility::Public,
        ident: Some("get_custom".to_string()),
    })]);
    let s = def(
        "CustomNames",
        vec![
            field("bool_a", true, 0, vec![]),
            field("bool_b", true, 1, vec![]),
            field("custom", true, 2, vec![custom]),
        ],
    );
    let plan = pack_bools(&config, &s).unwrap();
    assert_eq!(getter_name(&plan, 0).as_deref(), Some("bool_a"));
    assert_eq!(getter_name(&plan, 1).as_deref(), Some("bool_b"));
    assert_eq!(getter_name(&plan, 2).as_deref(), Some("get_custom"));
    assert!(matches!(accessor(&plan, 2).getter.as_ref().unwrap().visibility, Visibility::Public));
    assert_eq!(setter_name(&plan, 0).as_deref(), Some("sbool_a"));
    assert_eq!(setter_name(&plan, 1).as_deref(), Some("sbool_b"));

    let (a, b, c) = (accessor(&plan, 0), accessor(&plan, 1), accessor(&plan, 2));
    let mut cn: u128 = 0;
    assert!(!a.read(cn));
    assert!(!b.read(cn));
    assert!(!c.read(cn));
    cn = a.write(cn, true);
    assert!(a.read(cn));
    assert!(!b.read(cn));
    assert!(!c.read(cn));
    cn = b.write(cn, true);
    cn = a.write(cn, false);
    assert!(!a.read(cn));
    assert!(b.read(cn));
    assert!(!c.read(cn));
}

#[test]
fn test_no_getters() {
    let config = global(vec![GlobalModifier::NoGetters]);
    let get_me = local(vec![LocalModifier::Getter(VisibilityIdent {
        visibility: Visibility::Private,
        ident: Some("get_me".to_string()),
    })]);
    let s = def("NoGetters", vec![field("a", true, 0, vec![]), field("b", true, 1, vec![get_me])]);
    let plan = pack_bools(&config, &s).unwrap();
    assert_eq!(getter_name(&plan, 0), None);
    assert_eq!(getter_name(&plan, 1).as_deref(), Some("get_me"));
    assert!(!accessor(&plan, 1).read(0));
}

#[test]
fn trybuild() {
    // options on a field that is not a bool
    let skip = local(vec![LocalModifier::Skip]);
    let s = def("InvalidType", vec![field("a", true, 0, vec![]), field("n", false, 1, vec![skip])]);
    let e = pack_bools(&global(vec![]), &s).unwrap_err();
    assert_eq!(e.kind, ErrorKind::InvalidFieldType);
    assert_eq!(e.location, Location::Field(1));

    // nine flags in a declared u8
    let u8_only = global(vec![GlobalModifier::Type(PackingStrategy::FixedType(PackedType::U8))]);
    let e = pack_bools(&u8_only, &def("TooMany", bools(9))).unwrap_err();
    assert_eq!(e.kind, ErrorKind::OutOfRange(WidthChoice::Declared));

    // eight flags in a declared u8
    let plan = pack_bools(&u8_only, &def("JustEnough", bools(8))).unwrap();
    assert_eq!(plan.packed_type, PackedType::U8);

    // more flags than any width holds
    let e = pack_bools(&global(vec![]), &def("SuperMany", bools(129))).unwrap_err();
    assert_eq!(e.kind, ErrorKind::OutOfRange(WidthChoice::Auto));
    assert_eq!(e.location, Location::Struct);

    // a default of true on an inline container
    let on = local(vec![LocalModifier::SetDefault(true)]);
    let s = def("DefaultsInline", vec![field("a", true, 0, vec![]), field("b", true, 1, vec![on])]);
    let e = pack_bools(&global(vec![]), &s).unwrap_err();
    assert_eq!(e.kind, ErrorKind::InvalidDefault);
    assert_eq!(e.location, Location::Field(1));

    // no getters and no setters
    let config = global(vec![GlobalModifier::NoGetters, GlobalModifier::NoSetters]);
    let plan = pack_bools(&config, &def("MyBools", bools(2))).unwrap();
    assert!(plan.accessors.iter().all(|a| a.getter.is_none() && a.setter.is_none()));
    let config = global(vec![GlobalModifier::NoGetters]);
    let plan = pack_bools(&config, &def("MyBools", bools(2))).unwrap();
    assert!(plan.accessors.iter().all(|a| a.getter.is_none() && a.setter.is_some()));
    let config = global(vec![GlobalModifier::NoSetters]);
    let plan = pack_bools(&config, &def("MyBools", bools(2))).unwrap();
    assert!(plan.accessors.iter().all(|a| a.getter.is_some() && a.setter.is_none()));

    // private getters: `get =` keeps the default template with no modifier
    let config = global(vec![GlobalModifier::Getters(UpdateVisibilityTemplate {
        visibility: Visibility::Private,
        template: None,
    })]);
    let get_b = local(vec![LocalModifier::Getter(VisibilityIdent {
        visibility: Visibility::Private,
        ident: Some("get_b".to_string()),
    })]);
    let mut a = field("a", true, 0, vec![]);
    a.schema.visibility = Visibility::Public;
    let mut b = field("b", true, 1, vec![get_b]);
    b.schema.visibility = Visibility::Restricted("super".to_string());
    let plan = pack_bools(&config, &def("MyBools", vec![a, b])).unwrap();
    let ga = accessor(&plan, 0).getter.as_ref().unwrap();
    assert_eq!(ga.name, "get_a");
    assert!(matches!(ga.visibility, Visibility::Private));
    let gb = accessor(&plan, 1).getter.as_ref().unwrap();
    assert_eq!(gb.name, "get_b");
    assert!(matches!(gb.visibility, Visibility::Private));
}
