use vstd::prelude::*;

use crate::bits::{
    bit_set, default_mask, fits, get_bit, lemma_default_mask_bits, lemma_default_mask_single,
    lemma_get_after_set, lemma_set_keeps_others, lemma_set_keeps_width, set_bit, with_bit,
};
use crate::config::{
    resolve_accessor, signature_view, CombinedConfig, GenType, GlobalConfig, LocalConfig,
    Signature, Visibility,
};
use crate::error::{ErrorKind, Location, PackError};
use crate::packing::PackedType;

verus! {

/// One field of the struct, as declared.
#[derive(Debug)]
pub struct FieldSchema {
    pub name: String,
    pub is_bool: bool,
    pub visibility: Visibility,
    /// The field's position among the struct's fields, as the caller numbered it.
    pub index: usize,
}

impl Clone for FieldSchema {
    fn clone(&self) -> (r: Self)
        ensures
            r == *self,
    {
        FieldSchema {
            name: self.name.clone(),
            is_bool: self.is_bool,
            visibility: self.visibility.clone(),
            index: self.index,
        }
    }
}

/// A field together with the option blocks attached to it.
#[derive(Debug)]
pub struct Field {
    pub schema: FieldSchema,
    pub configs: Vec<LocalConfig>,
}

/// A struct to transform: its name and its fields in declaration order.
#[derive(Debug)]
pub struct StructDef {
    pub name: String,
    pub fields: Vec<Field>,
}

/// A field once its options are read: kept as it is, or packed.
#[derive(Debug)]
pub enum ModifiedField {
    Excluded(FieldSchema),
    PackedField(FieldSchema, Option<LocalConfig>),
}

/// What is wrong with the options attached to a field, if anything.
pub open spec fn field_error(f: Field) -> Option<ErrorKind> {
    if f.configs@.len() > 0 && !f.schema.is_bool {
        Some(ErrorKind::InvalidFieldType)
    } else if f.configs@.len() > 1 {
        Some(ErrorKind::AmbiguousConfig)
    } else {
        None
    }
}

/// A field is packed when it is a `bool` that its options do not skip.
pub open spec fn is_packable(f: Field) -> bool {
    f.schema.is_bool && !(f.configs@.len() == 1 && f.configs@[0].skip)
}

/// The options of a field: its one block, or the defaults.
pub open spec fn local_of(f: Field) -> LocalConfig {
    if f.configs@.len() == 1 {
        f.configs@[0]
    } else {
        LocalConfig::spec_default()
    }
}

/// What reading a field's options gives.
pub open spec fn modified_of(f: Field) -> Result<ModifiedField, ErrorKind> {
    match field_error(f) {
        Some(e) => Err(e),
        None => if f.configs@.len() == 1 {
            if f.configs@[0].skip {
                Ok(ModifiedField::Excluded(f.schema))
            } else {
                Ok(ModifiedField::PackedField(f.schema, Some(f.configs@[0])))
            }
        } else if f.schema.is_bool {
            Ok(ModifiedField::PackedField(f.schema, None))
        } else {
            Ok(ModifiedField::Excluded(f.schema))
        },
    }
}

impl ModifiedField {
    pub fn is_packed(&self) -> (r: bool)
        ensures
            r == (*self is PackedField),
    {
        matches!(self, ModifiedField::PackedField(_, _))
    }

    pub fn into_excluded(self) -> (r: Option<FieldSchema>)
        ensures
            match self {
                ModifiedField::Excluded(f) => r == Some(f),
                ModifiedField::PackedField(_, _) => r is None,
            },
    {
        match self {
            ModifiedField::Excluded(e) => Some(e),
            ModifiedField::PackedField(_, _) => None,
        }
    }

    pub fn into_packaged(self) -> (r: Option<(FieldSchema, Option<LocalConfig>)>)
        ensures
            match self {
                ModifiedField::PackedField(f, c) => r == Some((f, c)),
                ModifiedField::Excluded(_) => r is None,
            },
    {
        match self {
            ModifiedField::PackedField(f, c) => Some((f, c)),
            ModifiedField::Excluded(_) => None,
        }
    }

    /// Reads the options attached to `field`: options on a field that is not a
    /// `bool`, or more than one block, are errors.
    pub fn from_field(field: &Field) -> (r: Result<ModifiedField, ErrorKind>)
        ensures
            r == modified_of(*field),
    {
        let n = field.configs.len();
        if n > 0 && !field.schema.is_bool {
            return Err(ErrorKind::InvalidFieldType);
        }
        if n > 1 {
            return Err(ErrorKind::AmbiguousConfig);
        }
        let schema = field.schema.clone();
        if n == 1 {
            let config = field.configs[0].clone();
            if config.skip {
                Ok(ModifiedField::Excluded(schema))
            } else {
                Ok(ModifiedField::PackedField(schema, Some(config)))
            }
        } else if field.schema.is_bool {
            Ok(ModifiedField::PackedField(schema, None))
        } else {
            Ok(ModifiedField::Excluded(schema))
        }
    }
}

/// The positions of the packed fields, in declaration order.
pub open spec fn flag_indices(fields: Seq<Field>) -> Seq<int>
    decreases fields.len(),
{
    if fields.len() == 0 {
        seq![]
    } else if is_packable(fields.last()) {
        flag_indices(fields.drop_last()).push(fields.len() - 1)
    } else {
        flag_indices(fields.drop_last())
    }
}

/// The fields that are kept as they are, in declaration order.
pub open spec fn retained_of(fields: Seq<Field>) -> Seq<FieldSchema>
    decreases fields.len(),
{
    if fields.len() == 0 {
        seq![]
    } else if is_packable(fields.last()) {
        retained_of(fields.drop_last())
    } else {
        retained_of(fields.drop_last()).push(fields.last().schema)
    }
}

/// The first field whose options are wrong, with what is wrong.
pub open spec fn first_field_error(fields: Seq<Field>) -> Option<(int, ErrorKind)>
    decreases fields.len(),
{
    if fields.len() == 0 {
        None
    } else {
        match first_field_error(fields.drop_last()) {
            Some(found) => Some(found),
            None => match field_error(fields.last()) {
                Some(e) => Some((fields.len() - 1, e)),
                None => None,
            },
        }
    }
}

/// The default of each flag, in bit order.
pub open spec fn flag_defaults(fields: Seq<Field>) -> Seq<bool> {
    flag_indices(fields).map_values(|j: int| local_of(fields[j]).default)
}

/// The first position that holds `true`.
pub open spec fn first_true(s: Seq<bool>) -> Option<int>
    decreases s.len(),
{
    if s.len() == 0 {
        None
    } else {
        match first_true(s.drop_last()) {
            Some(k) => Some(k),
            None => if s.last() {
                Some(s.len() - 1)
            } else {
                None
            },
        }
    }
}

/// The number of packed fields before position `j`.
pub open spec fn bit_rank(fields: Seq<Field>, j: int) -> nat {
    flag_indices(fields.take(j)).len()
}

/// The error that transforming `def` under `config` stops at, if any: the first
/// field with wrong options; else too many flags for the width; else, with an
/// inline container, the first flag that defaults to `true`.
pub open spec fn plan_error(config: GlobalConfig, def: StructDef) -> Option<PackError> {
    let fields = def.fields@;
    match first_field_error(fields) {
        Some((j, kind)) => Some(PackError { kind, location: Location::Field(j as usize) }),
        None => match config.packed_type.chosen(flag_indices(fields).len() as int) {
            Err(kind) => Some(PackError { kind, location: Location::Struct }),
            Ok(_) => if config.gen_type is Inline {
                match first_true(flag_defaults(fields)) {
                    Some(k) => Some(
                        PackError {
                            kind: ErrorKind::InvalidDefault,
                            location: Location::Field(flag_indices(fields)[k] as usize),
                        },
                    ),
                    None => None,
                }
            } else {
                None
            },
        },
    }
}

/// The accessors of one flag and the bit they work on.
#[derive(Debug)]
pub struct AccessorSpec {
    /// The position of the flag's field in the struct.
    pub flag_index: usize,
    pub bit_position: u32,
    pub getter: Option<Signature>,
    pub setter: Option<Signature>,
}

impl AccessorSpec {
    /// What this flag's getter reads from a container value.
    pub fn read(&self, container: u128) -> (r: bool)
        requires
            self.bit_position < 128,
        ensures
            r == bit_set(container, self.bit_position),
    {
        get_bit(container, self.bit_position)
    }

    /// The container value after this flag's setter wrote `value`.
    pub fn write(&self, container: u128, value: bool) -> (r: u128)
        requires
            self.bit_position < 128,
        ensures
            r == with_bit(container, self.bit_position, value),
    {
        set_bit(container, self.bit_position, value)
    }
}

/// The wrapper type declared around the packed integer.
#[derive(Debug)]
pub struct NewTypeDecl {
    pub name: String,
    pub inner: PackedType,
}

/// The rewritten layout of a struct.
#[derive(Debug)]
pub struct TransformPlan {
    /// The fields kept as they are, in declaration order; the packed field
    /// comes after them.
    pub retained: Vec<FieldSchema>,
    /// The name of the packed field.
    pub field_name: String,
    pub packed_type: PackedType,
    /// The wrapper type, where the container is not inline.
    pub container: Option<NewTypeDecl>,
    /// One entry per flag, in bit order.
    pub accessors: Vec<AccessorSpec>,
    /// The wrapper's default value, where the container is not inline.
    pub default_bits: Option<u128>,
}

/// `a` describes the `k`-th flag of `fields` under `config`.
pub open spec fn accessor_matches(
    config: GlobalConfig,
    fields: Seq<Field>,
    k: int,
    a: AccessorSpec,
) -> bool {
    let j = flag_indices(fields)[k];
    let f = fields[j];
    &&& a.flag_index == j
    &&& a.bit_position == k
    &&& signature_view(a.getter) == resolve_accessor(
        local_of(f).getter,
        config.getter,
        config.skip_getter,
        f.schema.name@,
        f.schema.visibility,
    )
    &&& signature_view(a.setter) == resolve_accessor(
        local_of(f).setter,
        config.setter,
        config.skip_setter,
        f.schema.name@,
        f.schema.visibility,
    )
}

/// `c` is the wrapper that `config` asks for around `packed`.
pub open spec fn container_matches(
    config: GlobalConfig,
    struct_name: Seq<char>,
    packed: PackedType,
    c: Option<NewTypeDecl>,
) -> bool {
    match config.gen_type {
        GenType::Inline => c is None,
        GenType::NewType(name) => c matches Some(d) && d.inner == packed && d.name@ == match name {
            Some(n) => n@,
            None => struct_name + "PackedBools"@,
        },
    }
}

/// `plan` is the layout of `def` under `config`.
pub open spec fn is_plan_for(config: GlobalConfig, def: StructDef, plan: TransformPlan) -> bool {
    let fields = def.fields@;
    let flags = flag_indices(fields);
    &&& plan.retained@ == retained_of(fields)
    &&& plan.field_name@ == config.field_name.0@
    &&& config.packed_type.chosen(flags.len() as int) == Ok::<PackedType, ErrorKind>(
        plan.packed_type,
    )
    &&& container_matches(config, def.name@, plan.packed_type, plan.container)
    &&& plan.accessors@.len() == flags.len()
    &&& forall|k: int|
        0 <= k < flags.len() ==> accessor_matches(config, fields, k, #[trigger] plan.accessors@[k])
    &&& plan.default_bits == if config.gen_type is NewType {
        Some(default_mask(flag_defaults(fields)))
    } else {
        None::<u128>
    }
}

/// Reads the options of every field, and sorts the fields into flags and kept
/// fields.
fn partition(fields: &Vec<Field>) -> (r: Result<
    (Vec<usize>, Vec<LocalConfig>, Vec<FieldSchema>),
    PackError,
>)
    ensures
        match r {
            Ok((flags, locals, retained)) => {
                &&& first_field_error(fields@) is None
                &&& flags@.len() == flag_indices(fields@).len()
                &&& forall|k: int|
                    0 <= k < flags@.len() ==> #[trigger] flags@[k] as int == flag_indices(
                        fields@,
                    )[k]
                &&& locals@.len() == flags@.len()
                &&& forall|k: int|
                    0 <= k < flags@.len() ==> #[trigger] locals@[k] == local_of(
                        fields@[flags@[k] as int],
                    )
                &&& retained@ == retained_of(fields@)
            },
            Err(e) => first_field_error(fields@) matches Some((j, kind)) && e == PackError {
                kind,
                location: Location::Field(j as usize),
            },
        },
{
    let mut flags: Vec<usize> = Vec::new();
    let mut locals: Vec<LocalConfig> = Vec::new();
    let mut retained: Vec<FieldSchema> = Vec::new();
    let n = fields.len();
    let mut j: usize = 0;
    while j < n
        invariant
            n == fields@.len(),
            j <= n,
            first_field_error(fields@.take(j as int)) is None,
            flags@.len() == flag_indices(fields@.take(j as int)).len(),
            forall|k: int|
                0 <= k < flags@.len() ==> #[trigger] flags@[k] as int == flag_indices(
                    fields@.take(j as int),
                )[k],
            forall|k: int| 0 <= k < flags@.len() ==> #[trigger] flags@[k] < j,
            locals@.len() == flags@.len(),
            forall|k: int|
                0 <= k < flags@.len() ==> #[trigger] locals@[k] == local_of(
                    fields@[flags@[k] as int],
                ),
            retained@ == retained_of(fields@.take(j as int)),
        decreases n - j,
    {
        let ghost pre = fields@.take(j as int);
        let ghost next = fields@.take(j as int + 1);
        assert(next.drop_last() =~= pre);
        assert(next.last() == fields@[j as int]);
        match ModifiedField::from_field(&fields[j]) {
            Err(kind) => {
                proof {
                    lemma_first_error_prefix(fields@, j as int + 1);
                }
                return Err(PackError::new(kind, Location::Field(j)));
            },
            Ok(ModifiedField::Excluded(schema)) => {
                retained.push(schema);
            },
            Ok(ModifiedField::PackedField(_, local)) => {
                flags.push(j);
                match local {
                    Some(local) => locals.push(local),
                    None => locals.push(LocalConfig::default()),
                }
            },
        }
        j += 1;
    }
    assert(fields@.take(n as int) =~= fields@);
    Ok((flags, locals, retained))
}

/// Works out each flag's accessors and the default bit pattern.
fn plan_accessors(
    config: &GlobalConfig,
    fields: &Vec<Field>,
    flags: &Vec<usize>,
    locals: &Vec<LocalConfig>,
) -> (r: Result<(Vec<AccessorSpec>, u128), PackError>)
    requires
        flags@.len() == flag_indices(fields@).len(),
        flags@.len() <= 128,
        forall|k: int|
            0 <= k < flags@.len() ==> #[trigger] flags@[k] as int == flag_indices(fields@)[k],
        forall|k: int| 0 <= k < flags@.len() ==> #[trigger] flags@[k] < fields@.len(),
        locals@.len() == flags@.len(),
        forall|k: int|
            0 <= k < flags@.len() ==> #[trigger] locals@[k] == local_of(fields@[flags@[k] as int]),
    ensures
        match r {
            Ok((accessors, bits)) => {
                &&& config.gen_type is Inline ==> first_true(flag_defaults(fields@)) is None
                &&& bits == default_mask(flag_defaults(fields@))
                &&& accessors@.len() == flags@.len()
                &&& forall|k: int|
                    0 <= k < flags@.len() ==> accessor_matches(
                        *config,
                        fields@,
                        k,
                        #[trigger] accessors@[k],
                    )
            },
            Err(e) => {
                &&& config.gen_type is Inline
                &&& first_true(flag_defaults(fields@)) matches Some(k) && e == PackError {
                    kind: ErrorKind::InvalidDefault,
                    location: Location::Field(flag_indices(fields@)[k] as usize),
                }
            },
        },
{
    let ghost defaults = flag_defaults(fields@);
    let inline = config.gen_type.is_inline();
    let mut accessors: Vec<AccessorSpec> = Vec::new();
    let mut bits: u128 = 0;
    let n = flags.len();
    let mut k: usize = 0;
    while k < n
        invariant
            n == flags@.len(),
            n <= 128,
            k <= n,
            defaults == flag_defaults(fields@),
            defaults.len() == n,
            inline == config.gen_type is Inline,
            flags@.len() == flag_indices(fields@).len(),
            forall|i: int|
                0 <= i < flags@.len() ==> #[trigger] flags@[i] as int == flag_indices(fields@)[i],
            forall|i: int| 0 <= i < flags@.len() ==> #[trigger] flags@[i] < fields@.len(),
            locals@.len() == flags@.len(),
            forall|i: int|
                0 <= i < flags@.len() ==> #[trigger] locals@[i] == local_of(
                    fields@[flags@[i] as int],
                ),
            inline ==> first_true(defaults.take(k as int)) is None,
            bits == default_mask(defaults.take(k as int)),
            accessors@.len() == k,
            forall|i: int|
                0 <= i < k ==> accessor_matches(*config, fields@, i, #[trigger] accessors@[i]),
        decreases n - k,
    {
        let ghost next = defaults.take(k as int + 1);
        assert(next.drop_last() =~= defaults.take(k as int));
        assert(next.last() == locals@[k as int].default);
        let j = flags[k];
        let local = &locals[k];
        if local.default {
            if inline {
                proof {
                    lemma_first_true_prefix(defaults, k as int + 1);
                }
                return Err(PackError::new(ErrorKind::InvalidDefault, Location::Field(j)));
            }
            bits = bits | (1u128 << (k as u32));
        }
        let field = &fields[j];
        let combined = CombinedConfig::new(config, local);
        let getter = combined.getter(field.schema.name.as_str(), &field.schema.visibility);
        let setter = combined.setter(field.schema.name.as_str(), &field.schema.visibility);
        accessors.push(AccessorSpec { flag_index: j, bit_position: k as u32, getter, setter });
        k += 1;
    }
    assert(defaults.take(n as int) =~= defaults);
    Ok((accessors, bits))
}

/// Works out the rewritten layout of `definition` under `config`.
///
/// Stops at the first error in the order that `plan_error` gives. Otherwise the
/// plan keeps the fields that are not packed, in order, picks the container
/// type by `config`'s strategy, gives the `k`-th packed field bit `k` and the
/// accessors that its own and the struct-wide options resolve to, and, for a
/// wrapper type, the default pattern of the flags that default to `true`.
/// A struct with no flags still gets a container field, of the narrowest type.
pub fn pack_bools(config: &GlobalConfig, definition: &StructDef) -> (r: Result<
    TransformPlan,
    PackError,
>)
    ensures
        match r {
            Ok(plan) => plan_error(*config, *definition) is None && is_plan_for(
                *config,
                *definition,
                plan,
            ),
            Err(e) => plan_error(*config, *definition) == Some(e),
        },
{
    let (flags, locals, retained) = match partition(&definition.fields) {
        Ok(parts) => parts,
        Err(e) => return Err(e),
    };
    let packed_type = match config.packed_type.to_packed_type(flags.len()) {
        Ok(t) => t,
        Err(kind) => return Err(PackError::new(kind, Location::Struct)),
    };
    assert(forall|k: int| 0 <= k < flags@.len() ==> #[trigger] flags@[k] < definition.fields@.len())
        by {
        lemma_flag_indices_bounded(definition.fields@);
        assert forall|k: int| 0 <= k < flags@.len() implies #[trigger] flags@[k]
            < definition.fields@.len() by {
            assert(flags@[k] as int == flag_indices(definition.fields@)[k]);
        }
    }
    let (accessors, bits) = match plan_accessors(config, &definition.fields, &flags, &locals) {
        Ok(parts) => parts,
        Err(e) => return Err(e),
    };
    let container = match &config.gen_type {
        GenType::Inline => None,
        GenType::NewType(name) => {
            let name = match name {
                Some(name) => name.clone(),
                None => definition.name.clone().concat("PackedBools"),
            };
            Some(NewTypeDecl { name, inner: packed_type })
        },
    };
    let default_bits = if config.gen_type.is_newtype() {
        Some(bits)
    } else {
        None
    };
    Ok(
        TransformPlan {
            retained,
            field_name: config.field_name.0.clone(),
            packed_type,
            container,
            accessors,
            default_bits,
        },
    )
}

/// The `k`-th packed field is found at the position that counts `k` packed
/// fields before it.
proof fn lemma_rank_finds_flag(fields: Seq<Field>, j: int)
    requires
        0 <= j < fields.len(),
        is_packable(fields[j]),
    ensures
        bit_rank(fields, j) < flag_indices(fields).len(),
        flag_indices(fields)[bit_rank(fields, j) as int] == j,
    decreases fields.len(),
{
    let rest = fields.drop_last();
    if j == fields.len() - 1 {
        assert(fields.take(j) =~= rest);
    } else {
        assert(fields.take(j) =~= rest.take(j));
        lemma_rank_finds_flag(rest, j);
    }
}

/// A field that is not packed adds no flag wherever it is inserted.
proof fn lemma_insert_adds_no_flag(fields: Seq<Field>, i: int, g: Field)
    requires
        0 <= i <= fields.len(),
        !is_packable(g),
    ensures
        flag_indices(fields.insert(i, g)).len() == flag_indices(fields).len(),
    decreases fields.len(),
{
    let grown = fields.insert(i, g);
    if i == fields.len() {
        assert(grown.drop_last() =~= fields);
    } else {
        assert(grown.drop_last() =~= fields.drop_last().insert(i, g));
        assert(grown.last() == fields.last());
        lemma_insert_adds_no_flag(fields.drop_last(), i, g);
    }
}

/// A packed field's bit is its rank among the packed fields: the plan's entry
/// for bit `bit_rank(fields, j)` is the one of field `j`.
pub proof fn lemma_bit_is_rank(config: GlobalConfig, def: StructDef, plan: TransformPlan, j: int)
    requires
        is_plan_for(config, def, plan),
        0 <= j < def.fields@.len(),
        is_packable(def.fields@[j]),
    ensures
        bit_rank(def.fields@, j) < plan.accessors@.len(),
        plan.accessors@[bit_rank(def.fields@, j) as int].flag_index == j,
        plan.accessors@[bit_rank(def.fields@, j) as int].bit_position == bit_rank(def.fields@, j),
{
    lemma_rank_finds_flag(def.fields@, j);
    let k = bit_rank(def.fields@, j) as int;
    assert(accessor_matches(config, def.fields@, k, plan.accessors@[k]));
}

/// Inserting a field that is not packed (a non-`bool` one, say) at any place,
/// or, read the other way, removing one, changes no packed field's bit: each
/// field keeps its rank, at its shifted position.
pub proof fn lemma_insert_keeps_ranks(fields: Seq<Field>, i: int, g: Field, j: int)
    requires
        0 <= i <= fields.len(),
        !is_packable(g),
        0 <= j < fields.len(),
    ensures
        j < i ==> fields.insert(i, g)[j] == fields[j] && bit_rank(fields.insert(i, g), j)
            == bit_rank(fields, j),
        j >= i ==> fields.insert(i, g)[j + 1] == fields[j] && bit_rank(fields.insert(i, g), j + 1)
            == bit_rank(fields, j),
{
    let grown = fields.insert(i, g);
    if j < i {
        assert(grown.take(j) =~= fields.take(j));
    } else {
        assert(grown.take(j + 1) =~= fields.take(j).insert(i, g));
        lemma_insert_adds_no_flag(fields.take(j), i, g);
    }
}

/// In a plan, a setter followed by the getter of the same flag reads the value
/// written, a setter leaves every other flag's value as it was, and the
/// container value stays within the container's width.
pub proof fn lemma_round_trip(
    config: GlobalConfig,
    def: StructDef,
    plan: TransformPlan,
    container: u128,
    k: int,
    other: int,
    value: bool,
)
    requires
        is_plan_for(config, def, plan),
        0 <= k < plan.accessors@.len(),
        0 <= other < plan.accessors@.len(),
        fits(container, plan.packed_type.width() as u32),
    ensures
        bit_set(
            with_bit(container, plan.accessors@[k].bit_position, value),
            plan.accessors@[k].bit_position,
        ) == value,
        other != k ==> bit_set(
            with_bit(container, plan.accessors@[k].bit_position, value),
            plan.accessors@[other].bit_position,
        ) == bit_set(container, plan.accessors@[other].bit_position),
        fits(
            with_bit(container, plan.accessors@[k].bit_position, value),
            plan.packed_type.width() as u32,
        ),
{
    let fields = def.fields@;
    assert(accessor_matches(config, fields, k, plan.accessors@[k]));
    assert(accessor_matches(config, fields, other, plan.accessors@[other]));
    let width = plan.packed_type.width();
    assert(width >= plan.accessors@.len());
    assert(width <= 128);
    let pos = plan.accessors@[k].bit_position;
    lemma_get_after_set(container, pos, value);
    if other != k {
        lemma_set_keeps_others(container, pos, plan.accessors@[other].bit_position, value);
    }
    lemma_set_keeps_width(container, pos, width as u32, value);
}

/// With a wrapper type, the default value is the OR of `1 << k` over the flags
/// `k` that default to `true`: bit `k` is set exactly where flag `k` defaults
/// to `true`, and no other bit is set.
pub proof fn lemma_default_bits(config: GlobalConfig, def: StructDef, plan: TransformPlan)
    requires
        is_plan_for(config, def, plan),
        config.gen_type is NewType,
    ensures
        plan.default_bits matches Some(bits) && forall|k: u32|
            k < 128 ==> #[trigger] bit_set(bits, k) == (k < plan.accessors@.len()
                && local_of(def.fields@[plan.accessors@[k as int].flag_index as int]).default),
{
    let fields = def.fields@;
    let defaults = flag_defaults(fields);
    assert(plan.packed_type.width() <= 128);
    lemma_default_mask_bits(defaults);
    assert forall|k: u32| k < plan.accessors@.len() implies defaults[k as int] == local_of(
        fields[plan.accessors@[k as int].flag_index as int],
    ).default by {
        assert(accessor_matches(config, fields, k as int, plan.accessors@[k as int]));
    }
}

/// With an inline container, a struct whose options are otherwise fine but
/// where some flag defaults to `true` is rejected with `InvalidDefault`.
pub proof fn lemma_inline_default_rejected(config: GlobalConfig, def: StructDef, k: int)
    requires
        config.gen_type is Inline,
        first_field_error(def.fields@) is None,
        config.packed_type.chosen(flag_indices(def.fields@).len() as int) is Ok,
        0 <= k < flag_defaults(def.fields@).len(),
        flag_defaults(def.fields@)[k],
    ensures
        plan_error(config, def) matches Some(e) && e.kind == ErrorKind::InvalidDefault,
{
    lemma_first_true_found(flag_defaults(def.fields@), k);
}

/// Where some position holds `true`, there is a first one.
proof fn lemma_first_true_found(s: Seq<bool>, k: int)
    requires
        0 <= k < s.len(),
        s[k],
    ensures
        first_true(s) is Some,
    decreases s.len(),
{
    if k < s.len() - 1 {
        lemma_first_true_found(s.drop_last(), k);
    }
}

/// With a wrapper type, where flag `k` alone defaults to `true`, the default
/// value has bit `k` alone set.
pub proof fn lemma_single_default(config: GlobalConfig, def: StructDef, plan: TransformPlan, k: int)
    requires
        is_plan_for(config, def, plan),
        config.gen_type is NewType,
        0 <= k < flag_defaults(def.fields@).len(),
        flag_defaults(def.fields@)[k],
        forall|i: int|
            0 <= i < flag_defaults(def.fields@).len() && i != k ==> !flag_defaults(def.fields@)[i],
    ensures
        plan.default_bits == Some(1u128 << (k as u32)),
{
    assert(plan.packed_type.width() <= 128);
    lemma_default_mask_single(flag_defaults(def.fields@), k);
}

/// Every flag position lies inside the struct.
pub proof fn lemma_flag_indices_bounded(fields: Seq<Field>)
    ensures
        forall|k: int|
            0 <= k < flag_indices(fields).len() ==> 0 <= #[trigger] flag_indices(fields)[k]
                < fields.len(),
    decreases fields.len(),
{
    if fields.len() > 0 {
        let rest = fields.drop_last();
        lemma_flag_indices_bounded(rest);
        assert forall|k: int|
            0 <= k < flag_indices(fields).len() implies 0 <= #[trigger] flag_indices(fields)[k]
                < fields.len() by {
            if k < flag_indices(rest).len() {
                assert(flag_indices(fields)[k] == flag_indices(rest)[k]);
            }
        }
    }
}

/// An error found in a prefix of the fields is the first error of all of them.
proof fn lemma_first_error_prefix(fields: Seq<Field>, i: int)
    requires
        0 <= i <= fields.len(),
        first_field_error(fields.take(i)) is Some,
    ensures
        first_field_error(fields) == first_field_error(fields.take(i)),
    decreases fields.len() - i,
{
    if i < fields.len() {
        let rest = fields.drop_last();
        assert(rest.take(i) =~= fields.take(i));
        lemma_first_error_prefix(rest, i);
    } else {
        assert(fields.take(i) =~= fields);
    }
}

/// A `true` found in a prefix is the first `true` of the whole sequence.
proof fn lemma_first_true_prefix(s: Seq<bool>, i: int)
    requires
        0 <= i <= s.len(),
        first_true(s.take(i)) is Some,
    ensures
        first_true(s) == first_true(s.take(i)),
    decreases s.len() - i,
{
    if i < s.len() {
        let rest = s.drop_last();
        assert(rest.take(i) =~= s.take(i));
        lemma_first_true_prefix(rest, i);
    } else {
        assert(s.take(i) =~= s);
    }
}

} // verus!
