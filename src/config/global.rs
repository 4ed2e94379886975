use vstd::prelude::*;

use crate::config::Visibility;
use crate::error::ErrorKind;
use crate::packing::PackingStrategy;
use crate::template::{same_text, Template};

verus! {

/// The options that hold for a whole struct.
#[derive(Debug)]
pub struct Config {
    pub getter: VisibilityTemplate,
    pub skip_getter: bool,
    pub setter: VisibilityTemplate,
    pub skip_setter: bool,
    pub packed_type: PackingStrategy,
    pub field_name: FieldName,
    pub gen_type: GenType,
}

/// The name of the field that holds the packed flags.
#[derive(Debug)]
pub struct FieldName(pub String);

/// How the packed field is typed.
#[derive(Debug)]
pub enum GenType {
    /// The field has the integer type itself.
    Inline,
    /// The field has a one-field wrapper type, of the given name or else one made
    /// from the struct's name.
    NewType(Option<String>),
}

impl GenType {
    pub fn is_inline(&self) -> (r: bool)
        ensures
            r == (*self is Inline),
    {
        matches!(self, GenType::Inline)
    }

    pub fn is_newtype(&self) -> (r: bool)
        ensures
            r == (*self is NewType),
    {
        !self.is_inline()
    }
}

impl Clone for GenType {
    fn clone(&self) -> (r: Self)
        ensures
            r == *self,
    {
        match self {
            GenType::Inline => GenType::Inline,
            GenType::NewType(None) => GenType::NewType(None),
            GenType::NewType(Some(name)) => GenType::NewType(Some(name.clone())),
        }
    }
}

/// A visibility and a name template for one kind of accessor.
#[derive(Debug)]
pub struct VisibilityTemplate {
    pub visibility: Visibility,
    pub template: Template,
}

impl VisibilityTemplate {
    /// The visibility and the name that the template makes of `field`.
    pub fn get_formatted_parts(&self, field: &str) -> (r: (&Visibility, String))
        ensures
            *r.0 == self.visibility,
            r.1@ == self.template.apply(field@),
    {
        (&self.visibility, self.template.format(field))
    }
}

/// A change to a `VisibilityTemplate`: a new visibility, and a new template
/// where one is given.
#[derive(Debug)]
pub struct UpdateVisibilityTemplate {
    pub visibility: Visibility,
    pub template: Option<Template>,
}

impl UpdateVisibilityTemplate {
    /// `target` with this change made.
    pub open spec fn applied_to(self, target: VisibilityTemplate) -> VisibilityTemplate {
        VisibilityTemplate {
            visibility: self.visibility,
            template: match self.template {
                Some(t) => t,
                None => target.template,
            },
        }
    }

    pub fn update(self, target: &mut VisibilityTemplate)
        ensures
            *final(target) == self.applied_to(*old(target)),
    {
        target.visibility = self.visibility;
        if let Some(t) = self.template {
            target.template = t;
        }
    }
}

impl Config {
    /// The options of a struct that sets none: accessors `get_%` and `set_%`
    /// with the field's visibility, the narrowest type, a field named
    /// `packed_bools`, inline.
    pub open spec fn is_default(&self) -> bool {
        &&& self.getter.visibility is Inherit
        &&& self.getter.template.before@ == "get_"@
        &&& self.getter.template.after@.len() == 0
        &&& !self.skip_getter
        &&& self.setter.visibility is Inherit
        &&& self.setter.template.before@ == "set_"@
        &&& self.setter.template.after@.len() == 0
        &&& !self.skip_setter
        &&& self.packed_type == PackingStrategy::Auto
        &&& self.field_name.0@ == "packed_bools"@
        &&& self.gen_type is Inline
    }

    /// These options with `modifiers` applied in turn.
    pub fn with_modifiers(self, modifiers: Vec<Modifier>) -> (r: Config)
        ensures
            r == apply_modifiers(self, modifiers@),
    {
        let mut config = self;
        let mut rest = modifiers;
        let ghost all = modifiers@;
        while rest.len() > 0
            invariant
                apply_modifiers(config, rest@) == apply_modifiers(self, all),
            decreases rest@.len(),
        {
            let ghost before = rest@;
            let m = rest.remove(0);
            assert(before.drop_first() =~= rest@);
            m.modify(&mut config);
        }
        config
    }
}

impl Default for Config {
    fn default() -> (r: Self)
        ensures
            r.is_default(),
    {
        proof {
            reveal_strlit("");
        }
        Config {
            getter: VisibilityTemplate {
                template: Template::from_str("get_", ""),
                visibility: Visibility::Inherit,
            },
            skip_getter: false,
            setter: VisibilityTemplate {
                template: Template::from_str("set_", ""),
                visibility: Visibility::Inherit,
            },
            skip_setter: false,
            packed_type: PackingStrategy::Auto,
            field_name: FieldName("packed_bools".to_owned()),
            gen_type: GenType::Inline,
        }
    }
}

/// `config` with each of `modifiers` applied in turn, from the first.
pub open spec fn apply_modifiers(config: Config, modifiers: Seq<Modifier>) -> Config
    decreases modifiers.len(),
{
    if modifiers.len() == 0 {
        config
    } else {
        apply_modifiers(modifiers[0].applied_to(config), modifiers.drop_first())
    }
}

/// One struct-wide option.
#[derive(Debug)]
pub enum Modifier {
    Getters(UpdateVisibilityTemplate),
    Setters(UpdateVisibilityTemplate),
    NoGetters,
    NoSetters,
    Type(PackingStrategy),
    GenType(GenType),
    Field(FieldName),
}

impl Modifier {
    /// `target` with this option set.
    pub open spec fn applied_to(self, target: Config) -> Config {
        match self {
            Modifier::Getters(g) => Config { getter: g.applied_to(target.getter), ..target },
            Modifier::NoGetters => Config { skip_getter: true, ..target },
            Modifier::Setters(s) => Config { setter: s.applied_to(target.setter), ..target },
            Modifier::NoSetters => Config { skip_setter: true, ..target },
            Modifier::Type(t) => Config { packed_type: t, ..target },
            Modifier::GenType(gt) => Config { gen_type: gt, ..target },
            Modifier::Field(f) => Config { field_name: f, ..target },
        }
    }

    pub fn modify(self, target: &mut Config)
        ensures
            *final(target) == self.applied_to(*old(target)),
    {
        match self {
            Modifier::Getters(g) => g.update(&mut target.getter),
            Modifier::NoGetters => target.skip_getter = true,
            Modifier::Setters(s) => s.update(&mut target.setter),
            Modifier::NoSetters => target.skip_setter = true,
            Modifier::Type(t) => target.packed_type = t,
            Modifier::GenType(gt) => target.gen_type = gt,
            Modifier::Field(f) => target.field_name = f,
        }
    }
}

/// The names of struct-wide options, aliases folded together.
#[derive(Debug, Clone, Copy, PartialEq, Eq, Structural)]
pub enum GlobalKey {
    Getters,
    Setters,
    NoGetters,
    NoSetters,
    Type,
    Inline,
    NewType,
    Field,
}

/// The struct-wide option that `name` names.
pub open spec fn global_key(name: Seq<char>) -> Option<GlobalKey> {
    if name == "getters"@ || name == "getter"@ || name == "get"@ {
        Some(GlobalKey::Getters)
    } else if name == "setters"@ || name == "setter"@ || name == "set"@ {
        Some(GlobalKey::Setters)
    } else if name == "no_get"@ || name == "no_getter"@ || name == "no_getters"@ {
        Some(GlobalKey::NoGetters)
    } else if name == "no_set"@ || name == "no_setter"@ || name == "no_setters"@ {
        Some(GlobalKey::NoSetters)
    } else if name == "type"@ {
        Some(GlobalKey::Type)
    } else if name == "inline"@ {
        Some(GlobalKey::Inline)
    } else if name == "newtype"@ {
        Some(GlobalKey::NewType)
    } else if name == "field"@ {
        Some(GlobalKey::Field)
    } else {
        None
    }
}

impl GlobalKey {
    pub fn from_name(name: &str) -> (r: Result<GlobalKey, ErrorKind>)
        ensures
            r == match global_key(name@) {
                Some(k) => Ok(k),
                None => Err(ErrorKind::UnknownOption),
            },
    {
        if same_text(name, "getters") || same_text(name, "getter") || same_text(name, "get") {
            Ok(GlobalKey::Getters)
        } else if same_text(name, "setters") || same_text(name, "setter") || same_text(
            name,
            "set",
        ) {
            Ok(GlobalKey::Setters)
        } else if same_text(name, "no_get") || same_text(name, "no_getter") || same_text(
            name,
            "no_getters",
        ) {
            Ok(GlobalKey::NoGetters)
        } else if same_text(name, "no_set") || same_text(name, "no_setter") || same_text(
            name,
            "no_setters",
        ) {
            Ok(GlobalKey::NoSetters)
        } else if same_text(name, "type") {
            Ok(GlobalKey::Type)
        } else if same_text(name, "inline") {
            Ok(GlobalKey::Inline)
        } else if same_text(name, "newtype") {
            Ok(GlobalKey::NewType)
        } else if same_text(name, "field") {
            Ok(GlobalKey::Field)
        } else {
            Err(ErrorKind::UnknownOption)
        }
    }
}

} // verus!
