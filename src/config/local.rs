use vstd::prelude::*;

use crate::config::Visibility;
use crate::error::ErrorKind;
use crate::template::same_text;

verus! {

/// The options given to one boolean field.
#[derive(Debug)]
pub struct Config {
    pub getter: Accessor,
    pub setter: Accessor,
    /// The field is left out of the packing and kept as it is.
    pub skip: bool,
    /// The flag's value in the container's default.
    pub default: bool,
}

impl Config {
    /// The options of a field that sets none.
    pub open spec fn spec_default() -> Config {
        Config { getter: Accessor::Default, setter: Accessor::Default, skip: false, default: false }
    }

    /// These options with `modifiers` applied in turn.
    pub fn with_modifiers(self, modifiers: Vec<Modifier>) -> (r: Config)
        ensures
            r == apply_modifiers(self, modifiers@),
    {
        let mut config = self;
        let mut rest = modifiers;
        let ghost all = modifiers@;
        while rest.len() > 0
            invariant
                apply_modifiers(config, rest@) == apply_modifiers(self, all),
            decreases rest@.len(),
        {
            let ghost before = rest@;
            let m = rest.remove(0);
            assert(before.drop_first() =~= rest@);
            m.modify(&mut config);
        }
        config
    }
}

impl Default for Config {
    fn default() -> (r: Self)
        ensures
            r == Config::spec_default(),
    {
        Config { getter: Accessor::Default, setter: Accessor::Default, skip: false, default: false }
    }
}

impl Clone for Config {
    fn clone(&self) -> (r: Self)
        ensures
            r == *self,
    {
        Config {
            getter: self.getter.clone(),
            setter: self.setter.clone(),
            skip: self.skip,
            default: self.default,
        }
    }
}

/// A field's choice for one of its accessors.
#[derive(Debug)]
pub enum Accessor {
    /// Follow the struct-wide policy.
    Default,
    /// An accessor with this visibility, and this name if one is given.
    Custom(VisibilityIdent),
    /// No accessor.
    Skip,
}

impl Clone for Accessor {
    fn clone(&self) -> (r: Self)
        ensures
            r == *self,
    {
        match self {
            Accessor::Default => Accessor::Default,
            Accessor::Custom(custom) => Accessor::Custom(custom.clone()),
            Accessor::Skip => Accessor::Skip,
        }
    }
}

/// A visibility, and an explicit name where one is given.
#[derive(Debug)]
pub struct VisibilityIdent {
    pub visibility: Visibility,
    pub ident: Option<String>,
}

impl Clone for VisibilityIdent {
    fn clone(&self) -> (r: Self)
        ensures
            r == *self,
    {
        VisibilityIdent {
            visibility: self.visibility.clone(),
            ident: match &self.ident {
                Some(name) => Some(name.clone()),
                None => None,
            },
        }
    }
}

impl VisibilityIdent {
    pub fn get_parts(&self) -> (r: (&Visibility, Option<&String>))
        ensures
            *r.0 == self.visibility,
            match r.1 {
                Some(name) => self.ident == Some(*name),
                None => self.ident is None,
            },
    {
        (&self.visibility, self.ident.as_ref())
    }
}

/// `config` with each of `modifiers` applied in turn, from the first.
pub open spec fn apply_modifiers(config: Config, modifiers: Seq<Modifier>) -> Config
    decreases modifiers.len(),
{
    if modifiers.len() == 0 {
        config
    } else {
        apply_modifiers(modifiers[0].applied_to(config), modifiers.drop_first())
    }
}

/// One option of a field.
#[derive(Debug)]
pub enum Modifier {
    Skip,
    Getter(VisibilityIdent),
    NoGetter,
    Setter(VisibilityIdent),
    NoSetter,
    SetDefault(bool),
}

impl Modifier {
    /// `target` with this option set.
    pub open spec fn applied_to(self, target: Config) -> Config {
        match self {
            Modifier::Skip => Config { skip: true, ..target },
            Modifier::Getter(g) => Config { getter: Accessor::Custom(g), ..target },
            Modifier::NoGetter => Config { getter: Accessor::Skip, ..target },
            Modifier::Setter(s) => Config { setter: Accessor::Custom(s), ..target },
            Modifier::NoSetter => Config { setter: Accessor::Skip, ..target },
            Modifier::SetDefault(v) => Config { default: v, ..target },
        }
    }

    pub fn modify(self, target: &mut Config)
        ensures
            *final(target) == self.applied_to(*old(target)),
    {
        match self {
            Modifier::Skip => target.skip = true,
            Modifier::Getter(g) => target.getter = Accessor::Custom(g),
            Modifier::NoGetter => target.getter = Accessor::Skip,
            Modifier::Setter(s) => target.setter = Accessor::Custom(s),
            Modifier::NoSetter => target.setter = Accessor::Skip,
            Modifier::SetDefault(v) => target.default = v,
        }
    }
}

/// The names of a field's options, aliases folded together.
#[derive(Debug, Clone, Copy, PartialEq, Eq, Structural)]
pub enum LocalKey {
    Skip,
    Getter,
    NoGetter,
    Setter,
    NoSetter,
    Default,
}

/// The field option that `name` names.
pub open spec fn local_key(name: Seq<char>) -> Option<LocalKey> {
    if name == "getter"@ || name == "get"@ {
        Some(LocalKey::Getter)
    } else if name == "setter"@ || name == "set"@ {
        Some(LocalKey::Setter)
    } else if name == "no_get"@ || name == "no_getter"@ {
        Some(LocalKey::NoGetter)
    } else if name == "no_set"@ || name == "no_setter"@ {
        Some(LocalKey::NoSetter)
    } else if name == "skip"@ {
        Some(LocalKey::Skip)
    } else if name == "default"@ {
        Some(LocalKey::Default)
    } else {
        None
    }
}

impl LocalKey {
    pub fn from_name(name: &str) -> (r: Result<LocalKey, ErrorKind>)
        ensures
            r == match local_key(name@) {
                Some(k) => Ok(k),
                None => Err(ErrorKind::UnknownOption),
            },
    {
        if same_text(name, "getter") || same_text(name, "get") {
            Ok(LocalKey::Getter)
        } else if same_text(name, "setter") || same_text(name, "set") {
            Ok(LocalKey::Setter)
        } else if same_text(name, "no_get") || same_text(name, "no_getter") {
            Ok(LocalKey::NoGetter)
        } else if same_text(name, "no_set") || same_text(name, "no_setter") {
            Ok(LocalKey::NoSetter)
        } else if same_text(name, "skip") {
            Ok(LocalKey::Skip)
        } else if same_text(name, "default") {
            Ok(LocalKey::Default)
        } else {
            Err(ErrorKind::UnknownOption)
        }
    }
}

/// Reads the value of a `default` option: `true` or `false`.
pub fn default_value(name: &str) -> (r: Result<bool, ErrorKind>)
    ensures
        r == if name@ == "true"@ {
            Ok(true)
        } else if name@ == "false"@ {
            Ok(false)
        } else {
            Err(ErrorKind::UnknownOption)
        },
{
    if same_text(name, "true") {
        Ok(true)
    } else if same_text(name, "false") {
        Ok(false)
    } else {
        Err(ErrorKind::UnknownOption)
    }
}

} // verus!
