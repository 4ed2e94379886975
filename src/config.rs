use vstd::prelude::*;

pub mod global;
pub mod local;

pub use global::Config as GlobalConfig;
pub use global::GenType;
pub use local::Config as LocalConfig;

use local::Accessor;

verus! {

/// The visibility asked for an accessor.
#[derive(Debug)]
pub enum Visibility {
    /// The visibility of the field the accessor belongs to.
    Inherit,
    /// `pub`.
    Public,
    /// No modifier.
    Private,
    /// `pub(..)`, holding what stands between the parentheses.
    Restricted(String),
}

impl Clone for Visibility {
    fn clone(&self) -> (r: Self)
        ensures
            r == *self,
    {
        match self {
            Visibility::Inherit => Visibility::Inherit,
            Visibility::Public => Visibility::Public,
            Visibility::Private => Visibility::Private,
            Visibility::Restricted(path) => Visibility::Restricted(path.clone()),
        }
    }
}

impl Visibility {
    /// This visibility, with `Inherit` replaced by the field's own.
    pub open spec fn resolve(self, inherited: Visibility) -> Visibility {
        if self is Inherit {
            inherited
        } else {
            self
        }
    }

    pub fn to_visibility(&self, inherited: &Visibility) -> (r: Visibility)
        ensures
            r == self.resolve(*inherited),
    {
        match self {
            Visibility::Inherit => inherited.clone(),
            _ => self.clone(),
        }
    }
}

/// The visibility and name of one accessor.
#[derive(Debug)]
pub struct Signature {
    pub visibility: Visibility,
    pub name: String,
}

impl Clone for Signature {
    fn clone(&self) -> (r: Self)
        ensures
            r == *self,
    {
        Signature { visibility: self.visibility.clone(), name: self.name.clone() }
    }
}

/// An accessor's visibility and name as values, where there is one.
pub open spec fn signature_view(s: Option<Signature>) -> Option<(Visibility, Seq<char>)> {
    match s {
        Some(sig) => Some((sig.visibility, sig.name@)),
        None => None,
    }
}

/// The accessor that a field's own choice and the struct-wide policy give.
///
/// A field that turns its accessor off gets none. A field with its own
/// accessor gets the visibility it gave and its explicit name, or else the name
/// that the struct-wide template makes. A field with no choice of its own gets
/// the struct-wide visibility and template, unless that policy is turned off.
pub open spec fn resolve_accessor(
    local: Accessor,
    policy: global::VisibilityTemplate,
    suppressed: bool,
    field: Seq<char>,
    inherited: Visibility,
) -> Option<(Visibility, Seq<char>)> {
    match local {
        Accessor::Skip => None,
        Accessor::Custom(custom) => Some(
            (
                custom.visibility.resolve(inherited),
                match custom.ident {
                    Some(name) => name@,
                    None => policy.template.apply(field),
                },
            ),
        ),
        Accessor::Default => if suppressed {
            None
        } else {
            Some((policy.visibility.resolve(inherited), policy.template.apply(field)))
        },
    }
}

/// The struct-wide options together with one field's own.
pub struct CombinedConfig<'a> {
    pub global: &'a GlobalConfig,
    pub local: &'a LocalConfig,
}

impl<'a> CombinedConfig<'a> {
    pub fn new(global: &'a GlobalConfig, local: &'a LocalConfig) -> (r: Self)
        ensures
            *r.global == *global,
            *r.local == *local,
    {
        CombinedConfig { global, local }
    }

    /// The getter of the field named `field_name`, whose own visibility is `inh`.
    pub fn getter(&self, field_name: &str, inh: &Visibility) -> (r: Option<Signature>)
        ensures
            signature_view(r) == resolve_accessor(
                self.local.getter,
                self.global.getter,
                self.global.skip_getter,
                field_name@,
                *inh,
            ),
    {
        resolve(&self.local.getter, &self.global.getter, self.global.skip_getter, field_name, inh)
    }

    /// The setter of the field named `field_name`, whose own visibility is `inh`.
    pub fn setter(&self, field_name: &str, inh: &Visibility) -> (r: Option<Signature>)
        ensures
            signature_view(r) == resolve_accessor(
                self.local.setter,
                self.global.setter,
                self.global.skip_setter,
                field_name@,
                *inh,
            ),
    {
        resolve(&self.local.setter, &self.global.setter, self.global.skip_setter, field_name, inh)
    }
}

/// One accessor of a field, from the field's own choice and the struct-wide
/// policy for that kind of accessor.
fn resolve(
    local: &Accessor,
    policy: &global::VisibilityTemplate,
    suppressed: bool,
    field_name: &str,
    inh: &Visibility,
) -> (r: Option<Signature>)
    ensures
        signature_view(r) == resolve_accessor(*local, *policy, suppressed, field_name@, *inh),
{
    let (vis, name) = match local {
        Accessor::Custom(custom) => {
            let (vis, ident) = custom.get_parts();
            let name = match ident {
                Some(ident) => ident.clone(),
                None => policy.template.format(field_name),
            };
            (vis, name)
        },
        Accessor::Default => {
            if suppressed {
                return None;
            }
            policy.get_formatted_parts(field_name)
        },
        Accessor::Skip => {
            return None;
        },
    };
    Some(Signature { visibility: vis.to_visibility(inh), name })
}

} // verus!
