use vstd::prelude::*;

use crate::error::{ErrorKind, WidthChoice};

verus! {

/// The integer types that can hold a struct's flags.
#[derive(Debug, Clone, Copy, PartialEq, Eq, Structural)]
pub enum PackedType {
    U8,
    U16,
    U32,
    U64,
    U128,
}

/// The narrowest supported type with at least `length` bits.
pub open spec fn smallest_fitting(length: int) -> Option<PackedType> {
    if length <= 8 {
        Some(PackedType::U8)
    } else if length <= 16 {
        Some(PackedType::U16)
    } else if length <= 32 {
        Some(PackedType::U32)
    } else if length <= 64 {
        Some(PackedType::U64)
    } else if length <= 128 {
        Some(PackedType::U128)
    } else {
        None
    }
}

/// The type picked for `length` flags is the narrowest of all that hold them,
/// and there is none only where no type holds them.
pub proof fn lemma_smallest_fitting(length: int)
    ensures
        match smallest_fitting(length) {
            Some(t) => t.width() >= length && forall|u: PackedType|
                u.width() >= length ==> t.width() <= #[trigger] u.width(),
            None => forall|u: PackedType| #[trigger] u.width() < length,
        },
{
}

impl PackedType {
    /// The number of bits of this type.
    pub open spec fn width(self) -> nat {
        match self {
            PackedType::U8 => 8,
            PackedType::U16 => 16,
            PackedType::U32 => 32,
            PackedType::U64 => 64,
            PackedType::U128 => 128,
        }
    }

    /// The supported types, narrowest first.
    pub open spec fn table() -> Seq<PackedType> {
        seq![PackedType::U8, PackedType::U16, PackedType::U32, PackedType::U64, PackedType::U128]
    }

    pub fn bit_width(self) -> (r: u8)
        ensures
            r == self.width(),
    {
        match self {
            PackedType::U8 => 8,
            PackedType::U16 => 16,
            PackedType::U32 => 32,
            PackedType::U64 => 64,
            PackedType::U128 => 128,
        }
    }

    /// The narrowest type with at least `length` bits, found by walking the
    /// table of types from the narrowest.
    pub fn smallest_larger_than(length: usize) -> (r: Option<Self>)
        ensures
            r == smallest_fitting(length as int),
            match r {
                Some(t) => t.width() >= length && forall|u: PackedType|
                    u.width() >= length ==> t.width() <= #[trigger] u.width(),
                None => forall|u: PackedType| #[trigger] u.width() < length,
            },
    {
        proof {
            lemma_smallest_fitting(length as int);
        }
        let table = [
            PackedType::U8,
            PackedType::U16,
            PackedType::U32,
            PackedType::U64,
            PackedType::U128,
        ];
        assert(table@ == Self::table());
        let mut i: usize = 0;
        while i < 5
            invariant
                i <= 5,
                table@ == Self::table(),
                forall|k: int| 0 <= k < i ==> (#[trigger] table@[k]).width() < length,
            decreases 5 - i,
        {
            if table[i].bit_width() as usize >= length {
                return Some(table[i]);
            }
            i += 1;
        }
        None
    }
}

/// How the width of the container is chosen.
#[derive(Debug, Clone, Copy, PartialEq, Eq, Structural)]
pub enum PackingStrategy {
    /// The narrowest type that holds all flags.
    Auto,
    /// The type given, which must hold all flags.
    FixedType(PackedType),
}

impl PackingStrategy {
    /// The type this strategy gives for `length` flags, or why there is none.
    pub open spec fn chosen(self, length: int) -> Result<PackedType, ErrorKind> {
        match self {
            PackingStrategy::Auto => match smallest_fitting(length) {
                Some(t) => Ok(t),
                None => Err(ErrorKind::OutOfRange(WidthChoice::Auto)),
            },
            PackingStrategy::FixedType(t) => if t.width() < length {
                Err(ErrorKind::OutOfRange(WidthChoice::Declared))
            } else {
                Ok(t)
            },
        }
    }

    pub fn to_packed_type(&self, length: usize) -> (r: Result<PackedType, ErrorKind>)
        ensures
            r == self.chosen(length as int),
    {
        match self {
            PackingStrategy::Auto => match PackedType::smallest_larger_than(length) {
                Some(t) => Ok(t),
                None => Err(ErrorKind::OutOfRange(WidthChoice::Auto)),
            },
            PackingStrategy::FixedType(t) => {
                let t = *t;
                if (t.bit_width() as usize) < length {
                    Err(ErrorKind::OutOfRange(WidthChoice::Declared))
                } else {
                    Ok(t)
                }
            },
        }
    }

    /// Reads a type option: `auto`, or one of the unsigned integer types.
    pub fn from_name(name: &str) -> (r: Result<PackingStrategy, ErrorKind>)
        ensures
            r == match strategy_named(name@) {
                Some(s) => Ok(s),
                None => Err(ErrorKind::UnknownOption),
            },
    {
        if crate::template::same_text(name, "u8") {
            Ok(PackingStrategy::FixedType(PackedType::U8))
        } else if crate::template::same_text(name, "u16") {
            Ok(PackingStrategy::FixedType(PackedType::U16))
        } else if crate::template::same_text(name, "u32") {
            Ok(PackingStrategy::FixedType(PackedType::U32))
        } else if crate::template::same_text(name, "u64") {
            Ok(PackingStrategy::FixedType(PackedType::U64))
        } else if crate::template::same_text(name, "u128") {
            Ok(PackingStrategy::FixedType(PackedType::U128))
        } else if crate::template::same_text(name, "auto") {
            Ok(PackingStrategy::Auto)
        } else {
            Err(ErrorKind::UnknownOption)
        }
    }
}

/// The strategy that a type option names.
pub open spec fn strategy_named(name: Seq<char>) -> Option<PackingStrategy> {
    if name == "u8"@ {
        Some(PackingStrategy::FixedType(PackedType::U8))
    } else if name == "u16"@ {
        Some(PackingStrategy::FixedType(PackedType::U16))
    } else if name == "u32"@ {
        Some(PackingStrategy::FixedType(PackedType::U32))
    } else if name == "u64"@ {
        Some(PackingStrategy::FixedType(PackedType::U64))
    } else if name == "u128"@ {
        Some(PackingStrategy::FixedType(PackedType::U128))
    } else if name == "auto"@ {
        Some(PackingStrategy::Auto)
    } else {
        None
    }
}

} // verus!
