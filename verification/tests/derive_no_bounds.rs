//! `Debug`, `Clone`, `Eq` and `PartialEq` for types whose parameters carry no
//! bounds; each impl is written out by hand.

use core::fmt;
use core::marker::PhantomData;

/// Prints as the bare word it holds.
struct Bare(&'static str);

impl fmt::Debug for Bare {
    fn fmt(&self, fmt: &mut fmt::Formatter) -> fmt::Result {
        fmt.write_str(self.0)
    }
}

pub struct Foo;

impl fmt::Debug for Foo {
    fn fmt(&self, fmt: &mut fmt::Formatter) -> fmt::Result {
        fmt.write_str("<stripped>")
    }
}

#[test]
fn foo_debug_stripped() {
    assert_eq!(format!("{:?}", Foo), String::from("<stripped>"));
}

trait Trait {
    type C: std::fmt::Debug + Clone + Eq + PartialEq;
}

struct Runtime;
struct ImplNone;

impl Trait for Runtime {
    type C = u32;
}

struct StructNamed<T: Trait, U, V> {
    a: u32,
    b: u64,
    c: T::C,
    phantom: PhantomData<(U, V)>,
}

impl<T: Trait, U, V> Clone for StructNamed<T, U, V> {
    fn clone(&self) -> Self {
        Self { a: self.a.clone(), b: self.b.clone(), c: self.c.clone(), phantom: PhantomData }
    }
}

impl<T: Trait, U, V> PartialEq for StructNamed<T, U, V> {
    fn eq(&self, other: &Self) -> bool {
        self.a == other.a && self.b == other.b && self.c == other.c
    }
}

impl<T: Trait, U, V> Eq for StructNamed<T, U, V> {}

impl<T: Trait, U, V> fmt::Debug for StructNamed<T, U, V> {
    fn fmt(&self, fmt: &mut fmt::Formatter) -> fmt::Result {
        fmt.debug_struct("StructNamed")
            .field("a", &self.a)
            .field("b", &self.b)
            .field("c", &self.c)
            .field("phantom", &Bare("PhantomData"))
            .finish()
    }
}

#[test]
fn test_struct_named() {
    let a_1 = StructNamed::<Runtime, ImplNone, ImplNone> {
        a: 1,
        b: 2,
        c: 3,
        phantom: Default::default(),
    };

    let a_2 = a_1.clone();
    assert_eq!(a_2.a, 1);
    assert_eq!(a_2.b, 2);
    assert_eq!(a_2.c, 3);
    assert_eq!(a_2, a_1);
    assert_eq!(
        format!("{:?}", a_1),
        String::from("StructNamed { a: 1, b: 2, c: 3, phantom: PhantomData }")
    );

    let b = StructNamed::<Runtime, ImplNone, ImplNone> {
        a: 1,
        b: 2,
        c: 4,
        phantom: Default::default(),
    };

    assert!(b != a_1);
}

struct StructUnnamed<T: Trait, U, V>(u32, u64, T::C, PhantomData<(U, V)>);

impl<T: Trait, U, V> Clone for StructUnnamed<T, U, V> {
    fn clone(&self) -> Self {
        Self(self.0.clone(), self.1.clone(), self.2.clone(), PhantomData)
    }
}

impl<T: Trait, U, V> PartialEq for StructUnnamed<T, U, V> {
    fn eq(&self, other: &Self) -> bool {
        self.0 == other.0 && self.1 == other.1 && self.2 == other.2
    }
}

impl<T: Trait, U, V> Eq for StructUnnamed<T, U, V> {}

impl<T: Trait, U, V> fmt::Debug for StructUnnamed<T, U, V> {
    fn fmt(&self, fmt: &mut fmt::Formatter) -> fmt::Result {
        fmt.debug_tuple("StructUnnamed")
            .field(&self.0)
            .field(&self.1)
            .field(&self.2)
            .field(&Bare("PhantomData"))
            .finish()
    }
}

#[test]
fn test_struct_unnamed() {
    let a_1 = StructUnnamed::<Runtime, ImplNone, ImplNone>(
        1,
        2,
        3,
        Default::default(),
    );

    let a_2 = a_1.clone();
    assert_eq!(a_2.0, 1);
    assert_eq!(a_2.1, 2);
    assert_eq!(a_2.2, 3);
    assert_eq!(a_2, a_1);
    assert_eq!(
        format!("{:?}", a_1),
        String::from("StructUnnamed(1, 2, 3, PhantomData)")
    );

    let b = StructUnnamed::<Runtime, ImplNone, ImplNone>(
        1,
        2,
        4,
        Default::default(),
    );

    assert!(b != a_1);
}

enum Enum<T: Trait, U, V> {
    VariantUnnamed(u32, u64, T::C, PhantomData<(U, V)>),
    VariantNamed {
        a: u32,
        b: u64,
        c: T::C,
        phantom: PhantomData<(U, V)>,
    },
    VariantUnit,
    VariantUnit2,
}

impl<T: Trait, U, V> Clone for Enum<T, U, V> {
    fn clone(&self) -> Self {
        match self {
            Self::VariantUnnamed(a, b, c, _) => {
                Self::VariantUnnamed(a.clone(), b.clone(), c.clone(), PhantomData)
            }
            Self::VariantNamed { a, b, c, .. } => {
                Self::VariantNamed { a: a.clone(), b: b.clone(), c: c.clone(), phantom: PhantomData }
            }
            Self::VariantUnit => Self::VariantUnit,
            Self::VariantUnit2 => Self::VariantUnit2,
        }
    }
}

impl<T: Trait, U, V> PartialEq for Enum<T, U, V> {
    fn eq(&self, other: &Self) -> bool {
        match (self, other) {
            (Self::VariantUnnamed(a, b, c, _), Self::VariantUnnamed(x, y, z, _)) => {
                a == x && b == y && c == z
            }
            (
                Self::VariantNamed { a, b, c, .. },
                Self::VariantNamed { a: x, b: y, c: z, .. },
            ) => a == x && b == y && c == z,
            (Self::VariantUnit, Self::VariantUnit) => true,
            (Self::VariantUnit2, Self::VariantUnit2) => true,
            _ => false,
        }
    }
}

impl<T: Trait, U, V> Eq for Enum<T, U, V> {}

impl<T: Trait, U, V> fmt::Debug for Enum<T, U, V> {
    fn fmt(&self, fmt: &mut fmt::Formatter) -> fmt::Result {
        match self {
            Self::VariantUnnamed(a, b, c, _) => fmt
                .debug_tuple("Enum::VariantUnnamed")
                .field(a)
                .field(b)
                .field(c)
                .field(&Bare("PhantomData"))
                .finish(),
            Self::VariantNamed { a, b, c, .. } => fmt
                .debug_struct("Enum::VariantNamed")
                .field("a", a)
                .field("b", b)
                .field("c", c)
                .field("phantom", &Bare("PhantomData"))
                .finish(),
            Self::VariantUnit => fmt.write_str("Enum::VariantUnit"),
            Self::VariantUnit2 => fmt.write_str("Enum::VariantUnit2"),
        }
    }
}

#[test]
fn test_enum() {
    let variant_0 = Enum::<Runtime, ImplNone, ImplNone>::VariantUnnamed(1, 2, 3, Default::default());
    let variant_0_bis = Enum::<Runtime, ImplNone, ImplNone>::VariantUnnamed(1, 2, 4, Default::default());
    let variant_1 = Enum::<Runtime, ImplNone, ImplNone>::VariantNamed { a: 1, b: 2, c: 3, phantom: Default::default() };
    let variant_1_bis = Enum::<Runtime, ImplNone, ImplNone>::VariantNamed { a: 1, b: 2, c: 4, phantom: Default::default() };
    let variant_2 = Enum::<Runtime, ImplNone, ImplNone>::VariantUnit;
    let variant_3 = Enum::<Runtime, ImplNone, ImplNone>::VariantUnit2;

    assert!(variant_0 != variant_0_bis);
    assert!(variant_1 != variant_1_bis);
    assert!(variant_0 != variant_1);
    assert!(variant_0 != variant_2);
    assert!(variant_0 != variant_3);
    assert!(variant_1 != variant_0);
    assert!(variant_1 != variant_2);
    assert!(variant_1 != variant_3);
    assert!(variant_2 != variant_0);
    assert!(variant_2 != variant_1);
    assert!(variant_2 != variant_3);
    assert!(variant_3 != variant_0);
    assert!(variant_3 != variant_1);
    assert!(variant_3 != variant_2);

    assert!(variant_0.clone() == variant_0);
    assert!(variant_1.clone() == variant_1);
    assert!(variant_2.clone() == variant_2);
    assert!(variant_3.clone() == variant_3);

    assert_eq!(
        format!("{:?}", variant_0),
        String::from("Enum::VariantUnnamed(1, 2, 3, PhantomData)"),
    );
    assert_eq!(
        format!("{:?}", variant_1),
        String::from("Enum::VariantNamed { a: 1, b: 2, c: 3, phantom: PhantomData }"),
    );
    assert_eq!(
        format!("{:?}", variant_2),
        String::from("Enum::VariantUnit"),
    );
    assert_eq!(
        format!("{:?}", variant_3),
        String::from("Enum::VariantUnit2"),
    );
}
