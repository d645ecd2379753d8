//! Types of the checked language.

use vstd::prelude::*;
use crate::program::Program;

verus! {

/// Identity of a class: its index in the program's class list.
pub type ClassId = usize;

/// Identity of a method declaration.
pub type FuncId = usize;

/// What a type is made of, arrays aside.
#[derive(Clone, Copy, Debug, PartialEq, Eq, Hash, Structural)]
pub enum TyKind {
    Int,
    Bool,
    String,
    Void,
    /// The type of the `null` literal.
    Null,
    /// The type of an expression that could not be typed. It is compatible with
    /// everything, so that one fault is reported once.
    Error,
    /// A class used as a value, as in the qualifier of `Main.f()`.
    Class(ClassId),
    /// An instance of a class.
    Object(ClassId),
    /// A reference to a method.
    Func(FuncId),
}

/// A type: `arr` levels of array around a kind.
#[derive(Clone, Copy, Debug, PartialEq, Eq, Hash, Structural)]
pub struct Ty {
    pub arr: u32,
    pub kind: TyKind,
}

impl TyKind {
    /// Kinds that may be the element of an array.
    pub open spec fn bears_elements(self) -> bool {
        self is Int || self is Bool || self is String || self is Object
    }
}

impl Ty {
    /// Only element-bearing kinds are wrapped in arrays.
    pub open spec fn wf(self) -> bool {
        self.arr > 0 ==> self.kind.bears_elements()
    }

    pub open spec fn spec_new(kind: TyKind) -> Ty {
        Ty { arr: 0, kind }
    }

    /// The type of that kind with no array around it.
    #[verifier::when_used_as_spec(spec_new)]
    pub fn new(kind: TyKind) -> (t: Ty)
        ensures
            t == Ty::spec_new(kind),
            t.wf(),
    {
        Ty { arr: 0, kind }
    }

    pub open spec fn spec_integer() -> Ty {
        Ty { arr: 0, kind: TyKind::Int }
    }

    #[verifier::when_used_as_spec(spec_integer)]
    pub fn integer() -> (t: Ty)
        ensures
            t == Ty::spec_integer(),
    {
        Ty { arr: 0, kind: TyKind::Int }
    }

    pub open spec fn spec_boolean() -> Ty {
        Ty { arr: 0, kind: TyKind::Bool }
    }

    #[verifier::when_used_as_spec(spec_boolean)]
    pub fn boolean() -> (t: Ty)
        ensures
            t == Ty::spec_boolean(),
    {
        Ty { arr: 0, kind: TyKind::Bool }
    }

    pub open spec fn spec_string() -> Ty {
        Ty { arr: 0, kind: TyKind::String }
    }

    #[verifier::when_used_as_spec(spec_string)]
    pub fn string() -> (t: Ty)
        ensures
            t == Ty::spec_string(),
    {
        Ty { arr: 0, kind: TyKind::String }
    }

    pub open spec fn spec_void() -> Ty {
        Ty { arr: 0, kind: TyKind::Void }
    }

    #[verifier::when_used_as_spec(spec_void)]
    pub fn void() -> (t: Ty)
        ensures
            t == Ty::spec_void(),
    {
        Ty { arr: 0, kind: TyKind::Void }
    }

    pub open spec fn spec_null() -> Ty {
        Ty { arr: 0, kind: TyKind::Null }
    }

    #[verifier::when_used_as_spec(spec_null)]
    pub fn null() -> (t: Ty)
        ensures
            t == Ty::spec_null(),
    {
        Ty { arr: 0, kind: TyKind::Null }
    }

    pub open spec fn spec_error() -> Ty {
        Ty { arr: 0, kind: TyKind::Error }
    }

    #[verifier::when_used_as_spec(spec_error)]
    pub fn error() -> (t: Ty)
        ensures
            t == Ty::spec_error(),
    {
        Ty { arr: 0, kind: TyKind::Error }
    }

    pub open spec fn spec_mk_obj(c: ClassId) -> Ty {
        Ty { arr: 0, kind: TyKind::Object(c) }
    }

    /// The type of the instances of class `c`.
    #[verifier::when_used_as_spec(spec_mk_obj)]
    pub fn mk_obj(c: ClassId) -> (t: Ty)
        ensures
            t == Ty::spec_mk_obj(c),
    {
        Ty { arr: 0, kind: TyKind::Object(c) }
    }

    pub open spec fn spec_mk_class(c: ClassId) -> Ty {
        Ty { arr: 0, kind: TyKind::Class(c) }
    }

    /// The type of class `c` used as a value.
    #[verifier::when_used_as_spec(spec_mk_class)]
    pub fn mk_class(c: ClassId) -> (t: Ty)
        ensures
            t == Ty::spec_mk_class(c),
    {
        Ty { arr: 0, kind: TyKind::Class(c) }
    }

    pub open spec fn spec_mk_func(f: FuncId) -> Ty {
        Ty { arr: 0, kind: TyKind::Func(f) }
    }

    /// The type of a reference to method `f`.
    #[verifier::when_used_as_spec(spec_mk_func)]
    pub fn mk_func(f: FuncId) -> (t: Ty)
        ensures
            t == Ty::spec_mk_func(f),
    {
        Ty { arr: 0, kind: TyKind::Func(f) }
    }

    pub open spec fn spec_is_error(&self) -> bool {
        *self == Ty::spec_error()
    }

    #[verifier::when_used_as_spec(spec_is_error)]
    pub fn is_error(&self) -> (b: bool)
        ensures
            b == self.spec_is_error(),
    {
        self.arr == 0 && matches!(self.kind, TyKind::Error)
    }

    pub open spec fn spec_is_arr(&self) -> bool {
        self.arr > 0
    }

    #[verifier::when_used_as_spec(spec_is_arr)]
    pub fn is_arr(&self) -> (b: bool)
        ensures
            b == self.spec_is_arr(),
    {
        self.arr > 0
    }

    pub open spec fn spec_is_func(&self) -> bool {
        self.arr == 0 && self.kind is Func
    }

    #[verifier::when_used_as_spec(spec_is_func)]
    pub fn is_func(&self) -> (b: bool)
        ensures
            b == self.spec_is_func(),
    {
        self.arr == 0 && matches!(self.kind, TyKind::Func(_))
    }

    pub open spec fn spec_is_class(&self) -> bool {
        self.arr == 0 && self.kind is Class
    }

    #[verifier::when_used_as_spec(spec_is_class)]
    pub fn is_class(&self) -> (b: bool)
        ensures
            b == self.spec_is_class(),
    {
        self.arr == 0 && matches!(self.kind, TyKind::Class(_))
    }

    pub open spec fn spec_is_object(&self) -> bool {
        self.arr == 0 && self.kind is Object
    }

    #[verifier::when_used_as_spec(spec_is_object)]
    pub fn is_object(&self) -> (b: bool)
        ensures
            b == self.spec_is_object(),
    {
        self.arr == 0 && matches!(self.kind, TyKind::Object(_))
    }

    /// The element type of an array type: one level of array less.
    pub open spec fn spec_elem(&self) -> Ty {
        Ty { arr: (self.arr - 1) as u32, kind: self.kind }
    }

    #[verifier::when_used_as_spec(spec_elem)]
    pub fn elem(&self) -> (t: Ty)
        requires
            self.is_arr(),
        ensures
            t == self.spec_elem(),
            self.wf() ==> t.wf(),
    {
        Ty { arr: self.arr - 1, kind: self.kind }
    }

    /// The type of arrays whose elements have this type.
    pub open spec fn spec_array_of(&self) -> Ty {
        Ty { arr: (self.arr + 1) as u32, kind: self.kind }
    }

    #[verifier::when_used_as_spec(spec_array_of)]
    pub fn array_of(&self) -> (t: Ty)
        requires
            self.arr < u32::MAX,
        ensures
            t == self.spec_array_of(),
            t.arr == self.arr + 1,
            self.kind.bears_elements() ==> t.wf(),
    {
        Ty { arr: self.arr + 1, kind: self.kind }
    }
}

impl Ty {
    /// Whether a value of this type may be used where `dst` is required:
    /// the types are the same; or one of them is the error type; or both are
    /// objects and this one's class is the other's or descends from it; or this
    /// is the type of `null` and `dst` is an object or an array.
    pub open spec fn spec_assignable_to(&self, dst: Ty, prog: &Program) -> bool {
        ||| *self == dst
        ||| self.is_error()
        ||| dst.is_error()
        ||| (self.is_object() && dst.is_object() && prog.extends(
            self.kind->Object_0,
            dst.kind->Object_0,
        ))
        ||| (*self == Ty::null() && (dst.is_object() || dst.is_arr()))
    }

    #[verifier::when_used_as_spec(spec_assignable_to)]
    pub fn assignable_to(&self, dst: Ty, prog: &Program) -> (b: bool)
        ensures
            b == self.spec_assignable_to(dst, prog),
    {
        if *self == dst || self.is_error() || dst.is_error() {
            return true;
        }
        if self.arr != 0 {
            return false;
        }
        match (self.kind, dst.kind) {
            (TyKind::Object(c1), TyKind::Object(c2)) => dst.arr == 0 && prog.extends(c1, c2),
            (TyKind::Null, TyKind::Object(_)) => true,
            (TyKind::Null, _) => dst.arr > 0,
            _ => false,
        }
    }
}

/// The element type written in an array allocation. Its depth leaves room for
/// the one level that the allocation adds.
#[derive(Clone, Copy, Debug, PartialEq, Eq)]
pub struct ElemTy {
    ty: Ty,
}

impl ElemTy {
    #[verifier::type_invariant]
    spec fn fits(self) -> bool {
        self.ty.arr < u32::MAX
    }

    /// The type that was written.
    pub closed spec fn view(self) -> Ty {
        self.ty
    }

    /// Accepts every type but one of the deepest array depth.
    pub fn new(ty: Ty) -> (r: Option<ElemTy>)
        ensures
            r.is_some() == (ty.arr < u32::MAX),
            r matches Some(e) ==> e@ == ty,
    {
        if ty.arr < u32::MAX {
            Some(ElemTy { ty })
        } else {
            None
        }
    }

    pub fn get(&self) -> (t: Ty)
        ensures
            t == self@,
    {
        self.ty
    }

    /// The type of the allocated array.
    pub fn array(&self) -> (t: Ty)
        ensures
            t == self@.array_of(),
            t.arr == self@.arr + 1,
    {
        proof {
            use_type_invariant(self);
        }
        self.ty.array_of()
    }
}

} // verus!
