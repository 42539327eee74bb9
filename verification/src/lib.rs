use vstd::prelude::*;

verus! {

/// The sole sanctioned issuer of the equality and outlives witnesses.
///
/// `Constrain` is a stateless unit token. Because the witness traits relate
/// two independent type parameters, neither can play the role of `Self`;
/// `Constrain` stands in that role for both, which also keeps the relation
/// symmetric in how it is written at use sites.
///
/// A bound such as `Constrain: TypeEq<A, B>` on a method makes that method
/// available exactly when the relation is derivable, and the only derivation
/// this crate provides is the reflexive one.
pub struct Constrain;

/// Witness that the two type parameters `A` and `B` denote the same type.
///
/// The one implementation this crate provides is the reflexive instance on
/// [`Constrain`], so the relation is derivable precisely when `A` and `B` are
/// literally the same type. Implementing it for anything else is a contract
/// violation by convention: the crate cannot forbid such an implementation
/// downstream, it only refuses to supply one.
pub trait TypeEq<A, B> {
    /// The value-level mapping that [`TypeEq::as_eq`] realises.
    ///
    /// For the sanctioned reflexive instance this is the identity, so a
    /// caller who converts through `Constrain` gets the argument back
    /// unchanged.
    spec fn eq_map(&self, a: A) -> B;

    /// Converts a value of type `A` into one of type `B`.
    ///
    /// The conversion is pure renaming: at runtime it must not transform the
    /// value, only change the type it is treated as. The contract pins the
    /// result to [`TypeEq::eq_map`], so every implementation must behave as a
    /// pure function of its argument.
    fn as_eq(&self, a: A) -> (b: B)
        ensures
            b == self.eq_map(a),
    ;
}

impl<A> TypeEq<A, A> for Constrain {
    /// A type related to itself maps every value to itself.
    open spec fn eq_map(&self, a: A) -> A {
        a
    }

    fn as_eq(&self, a: A) -> (b: A)
        ensures
            b == a,
    {
        a
    }
}

/// Law: converting a value through the reflexive witness is the identity.
///
/// For every type `A` and every value `a` of it, the mapping that
/// `Constrain`'s `TypeEq<A, A>` instance gives to [`TypeEq::as_eq`] returns
/// `a` itself; together with the contract of `as_eq` this says that the
/// sanctioned conversion hands back its argument unchanged.
pub proof fn lemma_reflexive_conversion_is_identity<A>(c: Constrain, a: A)
    ensures
        c.eq_map(a) == a,
{
}

/// Witness that a reference to `A` valid for `'a` may be read as a reference
/// to `B` valid for `'b`.
///
/// The sanctioned instance on [`Constrain`] is a type-level marker only: its
/// [`Outlives::as_outlived`] must never run, which the contract enforces by
/// making [`Outlives::reachable`] false there. An implementation that can
/// actually perform the reinterpretation would make `reachable` true and
/// provide a real body.
pub trait Outlives<'a, 'b, A: 'a, B: 'b> {
    /// Whether [`Outlives::as_outlived`] may actually be invoked on this
    /// witness.
    spec fn reachable(&self) -> bool;

    /// Reinterprets a reference to `A` as a reference to `B`.
    fn as_outlived<'r>(&self, a: &'r A) -> &'r B
        requires
            self.reachable(),
    ;
}

impl<'a, 'b, A: 'a, B: 'b> Outlives<'a, 'b, A, B> for Constrain {
    /// The sanctioned witness is a compile-time marker: calling its
    /// reinterpretation is ruled out.
    open spec fn reachable(&self) -> bool {
        false
    }

    fn as_outlived<'r>(&self, a: &'r A) -> &'r B {
        vstd::pervasive::unreached()
    }
}

/// Type-level properties: associates marker types with typed values of the
/// implementing type.
///
/// A host type implements `Has<M>` once per property, each implementation
/// written against its own marker `M` and declaring that property's value
/// type. Which property a caller gets is resolved statically by the marker
/// it names; asking for a marker no implementation covers fails to build.
///
/// Inside [`Has::get`], the bound `Constrain: TypeEq<Prop, P>` binds the
/// marker the caller supplies to the marker the implementation was written
/// for, so the accessor body is reachable only under the sanctioned
/// reflexive witness.
pub trait Has<Prop> {
    /// The type of the property tagged by `Prop`.
    type Val;

    /// The value of the property tagged by `Prop`, as each implementation
    /// declares it.
    spec fn prop_val(&self) -> Self::Val;

    /// Returns the property selected by the marker `P`.
    ///
    /// The contract pins the result to [`Has::prop_val`]: requesting a
    /// property with the marker it was declared under returns exactly the
    /// declared value, independent of any other properties the host exposes.
    fn get<P>(&self) -> (v: Self::Val)
        where
            Constrain: TypeEq<Prop, P>,
        ensures
            v == self.prop_val(),
    ;
}

} // verus!
