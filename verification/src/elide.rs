//! Default-elision engine: a decoded policy value collapses to "absent" when
//! it structurally equals the policy's canonical default.  This is applied
//! uniformly after every decode from the native model and never on the encode
//! path.

use vstd::prelude::*;

verus! {

/// Mathematical statement of elision: absent exactly when the value equals
/// the canonical default.
pub open spec fn elide<V>(v: V, d: V) -> Option<V> {
    if v == d {
        None
    } else {
        Some(v)
    }
}

/// Capability of every policy type: a canonical default equal to what the
/// native library's just-created default configuration object reports, and a
/// structural-equality check against it.
pub trait HasCanonicalDefault: Sized + DeepView {
    /// Mathematical value of the canonical default.
    spec fn canonical_default_view() -> Self::V;

    /// Whether this value structurally equals the canonical default.
    fn eq_canonical_default(&self) -> (r: bool)
        ensures
            r == (self.deep_view() == Self::canonical_default_view()),
    ;
}

/// Return true if `v` equals the canonical default of its policy type.
pub fn is_default<T: HasCanonicalDefault>(v: &T) -> (r: bool)
    ensures
        r == (v.deep_view() == T::canonical_default_view()),
{
    v.eq_canonical_default()
}

/// Return `None` if `v` is the canonical default, `Some(v)` otherwise.
pub fn to_option<T: HasCanonicalDefault>(v: T) -> (r: Option<T>)
    ensures
        r == (if v.deep_view() == T::canonical_default_view() {
            Option::<T>::None
        } else {
            Option::<T>::Some(v)
        }),
        r.deep_view() == elide(v.deep_view(), T::canonical_default_view()),
{
    if is_default(&v) {
        None
    } else {
        Some(v)
    }
}

/// Return true if `o` is `None` or holds the canonical default.
pub fn is_option_default<T: HasCanonicalDefault>(o: &Option<T>) -> (r: bool)
    ensures
        r == (match o {
            Some(v) => v.deep_view() == T::canonical_default_view(),
            None => true,
        }),
{
    match o {
        Some(v) => is_default(v),
        None => true,
    }
}

/// Law: eliding the canonical default of any policy type always yields
/// absence, so a policy reported at its default never survives a decode.
pub proof fn lemma_canonical_default_elides<T: HasCanonicalDefault>()
    ensures
        elide(T::canonical_default_view(), T::canonical_default_view()) is None,
{
}

impl HasCanonicalDefault for Vec<u8> {
    open spec fn canonical_default_view() -> Seq<u8> {
        Seq::empty()
    }

    fn eq_canonical_default(&self) -> (r: bool) {
        let r = self.len() == 0;
        proof {
            if self@.len() == 0 {
                assert(self.deep_view() =~= Seq::<u8>::empty());
            } else {
                assert(self.deep_view().len() != 0);
            }
        }
        r
    }
}

impl HasCanonicalDefault for Vec<u16> {
    open spec fn canonical_default_view() -> Seq<u16> {
        Seq::empty()
    }

    fn eq_canonical_default(&self) -> (r: bool) {
        let r = self.len() == 0;
        proof {
            if self@.len() == 0 {
                assert(self.deep_view() =~= Seq::<u16>::empty());
            } else {
                assert(self.deep_view().len() != 0);
            }
        }
        r
    }
}

impl HasCanonicalDefault for Vec<String> {
    open spec fn canonical_default_view() -> Seq<Seq<char>> {
        Seq::empty()
    }

    fn eq_canonical_default(&self) -> (r: bool) {
        let r = self.len() == 0;
        proof {
            if self@.len() == 0 {
                assert(self.deep_view() =~= Seq::<Seq<char>>::empty());
            } else {
                assert(self.deep_view().len() != 0);
            }
        }
        r
    }
}

impl HasCanonicalDefault for String {
    open spec fn canonical_default_view() -> Seq<char> {
        Seq::empty()
    }

    fn eq_canonical_default(&self) -> (r: bool) {
        let r = self.as_str().is_empty();
        proof {
            if self@.len() == 0 {
                assert(self@ =~= Seq::<char>::empty());
            } else {
                assert(self.deep_view().len() != 0);
            }
        }
        r
    }
}

} // verus!
