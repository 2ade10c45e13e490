//! Handle registry: allocation, dereferencing and release of opaque integer
//! handles over owned values.
//!
//! A handle is a fixed-width 64-bit integer; `0` is the reserved sentinel
//! meaning "no instance" and is never a real handle. Unlike a registry that
//! hands out raw addresses, this one keeps the values in an arena, so a
//! handle's liveness is part of the registry's state and every access is
//! checked against it: dereferencing a handle that is not live — one that was
//! never created here, or one already released — is outside the contract of
//! [`Registry::resolve`] and [`Registry::resolve_exclusive`], and the
//! verifier rejects such a call rather than leaving it undefined.

use vstd::prelude::*;
use crate::bridge::Failure;

verus! {

/// An opaque integer capability denoting a caller-owned resource.
pub type Handle = i64;

/// Whether `h` denotes a live value in a registry whose slots view is `s`.
pub open spec fn live<T>(s: Seq<Option<T>>, h: int) -> bool {
    &&& 1 <= h <= s.len()
    &&& s[h - 1] is Some
}

/// The value that a live handle `h` denotes in the slots view `s`.
pub open spec fn value_at<T>(s: Seq<Option<T>>, h: int) -> T
    recommends
        live(s, h),
{
    s[h - 1].unwrap()
}

/// An arena of owned values, addressed by opaque integer handles. A released
/// slot stays empty; the handles of the other slots stay valid.
pub struct Registry<T> {
    slots: Vec<Option<T>>,
}

impl<T> View for Registry<T> {
    type V = Seq<Option<T>>;

    closed spec fn view(&self) -> Seq<Option<T>> {
        self.slots@
    }
}

impl<T> Registry<T> {
    /// An empty registry: no handle is live.
    pub fn new() -> (r: Registry<T>)
        ensures
            r@ == Seq::<Option<T>>::empty(),
    {
        Registry { slots: Vec::new() }
    }

    /// Moves `value` into the registry and returns its handle: never the
    /// sentinel `0`, never a handle that was live before, and every handle
    /// that was live stays live with its value unchanged.
    pub fn create(&mut self, value: T) -> (h: Handle)
        requires
            old(self)@.len() < 0x7fff_ffff_ffff_ffff,
        ensures
            final(self)@ == old(self)@.push(Some(value)),
            h as int == old(self)@.len() + 1,
            h != 0,
            !live(old(self)@, h as int),
            live(final(self)@, h as int),
            value_at(final(self)@, h as int) == value,
    {
        let h: i64 = (self.slots.len() as i64) + 1;
        self.slots.push(Some(value));
        h
    }

    /// Shared access to the value a handle denotes. Fails with the
    /// null-handle kind, carrying `name`, when the handle is the sentinel
    /// `0`. A non-sentinel handle must be live: a handle that this registry
    /// never produced, or one already released, is outside the contract.
    pub fn resolve<'a>(&'a self, h: Handle, name: &'static str) -> (r: Result<&'a T, Failure>)
        requires
            h == 0 || live(self@, h as int),
        ensures
            h == 0 ==> r == Result::<&'a T, Failure>::Err(Failure::NullHandle(name)),
            h != 0 ==> (r matches Ok(v) && *v == value_at(self@, h as int)),
    {
        if h == 0 {
            return Err(Failure::NullHandle(name));
        }
        let _n: usize = self.slots.len();
        let idx: usize = (h - 1) as usize;
        match &self.slots[idx] {
            Some(v) => Ok(v),
            None => Err(Failure::NullHandle(name)),
        }
    }

    /// Exclusive access to the value a handle denotes. Fails with the
    /// null-handle kind, carrying `name`, when the handle is the sentinel
    /// `0`; the registry is then unchanged. A non-sentinel handle must be
    /// live, as for [`Registry::resolve`]. On success the returned reference
    /// is the sole way to reach the value, and the registry afterwards holds
    /// whatever the caller left behind it.
    pub fn resolve_exclusive<'a>(&'a mut self, h: Handle, name: &'static str) -> (r: Result<
        &'a mut T,
        Failure,
    >)
        requires
            h == 0 || live(old(self)@, h as int),
        ensures
            h == 0 ==> (r == Result::<&'a mut T, Failure>::Err(Failure::NullHandle(name))
                && final(self)@ == old(self)@),
            h != 0 ==> (r matches Ok(v) && *v == value_at(old(self)@, h as int) && final(self)@ == old(
                self,
            )@.update(h as int - 1, Some(*final(v)))),
    {
        if h == 0 {
            return Err(Failure::NullHandle(name));
        }
        let _n: usize = self.slots.len();
        let idx: usize = (h - 1) as usize;
        match &mut self.slots[idx] {
            Some(v) => Ok(v),
            None => Err(Failure::NullHandle(name)),
        }
    }

    /// Releases the value a handle denotes, reclaiming its slot; a no-op for
    /// the sentinel `0`. Releasing the same non-sentinel handle twice, or one
    /// this registry never produced, is outside the contract — a live handle
    /// is released exactly once.
    pub fn release(&mut self, h: Handle)
        requires
            h == 0 || live(old(self)@, h as int),
        ensures
            h == 0 ==> final(self)@ == old(self)@,
            h != 0 ==> final(self)@ == old(self)@.update(h as int - 1, None::<T>),
    {
        if h != 0 {
            let _n: usize = self.slots.len();
            let idx: usize = (h - 1) as usize;
            self.slots[idx] = None;
        }
    }
}

/// Round trip of creation and resolution: pushing a value onto any registry
/// state yields a handle that is live there and denotes exactly that value —
/// so `resolve` on the handle `create` returned gives a view equal to the
/// value created.
pub proof fn lemma_create_then_resolve<T>(s: Seq<Option<T>>, v: T)
    ensures
        live(s.push(Some(v)), s.len() + 1 as int),
        value_at(s.push(Some(v)), s.len() + 1 as int) == v,
{
}

/// Release invalidates the handle: in the state a release of a live handle
/// leaves behind, that handle is no longer live, so any subsequent
/// dereference of it is outside the contract of `resolve` and
/// `resolve_exclusive`.
pub proof fn lemma_release_invalidates<T>(s: Seq<Option<T>>, h: int)
    requires
        live(s, h),
    ensures
        !live(s.update(h - 1, None::<T>), h),
{
}

} // verus!
