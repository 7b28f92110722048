use vstd::prelude::*;

verus! {

/// Identity of an engine class, as the engine compares classes.
#[derive(Debug, Clone, Copy, PartialEq, Eq, Structural)]
pub enum ClassId {
    Global,
    GlobalPrototype,
    /// A class that this layer did not register.
    Other(u64),
}

/// Slot of a lazily built prototype in a global's prototype table.
#[derive(Debug, Clone, Copy, PartialEq, Eq, Structural)]
pub enum PrototypeID {
    Global,
}

/// Registry entry of a class: its name and the hooks the engine is given.
#[derive(Debug)]
pub struct ClassSpec {
    pub id: ClassId,
    pub name: String,
    /// The class describes a global object (top-level execution context).
    pub is_global: bool,
    /// Instances own native state that the collector's finalizer reclaims.
    pub finalizes: bool,
}

/// A native method exposed on a prototype: its script name, declared arity and
/// flags for enumeration.
#[derive(Debug)]
pub struct MethodSpec {
    pub name: String,
    pub nargs: u32,
    pub enumerable: bool,
}

/// A native property exposed on a prototype.
#[derive(Debug)]
pub struct PropertySpec {
    pub name: String,
    pub enumerable: bool,
}

/// Native state resolved from a value that is not an instance of the expected
/// class, or whose state has already been reclaimed.
#[derive(Debug, Clone, Copy, PartialEq, Eq, Structural)]
pub struct TypeMismatch;

/// Where a reflected object stands between its creation and its collection.
#[derive(Debug, Clone, Copy, PartialEq, Eq, Structural)]
pub enum Lifecycle {
    /// Native state attached; prototype not yet installed.
    Created,
    /// Prototype installed; natives may run against the state.
    Active,
    /// The finalizer has reclaimed the state. Terminal.
    Finalized,
}

/// An engine object of class `class` that exclusively owns native state of
/// type `T`, together with the prototype (a handle `H`) built for it. The state
/// is held from creation until the finalizer takes it, and never afterwards.
pub struct Reflected<T, H> {
    class: ClassId,
    lifecycle: Lifecycle,
    state: Option<T>,
    prototype: Option<H>,
}

/// Whether resolving `value` as an instance of `expected` yields native state.
pub open spec fn resolves<T, H: Copy>(value: Option<&Reflected<T, H>>, expected: ClassId) -> bool {
    match value {
        Some(o) => o.class() == expected && o.state() is Some,
        None => false,
    }
}

impl<T, H: Copy> Reflected<T, H> {
    pub closed spec fn class(&self) -> ClassId {
        self.class
    }

    pub closed spec fn lifecycle(&self) -> Lifecycle {
        self.lifecycle
    }

    pub closed spec fn state(&self) -> Option<T> {
        self.state
    }

    pub closed spec fn prototype(&self) -> Option<H> {
        self.prototype
    }

    /// State is present exactly until finalization, and an active object has
    /// its prototype.
    pub open spec fn wf(&self) -> bool {
        &&& (self.lifecycle() == Lifecycle::Finalized) == (self.state() is None)
        &&& self.lifecycle() == Lifecycle::Active ==> self.prototype() is Some
        &&& self.lifecycle() == Lifecycle::Created ==> self.prototype() is None
    }

    /// Attaches `state` to a new object of class `class`.
    pub fn create(class: ClassId, state: T) -> (o: Self)
        ensures
            o.wf(),
            o.class() == class,
            o.lifecycle() == Lifecycle::Created,
            o.state() == Some(state),
            o.prototype() is None,
    {
        Reflected { class, lifecycle: Lifecycle::Created, state: Some(state), prototype: None }
    }

    pub fn class_id(&self) -> (c: ClassId)
        ensures
            c == self.class(),
    {
        self.class
    }

    pub fn is_finalized(&self) -> (b: bool)
        ensures
            b == (self.lifecycle() == Lifecycle::Finalized),
    {
        self.lifecycle == Lifecycle::Finalized
    }

    /// The prototype already built for this object, if any.
    pub fn cached_prototype(&self) -> (p: Option<H>)
        ensures
            p == self.prototype(),
    {
        self.prototype
    }

    /// Installs `built` as the prototype unless one is cached already, and returns
    /// the one in force. A prototype, once installed, stays.
    pub fn install_prototype(&mut self, built: H) -> (p: H)
        requires
            old(self).wf(),
            old(self).lifecycle() != Lifecycle::Finalized,
        ensures
            final(self).wf(),
            final(self).lifecycle() == Lifecycle::Active,
            final(self).class() == old(self).class(),
            final(self).state() == old(self).state(),
            old(self).prototype() matches Some(q) ==> p == q,
            old(self).prototype() is None ==> p == built,
            final(self).prototype() == Some(p),
    {
        let p = match self.prototype {
            Some(q) => q,
            None => built,
        };
        self.prototype = Some(p);
        self.lifecycle = Lifecycle::Active;
        p
    }

    /// The native state behind `value`, where `value` is an object of class
    /// `expected` whose state has not been reclaimed; `None` stands for a value
    /// that is not an object.
    pub fn from_value<'a>(value: Option<&'a Self>, expected: ClassId) -> (r: Result<&'a T, TypeMismatch>)
        ensures
            r is Ok <==> resolves(value, expected),
            r matches Ok(s) ==> value.unwrap().state() == Some(*s),
    {
        match value {
            None => Err(TypeMismatch),
            Some(o) => {
                if o.class != expected {
                    return Err(TypeMismatch);
                }
                match &o.state {
                    Some(s) => Ok(s),
                    None => Err(TypeMismatch),
                }
            }
        }
    }

    /// Mutable access to the native state while the object is live.
    pub fn state_mut(&mut self) -> (s: Option<&mut T>)
        requires
            old(self).wf(),
        ensures
            s is Some <==> old(self).state() is Some,
            s matches Some(r) ==> old(self).state() == Some(*r),
            s matches Some(r) ==> final(self).state() == Some(*final(r)),
            s is None ==> final(self).state() is None,
            final(self).wf(),
            final(self).class() == old(self).class(),
            final(self).lifecycle() == old(self).lifecycle(),
            final(self).prototype() == old(self).prototype(),
    {
        self.state.as_mut()
    }

    /// Collector hook: reclaims the native state and hands it out to be dropped.
    /// Runs no script and cannot fail; a second call finds nothing left.
    pub fn finalize(&mut self) -> (reclaimed: Option<T>)
        requires
            old(self).wf(),
        ensures
            final(self).wf(),
            final(self).lifecycle() == Lifecycle::Finalized,
            final(self).class() == old(self).class(),
            final(self).prototype() == old(self).prototype(),
            reclaimed == old(self).state(),
    {
        let reclaimed = self.state.take();
        self.lifecycle = Lifecycle::Finalized;
        reclaimed
    }
}

} // verus!

verus! {

/// Native state is reachable only through a live object of the expected class:
/// once an object is finalized no class resolves it, and an object of another
/// class never resolves, whatever its state.
pub proof fn lemma_resolution_needs_live_matching_class<T, H: Copy>(
    o: Reflected<T, H>,
    expected: ClassId,
)
    requires
        o.wf(),
    ensures
        o.lifecycle() == Lifecycle::Finalized ==> !resolves(Some(&o), expected),
        o.class() != expected ==> !resolves(Some(&o), expected),
        !resolves(None::<&Reflected<T, H>>, expected),
{
}

} // verus!
