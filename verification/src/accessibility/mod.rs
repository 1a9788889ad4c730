//! Typed access to the accessibility tree.
//!
//! The accessibility API reports through a status code and writes its answer
//! into storage that the caller provides. The two adapters of this module turn
//! one such call into a `Result`: [`cf_call_get`] for a plain value, and
//! [`cf_call_owned`] for an object whose ownership passes to the caller.

use vstd::prelude::*;

pub mod attribute;
pub mod error;
pub mod notification;
pub mod ui_element;
pub mod value;

pub use self::error::AXError;
pub use self::error::AXErrorExt;
pub use self::ui_element::AXUIElementExt;
pub use self::ui_element::AttributeValue;
pub use self::value::AXValue;
pub use self::value::AXValueExt;
pub use self::value::AXValueType;
pub use self::value::AXValueTypeMarker;

verus! {

/// Storage that a call writes its answer into. It starts out unwritten, and
/// only the adapters of this module read it.
#[derive(Debug)]
pub struct Slot<T> {
    value: Option<T>,
}

impl<T> View for Slot<T> {
    type V = Option<T>;

    /// What has been written: `None` while the storage is unwritten.
    closed spec fn view(&self) -> Option<T> {
        self.value
    }
}

impl<T> Slot<T> {
    /// The unwritten storage.
    pub closed spec fn unwritten() -> Slot<T> {
        Slot { value: None }
    }

    /// Fresh, unwritten storage.
    pub fn new() -> (slot: Self)
        ensures
            slot == Self::unwritten(),
            slot@ is None,
    {
        Slot { value: None }
    }

    /// Writes `value`, replacing what was written before.
    pub fn write(self, value: T) -> (slot: Self)
        ensures
            slot@ == Some(value),
    {
        Slot { value: Some(value) }
    }

    /// Whether anything has been written.
    pub fn is_written(&self) -> (written: bool)
        ensures
            written == (self@ is Some),
    {
        self.value.is_some()
    }

    /// Reads the storage. Only the adapters do so, and only after success.
    fn read(self) -> (value: T)
        requires
            self@ is Some,
        ensures
            self@ == Some(value),
    {
        self.value.unwrap()
    }
}

/// Unwritten storage holds nothing.
pub proof fn lemma_unwritten_holds_nothing<T>()
    ensures
        Slot::<T>::unwritten()@ is None,
{
}

/// The one owning reference to an object that a call handed over. It is made
/// by [`cf_call_owned`] alone and cannot be copied: the object is released
/// when this value is dropped.
#[derive(Debug, PartialEq, Eq)]
pub struct Retained<T> {
    object: T,
}

impl<T> View for Retained<T> {
    type V = T;

    /// The object that is owned.
    closed spec fn view(&self) -> T {
        self.object
    }
}

impl<T> Retained<T> {
    /// A handle to an object whose one reference this crate already holds
    /// under another type.
    pub(crate) fn adopt(object: T) -> (handle: Self)
        ensures
            handle@ == object,
    {
        Retained { object }
    }

    /// The owned object, borrowed.
    pub fn get(&self) -> (object: &T)
        ensures
            *object == self@,
    {
        &self.object
    }

    /// Gives up the handle and hands the object out.
    pub fn into_inner(self) -> (object: T)
        ensures
            object == self@,
    {
        self.object
    }
}

/// Two handles that own the same object are the same handle.
pub proof fn lemma_retained_by_object<T>(a: Retained<T>, b: Retained<T>)
    requires
        a@ == b@,
    ensures
        a == b,
{
}

/// What a value-out call yields, given what it wrote and the status it
/// returned: the written value on success, the error otherwise.
pub open spec fn value_out<T, E>(written: Option<T>, status: Result<(), E>) -> Result<T, E> {
    match status {
        Ok(_) => Ok(written->Some_0),
        Err(e) => Err(e),
    }
}

/// Whether `result` is what an object-out call yields, given what it wrote
/// and the status it returned: a handle that owns the written object on
/// success, the error otherwise.
pub open spec fn owned_out<T, E>(
    written: Option<T>,
    status: Result<(), E>,
    result: Result<Retained<T>, E>,
) -> bool {
    match status {
        Ok(_) => result matches Ok(handle) && Some(handle@) == written,
        Err(e) => result == Err::<Retained<T>, E>(e),
    }
}

/// How many owning references a result holds.
pub open spec fn references_in<T, E>(result: Result<Retained<T>, E>) -> nat {
    if result is Ok {
        1
    } else {
        0
    }
}

/// Runs a call that writes a plain value into the storage it is given and
/// returns a status. The storage is read only after success.
///
/// The call must write the storage whenever it reports success.
pub fn cf_call_get<T, E, F>(f: F) -> (result: Result<T, E>) where
    F: FnOnce(Slot<T>) -> (Slot<T>, Result<(), E>),

    requires
        f.requires((Slot::<T>::unwritten(),)),
        forall|out: (Slot<T>, Result<(), E>)|
            f.ensures((Slot::<T>::unwritten(),), out) && out.1 is Ok ==> out.0@ is Some,
    ensures
        exists|out: (Slot<T>, Result<(), E>)|
            f.ensures((Slot::<T>::unwritten(),), out) && result == value_out(out.0@, out.1),
{
    let (slot, status) = f(Slot::new());
    proof {
        let out = (slot, status);
        assert(f.ensures((Slot::<T>::unwritten(),), out));
    }
    match status {
        Ok(_) => Ok(slot.read()),
        Err(err) => Err(err),
    }
}

/// Runs a call that writes a newly retained object into the storage it is
/// given and returns a status. On success the caller owns the object through
/// the one handle returned; on failure no handle is made.
///
/// The call must write the storage whenever it reports success.
pub fn cf_call_owned<T, E, F>(f: F) -> (result: Result<Retained<T>, E>) where
    F: FnOnce(Slot<T>) -> (Slot<T>, Result<(), E>),

    requires
        f.requires((Slot::<T>::unwritten(),)),
        forall|out: (Slot<T>, Result<(), E>)|
            f.ensures((Slot::<T>::unwritten(),), out) && out.1 is Ok ==> out.0@ is Some,
    ensures
        exists|out: (Slot<T>, Result<(), E>)|
            f.ensures((Slot::<T>::unwritten(),), out) && owned_out(out.0@, out.1, result),
{
    let (slot, status) = f(Slot::new());
    proof {
        let out = (slot, status);
        assert(f.ensures((Slot::<T>::unwritten(),), out));
    }
    match status {
        Ok(_) => Ok(Retained { object: slot.read() }),
        Err(err) => Err(err),
    }
}

/// On failure the storage is never read: the result is the error, whatever
/// the storage holds. On success the result is exactly what was written.
pub proof fn lemma_value_out_reads_only_on_success<T, E>(
    first: Option<T>,
    second: Option<T>,
    status: Result<(), E>,
)
    ensures
        status is Err ==> value_out(first, status) == value_out(second, status),
        status is Err ==> value_out(first, status) == Err::<T, E>(status->Err_0),
        status is Ok && first is Some ==> value_out(first, status) == Ok::<T, E>(first->Some_0),
{
}

/// A successful call yields exactly one owning reference, to the object that
/// was written; a failed call yields none, whatever the storage holds.
pub proof fn lemma_owned_out_one_reference<T, E>(
    written: Option<T>,
    status: Result<(), E>,
    result: Result<Retained<T>, E>,
)
    requires
        owned_out(written, status, result),
    ensures
        status is Ok ==> references_in(result) == 1 && written == Some(result->Ok_0@),
        status is Err ==> references_in(result) == 0 && result == Err::<Retained<T>, E>(
            status->Err_0,
        ),
{
}

} // verus!
