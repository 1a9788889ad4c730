//! One node of the accessibility tree: what its attributes hold, and the
//! queries that fetch them.

use vstd::prelude::*;

use super::cf_call_get;
use super::cf_call_owned;
use super::error::AXError;
use super::error::AXErrorExt;
use super::lemma_retained_by_object;
use super::owned_out;
use super::value::AXValue;
use super::value_out;
use super::Retained;
use super::Slot;

verus! {

/// What an attribute holds. `H` is a node of the tree.
#[derive(Debug, PartialEq)]
pub enum AttributeValue<H> {
    /// Another node.
    Element(H),
    /// A string.
    Text(String),
    /// A number.
    Number(i64),
    /// A boxed geometry, range or status value.
    Boxed(AXValue),
    /// An ordered sequence of values.
    Sequence(Vec<AttributeValue<H>>),
    /// A value of a kind that none of the above describes.
    Other,
}

impl<H> Retained<AttributeValue<H>> {
    /// The value as a node. A value of another shape is handed back.
    pub fn downcast_element(self) -> (r: Result<Retained<H>, Retained<AttributeValue<H>>>)
        ensures
            match self@ {
                AttributeValue::Element(node) => r matches Ok(handle) && handle@ == node,
                _ => r == Err::<Retained<H>, Retained<AttributeValue<H>>>(self),
            },
    {
        let ghost before = self;
        match self.into_inner() {
            AttributeValue::Element(node) => Ok(Retained::adopt(node)),
            other => {
                let back = Retained::adopt(other);
                proof {
                    lemma_retained_by_object(back, before);
                }
                Err(back)
            },
        }
    }

    /// The value as a string. A value of another shape is handed back.
    pub fn downcast_text(self) -> (r: Result<Retained<String>, Retained<AttributeValue<H>>>)
        ensures
            match self@ {
                AttributeValue::Text(text) => r matches Ok(handle) && handle@ == text,
                _ => r == Err::<Retained<String>, Retained<AttributeValue<H>>>(self),
            },
    {
        let ghost before = self;
        match self.into_inner() {
            AttributeValue::Text(text) => Ok(Retained::adopt(text)),
            other => {
                let back = Retained::adopt(other);
                proof {
                    lemma_retained_by_object(back, before);
                }
                Err(back)
            },
        }
    }

    /// The value as a number. A value of another shape is handed back.
    pub fn downcast_number(self) -> (r: Result<Retained<i64>, Retained<AttributeValue<H>>>)
        ensures
            match self@ {
                AttributeValue::Number(number) => r matches Ok(handle) && handle@ == number,
                _ => r == Err::<Retained<i64>, Retained<AttributeValue<H>>>(self),
            },
    {
        let ghost before = self;
        match self.into_inner() {
            AttributeValue::Number(number) => Ok(Retained::adopt(number)),
            other => {
                let back = Retained::adopt(other);
                proof {
                    lemma_retained_by_object(back, before);
                }
                Err(back)
            },
        }
    }

    /// The value as a boxed scalar. A value of another shape is handed back.
    pub fn downcast_boxed(self) -> (r: Result<Retained<AXValue>, Retained<AttributeValue<H>>>)
        ensures
            match self@ {
                AttributeValue::Boxed(boxed) => r matches Ok(handle) && handle@ == boxed,
                _ => r == Err::<Retained<AXValue>, Retained<AttributeValue<H>>>(self),
            },
    {
        let ghost before = self;
        match self.into_inner() {
            AttributeValue::Boxed(boxed) => Ok(Retained::adopt(boxed)),
            other => {
                let back = Retained::adopt(other);
                proof {
                    lemma_retained_by_object(back, before);
                }
                Err(back)
            },
        }
    }

    /// The value as a sequence, in its order. A value of another shape is
    /// handed back.
    pub fn downcast_sequence(self) -> (r: Result<
        Retained<Vec<AttributeValue<H>>>,
        Retained<AttributeValue<H>>,
    >)
        ensures
            match self@ {
                AttributeValue::Sequence(items) => r matches Ok(handle) && handle@ == items,
                _ => r == Err::<Retained<Vec<AttributeValue<H>>>, Retained<AttributeValue<H>>>(
                    self,
                ),
            },
    {
        let ghost before = self;
        match self.into_inner() {
            AttributeValue::Sequence(items) => Ok(Retained::adopt(items)),
            other => {
                let back = Retained::adopt(other);
                proof {
                    lemma_retained_by_object(back, before);
                }
                Err(back)
            },
        }
    }
}

/// The queries on one node `H` of the tree. Each takes the call that asks
/// the tree, runs it once on this node with unwritten storage, and turns
/// status and storage into a `Result`: the written answer where the status
/// reports success, the status itself otherwise. The call must write the
/// storage whenever it reports success.
pub trait AXUIElementExt<H> {
    /// The node that the queries are run on.
    spec fn node(&self) -> H;

    /// The id of the process that owns the node.
    fn pid<F>(&self, call: F) -> (result: Result<i32, AXError>) where
        F: FnOnce(&H, Slot<i32>) -> (Slot<i32>, AXError),

        requires
            call.requires((&self.node(), Slot::<i32>::unwritten())),
            forall|out: (Slot<i32>, AXError)|
                call.ensures((&self.node(), Slot::<i32>::unwritten()), out) && out.1.is_success()
                    ==> out.0@ is Some,
        ensures
            exists|out: (Slot<i32>, AXError)|
                call.ensures((&self.node(), Slot::<i32>::unwritten()), out)
                    && result == value_out(out.0@, out.1.as_result()),
    ;

    /// The names of the node's attributes, in the order in which the call
    /// wrote them.
    fn attribute_names<F>(&self, call: F) -> (result: Result<
        Retained<Vec<String>>,
        AXError,
    >) where
        F: FnOnce(&H, Slot<Vec<String>>) -> (Slot<Vec<String>>, AXError),

        requires
            call.requires((&self.node(), Slot::<Vec<String>>::unwritten())),
            forall|out: (Slot<Vec<String>>, AXError)|
                call.ensures((&self.node(), Slot::<Vec<String>>::unwritten()), out)
                    && out.1.is_success() ==> out.0@ is Some,
        ensures
            exists|out: (Slot<Vec<String>>, AXError)|
                call.ensures((&self.node(), Slot::<Vec<String>>::unwritten()), out)
                    && owned_out(out.0@, out.1.as_result(), result),
    ;

    /// What the node holds under `attribute`.
    fn attribute_value<F>(&self, attribute: &str, call: F) -> (result: Result<
        Retained<AttributeValue<H>>,
        AXError,
    >) where
        F: FnOnce(&H, &str, Slot<AttributeValue<H>>) -> (Slot<AttributeValue<H>>, AXError),

        requires
            call.requires(
                (
                    &self.node(),
                    attribute,
                    Slot::<AttributeValue<H>>::unwritten(),
                ),
            ),
            forall|out: (Slot<AttributeValue<H>>, AXError)|
                call.ensures(
                    (
                        &self.node(),
                        attribute,
                        Slot::<AttributeValue<H>>::unwritten(),
                    ),
                    out,
                ) && out.1.is_success()
                    ==> out.0@ is Some,
        ensures
            exists|out: (Slot<AttributeValue<H>>, AXError)|
                call.ensures(
                    (
                        &self.node(),
                        attribute,
                        Slot::<AttributeValue<H>>::unwritten(),
                    ),
                    out,
                )
                    && owned_out(out.0@, out.1.as_result(), result),
    ;

    /// The names of the node's parameterized attributes, in the order in which
    /// the call wrote them.
    fn parameterized_attribute_names<F>(&self, call: F) -> (result: Result<
        Retained<Vec<String>>,
        AXError,
    >) where
        F: FnOnce(&H, Slot<Vec<String>>) -> (Slot<Vec<String>>, AXError),

        requires
            call.requires((&self.node(), Slot::<Vec<String>>::unwritten())),
            forall|out: (Slot<Vec<String>>, AXError)|
                call.ensures((&self.node(), Slot::<Vec<String>>::unwritten()), out)
                    && out.1.is_success() ==> out.0@ is Some,
        ensures
            exists|out: (Slot<Vec<String>>, AXError)|
                call.ensures((&self.node(), Slot::<Vec<String>>::unwritten()), out)
                    && owned_out(out.0@, out.1.as_result(), result),
    ;

    /// What the node holds under `parameterized_attribute` for `parameter`.
    /// Whether `parameter` is of the shape that the attribute expects is for
    /// the call to say, by its status.
    fn parameterized_attribute_value<F>(
        &self,
        parameterized_attribute: &str,
        parameter: &AttributeValue<H>,
        call: F,
    ) -> (result: Result<Retained<AttributeValue<H>>, AXError>) where
        F: FnOnce(&H, &str, &AttributeValue<H>, Slot<AttributeValue<H>>) -> (
            Slot<AttributeValue<H>>,
            AXError,
        ),

        requires
            call.requires(
                (
                    &self.node(),
                    parameterized_attribute,
                    parameter,
                    Slot::<AttributeValue<H>>::unwritten(),
                ),
            ),
            forall|out: (Slot<AttributeValue<H>>, AXError)|
                call.ensures(
                    (
                        &self.node(),
                        parameterized_attribute,
                        parameter,
                        Slot::<AttributeValue<H>>::unwritten(),
                    ),
                    out,
                ) && out.1.is_success()
                    ==> out.0@ is Some,
        ensures
            exists|out: (Slot<AttributeValue<H>>, AXError)|
                call.ensures(
                    (
                        &self.node(),
                        parameterized_attribute,
                        parameter,
                        Slot::<AttributeValue<H>>::unwritten(),
                    ),
                    out,
                )
                    && owned_out(out.0@, out.1.as_result(), result),
    ;
}

impl<H> AXUIElementExt<H> for Retained<H> {
    open spec fn node(&self) -> H {
        self@
    }

    fn pid<F>(&self, call: F) -> (result: Result<i32, AXError>) where
        F: FnOnce(&H, Slot<i32>) -> (Slot<i32>, AXError),
    {
        let node = self.get();
        let bridged = |slot: Slot<i32>| -> (out: (Slot<i32>, Result<(), AXError>))
            requires
                slot == Slot::<i32>::unwritten(),
            ensures
                exists|raw: (Slot<i32>, AXError)|
                    call.ensures((node, Slot::<i32>::unwritten()), raw)
                        && out == (raw.0, raw.1.as_result()),
            {
                let (slot, status) = call(node, slot);
                (slot, status.into_result())
            };
        cf_call_get(bridged)
    }

    fn attribute_names<F>(&self, call: F) -> (result: Result<
        Retained<Vec<String>>,
        AXError,
    >) where
        F: FnOnce(&H, Slot<Vec<String>>) -> (Slot<Vec<String>>, AXError),
    {
        let node = self.get();
        let bridged = |slot: Slot<Vec<String>>| -> (out: (Slot<Vec<String>>, Result<(), AXError>))
            requires
                slot == Slot::<Vec<String>>::unwritten(),
            ensures
                exists|raw: (Slot<Vec<String>>, AXError)|
                    call.ensures((node, Slot::<Vec<String>>::unwritten()), raw)
                        && out == (raw.0, raw.1.as_result()),
            {
                let (slot, status) = call(node, slot);
                (slot, status.into_result())
            };
        cf_call_owned(bridged)
    }

    fn attribute_value<F>(&self, attribute: &str, call: F) -> (result: Result<
        Retained<AttributeValue<H>>,
        AXError,
    >) where
        F: FnOnce(&H, &str, Slot<AttributeValue<H>>) -> (Slot<AttributeValue<H>>, AXError),
    {
        let node = self.get();
        let bridged = |slot: Slot<AttributeValue<H>>| -> (out: (
            Slot<AttributeValue<H>>,
            Result<(), AXError>,
        ))
            requires
                slot == Slot::<AttributeValue<H>>::unwritten(),
            ensures
                exists|raw: (Slot<AttributeValue<H>>, AXError)|
                    call.ensures(
                        (
                            node,
                            attribute,
                            Slot::<AttributeValue<H>>::unwritten(),
                        ),
                        raw,
                    )
                        && out == (raw.0, raw.1.as_result()),
            {
                let (slot, status) = call(node, attribute, slot);
                (slot, status.into_result())
            };
        cf_call_owned(bridged)
    }

    fn parameterized_attribute_names<F>(&self, call: F) -> (result: Result<
        Retained<Vec<String>>,
        AXError,
    >) where
        F: FnOnce(&H, Slot<Vec<String>>) -> (Slot<Vec<String>>, AXError),
    {
        let node = self.get();
        let bridged = |slot: Slot<Vec<String>>| -> (out: (Slot<Vec<String>>, Result<(), AXError>))
            requires
                slot == Slot::<Vec<String>>::unwritten(),
            ensures
                exists|raw: (Slot<Vec<String>>, AXError)|
                    call.ensures((node, Slot::<Vec<String>>::unwritten()), raw)
                        && out == (raw.0, raw.1.as_result()),
            {
                let (slot, status) = call(node, slot);
                (slot, status.into_result())
            };
        cf_call_owned(bridged)
    }

    fn parameterized_attribute_value<F>(
        &self,
        parameterized_attribute: &str,
        parameter: &AttributeValue<H>,
        call: F,
    ) -> (result: Result<Retained<AttributeValue<H>>, AXError>) where
        F: FnOnce(&H, &str, &AttributeValue<H>, Slot<AttributeValue<H>>) -> (
            Slot<AttributeValue<H>>,
            AXError,
        ),
    {
        let node = self.get();
        let bridged = |slot: Slot<AttributeValue<H>>| -> (out: (
            Slot<AttributeValue<H>>,
            Result<(), AXError>,
        ))
            requires
                slot == Slot::<AttributeValue<H>>::unwritten(),
            ensures
                exists|raw: (Slot<AttributeValue<H>>, AXError)|
                    call.ensures(
                        (
                            node,
                            parameterized_attribute,
                            parameter,
                            Slot::<AttributeValue<H>>::unwritten(),
                        ),
                        raw,
                    )
                        && out == (raw.0, raw.1.as_result()),
            {
                let (slot, status) = call(node, parameterized_attribute, parameter, slot);
                (slot, status.into_result())
            };
        cf_call_owned(bridged)
    }
}

} // verus!
