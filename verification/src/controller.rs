//! The walk from the system-wide node to the focused application, the focused
//! element and its selection.

use objc2_core_foundation::CGRect;
use vstd::prelude::*;

use crate::accessibility::attribute::kAXBoundsForRangeParameterizedAttribute;
use crate::accessibility::attribute::kAXFocusedApplicationAttribute;
use crate::accessibility::attribute::kAXFocusedUIElementAttribute;
use crate::accessibility::attribute::kAXSelectedTextAttribute;
use crate::accessibility::attribute::kAXSelectedTextRangeAttribute;
use crate::accessibility::AXError;
use crate::accessibility::AXUIElementExt;
use crate::accessibility::AXValueExt;
use crate::accessibility::AXValueTypeMarker;
use crate::accessibility::AttributeValue;
use crate::accessibility::Retained;
use crate::accessibility::Slot;
use crate::event::Event;
use crate::poll::next_action;
use crate::poll::next_state;
use crate::poll::Action;
use crate::poll::ActionView;
use crate::poll::Input;
use crate::poll::PollState;
use crate::poll::POLL_INTERVAL_MILLIS;

verus! {

/// Accessibility access has not been granted to this process.
#[derive(Clone, Copy, Debug, PartialEq, Eq, Structural)]
pub struct PermissionDenied;

/// Holds the system-wide node and this process's id, and walks the focus
/// chain from that node. `H` is a node of the tree.
#[derive(Debug)]
pub struct Controller<H> {
    pid: i32,
    system_wide: Retained<H>,
}

/// Whether `result` is what a query for a node yields, given what the call
/// wrote and the status it returned.
pub open spec fn element_out<H>(
    written: Option<AttributeValue<H>>,
    status: AXError,
    result: Result<Retained<H>, AXError>,
) -> bool {
    if status.is_success() {
        result matches Ok(handle) && written == Some(AttributeValue::<H>::Element(handle@))
    } else {
        result == Err::<Retained<H>, AXError>(status)
    }
}

/// Whether `result` is what a query for a string yields, given what the call
/// wrote and the status it returned.
pub open spec fn text_out<H>(
    written: Option<AttributeValue<H>>,
    status: AXError,
    result: Result<Retained<String>, AXError>,
) -> bool {
    if status.is_success() {
        result matches Ok(handle) && written == Some(AttributeValue::<H>::Text(handle@))
    } else {
        result == Err::<Retained<String>, AXError>(status)
    }
}

/// The rectangle that a value holds: the payload of a box tagged as a
/// rectangle, and nothing for any other value.
pub open spec fn rect_in<H>(value: AttributeValue<H>) -> Option<CGRect> {
    match value {
        AttributeValue::Boxed(boxed) => <CGRect as AXValueTypeMarker>::stored_in(boxed),
        _ => None,
    }
}

/// What a query for the selection's bounds yields, given what the call for
/// the bounds wrote and the status it returned.
pub open spec fn bounds_out<H>(written: Option<AttributeValue<H>>, status: AXError) -> Result<
    Option<CGRect>,
    AXError,
> {
    if status.is_success() {
        Ok(rect_in(written->Some_0))
    } else {
        Err(status)
    }
}

impl<H> Controller<H> {
    /// The id of this process.
    pub closed spec fn process(&self) -> i32 {
        self.pid
    }

    /// The system-wide node.
    pub closed spec fn root(&self) -> Retained<H> {
        self.system_wide
    }

    /// A controller on the system-wide node, for the process `pid`.
    /// `trusted` says whether accessibility access has been granted; without
    /// it no controller is made.
    pub fn new(trusted: bool, pid: i32, system_wide: Retained<H>) -> (r: Result<
        Self,
        PermissionDenied,
    >)
        ensures
            trusted ==> (r matches Ok(controller) && controller.process() == pid
                && controller.root() == system_wide),
            !trusted ==> r == Err::<Self, PermissionDenied>(PermissionDenied),
    {
        if trusted {
            Ok(Controller { pid, system_wide })
        } else {
            Err(PermissionDenied)
        }
    }

    /// The id of this process.
    pub fn pid(&self) -> (pid: i32)
        ensures
            pid == self.process(),
    {
        self.pid
    }

    /// The system-wide node.
    pub fn system_wide(&self) -> (node: &Retained<H>)
        ensures
            *node == self.root(),
    {
        &self.system_wide
    }

    /// Asks `node` for `attribute` and takes the answer as a node.
    fn element_of<F>(node: &Retained<H>, attribute: &str, call: F) -> (result: Result<
        Retained<H>,
        AXError,
    >) where F: FnOnce(&H, &str, Slot<AttributeValue<H>>) -> (Slot<AttributeValue<H>>, AXError)
        requires
            call.requires((&node@, attribute, Slot::<AttributeValue<H>>::unwritten())),
            forall|out: (Slot<AttributeValue<H>>, AXError)|
                call.ensures((&node@, attribute, Slot::<AttributeValue<H>>::unwritten()), out)
                    && out.1.is_success() ==> (out.0@ matches Some(AttributeValue::Element(_))),
        ensures
            exists|out: (Slot<AttributeValue<H>>, AXError)|
                call.ensures((&node@, attribute, Slot::<AttributeValue<H>>::unwritten()), out)
                    && element_out(out.0@, out.1, result),
    {
        match node.attribute_value(attribute, call) {
            Ok(value) => {
                match value.downcast_element() {
                    Ok(element) => Ok(element),
                    Err(_) => vstd::pervasive::unreached(),
                }
            },
            Err(status) => Err(status),
        }
    }

    /// The focused application: what the system-wide node holds under
    /// "AXFocusedApplication", as a node.
    ///
    /// `call` is run once, on the system-wide node. Where it reports success
    /// it must have written a node.
    pub fn focused_app<F>(&self, call: F) -> (result: Result<Retained<H>, AXError>) where
        F: FnOnce(&H, &str, Slot<AttributeValue<H>>) -> (Slot<AttributeValue<H>>, AXError),

        requires
            call.requires(
                (
                    &self.root()@,
                    kAXFocusedApplicationAttribute,
                    Slot::<AttributeValue<H>>::unwritten(),
                ),
            ),
            forall|out: (Slot<AttributeValue<H>>, AXError)|
                call.ensures(
                    (
                        &self.root()@,
                        kAXFocusedApplicationAttribute,
                        Slot::<AttributeValue<H>>::unwritten(),
                    ),
                    out,
                ) && out.1.is_success() ==> (out.0@ matches Some(AttributeValue::Element(_))),
        ensures
            exists|out: (Slot<AttributeValue<H>>, AXError)|
                call.ensures(
                    (
                        &self.root()@,
                        kAXFocusedApplicationAttribute,
                        Slot::<AttributeValue<H>>::unwritten(),
                    ),
                    out,
                ) && element_out(out.0@, out.1, result),
    {
        Self::element_of(&self.system_wide, kAXFocusedApplicationAttribute, call)
    }

    /// The node that the focused element is asked of: `element` where there
    /// is one, the system-wide node otherwise.
    pub open spec fn focus_source(&self, element: Option<&Retained<H>>) -> Retained<H> {
        match element {
            Some(node) => *node,
            None => self.root(),
        }
    }

    /// The focused element: what `element`, or without one the system-wide
    /// node, holds under "AXFocusedUIElement", as a node.
    ///
    /// `call` is run once, on that node. Where it reports success it must
    /// have written a node.
    pub fn focused_element<F>(&self, element: Option<&Retained<H>>, call: F) -> (result: Result<
        Retained<H>,
        AXError,
    >) where F: FnOnce(&H, &str, Slot<AttributeValue<H>>) -> (Slot<AttributeValue<H>>, AXError)
        requires
            call.requires(
                (
                    &self.focus_source(element)@,
                    kAXFocusedUIElementAttribute,
                    Slot::<AttributeValue<H>>::unwritten(),
                ),
            ),
            forall|out: (Slot<AttributeValue<H>>, AXError)|
                call.ensures(
                    (
                        &self.focus_source(element)@,
                        kAXFocusedUIElementAttribute,
                        Slot::<AttributeValue<H>>::unwritten(),
                    ),
                    out,
                ) && out.1.is_success() ==> (out.0@ matches Some(AttributeValue::Element(_))),
        ensures
            exists|out: (Slot<AttributeValue<H>>, AXError)|
                call.ensures(
                    (
                        &self.focus_source(element)@,
                        kAXFocusedUIElementAttribute,
                        Slot::<AttributeValue<H>>::unwritten(),
                    ),
                    out,
                ) && element_out(out.0@, out.1, result),
    {
        let source = match element {
            Some(node) => node,
            None => &self.system_wide,
        };
        Self::element_of(source, kAXFocusedUIElementAttribute, call)
    }

    /// The selected text: what `element` holds under "AXSelectedText", as a
    /// string.
    ///
    /// `call` is run once, on `element`. Where it reports success it must
    /// have written a string.
    pub fn selected_text<F>(&self, element: &Retained<H>, call: F) -> (result: Result<
        Retained<String>,
        AXError,
    >) where F: FnOnce(&H, &str, Slot<AttributeValue<H>>) -> (Slot<AttributeValue<H>>, AXError)
        requires
            call.requires(
                (&element@, kAXSelectedTextAttribute, Slot::<AttributeValue<H>>::unwritten()),
            ),
            forall|out: (Slot<AttributeValue<H>>, AXError)|
                call.ensures(
                    (&element@, kAXSelectedTextAttribute, Slot::<AttributeValue<H>>::unwritten()),
                    out,
                ) && out.1.is_success() ==> (out.0@ matches Some(AttributeValue::Text(_))),
        ensures
            exists|out: (Slot<AttributeValue<H>>, AXError)|
                call.ensures(
                    (&element@, kAXSelectedTextAttribute, Slot::<AttributeValue<H>>::unwritten()),
                    out,
                ) && text_out(out.0@, out.1, result),
    {
        let value = element.attribute_value(kAXSelectedTextAttribute, call)?;
        match value.downcast_text() {
            Ok(text) => Ok(text),
            Err(_) => vstd::pervasive::unreached(),
        }
    }

    /// The rectangle that bounds the selected text on screen. `element` is
    /// asked for "AXSelectedTextRange"; where the answer is a box, `element`
    /// is asked for "AXBoundsForRange" of it, and the answer to that is read
    /// as a boxed rectangle. The status of the first call that fails is the
    /// error. Where the range is no box, or the bounds are anything but a
    /// boxed rectangle, there is no rectangle, and no error.
    ///
    /// `range_call` is run once, on `element`; `bounds_call` is run at most
    /// once, on `element` with the box that `range_call` wrote.
    pub fn selected_text_bounds<F, G>(
        &self,
        element: &Retained<H>,
        range_call: F,
        bounds_call: G,
    ) -> (result: Result<Option<CGRect>, AXError>) where
        F: FnOnce(&H, &str, Slot<AttributeValue<H>>) -> (Slot<AttributeValue<H>>, AXError),
        G: FnOnce(&H, &str, &AttributeValue<H>, Slot<AttributeValue<H>>) -> (
            Slot<AttributeValue<H>>,
            AXError,
        ),

        requires
            range_call.requires(
                (
                    &element@,
                    kAXSelectedTextRangeAttribute,
                    Slot::<AttributeValue<H>>::unwritten(),
                ),
            ),
            forall|range: (Slot<AttributeValue<H>>, AXError)|
                #![trigger range_call.ensures(
                    (
                        &element@,
                        kAXSelectedTextRangeAttribute,
                        Slot::<AttributeValue<H>>::unwritten(),
                    ),
                    range,
                )]
                range_call.ensures(
                    (
                        &element@,
                        kAXSelectedTextRangeAttribute,
                        Slot::<AttributeValue<H>>::unwritten(),
                    ),
                    range,
                ) && range.1.is_success() ==> {
                    &&& range.0@ is Some
                    &&& range.0@->Some_0 is Boxed ==> bounds_call.requires(
                        (
                            &element@,
                            kAXBoundsForRangeParameterizedAttribute,
                            &range.0@->Some_0,
                            Slot::<AttributeValue<H>>::unwritten(),
                        ),
                    )
                    &&& range.0@->Some_0 is Boxed ==> forall|
                        bounds: (Slot<AttributeValue<H>>, AXError),
                    |
                        bounds_call.ensures(
                            (
                                &element@,
                                kAXBoundsForRangeParameterizedAttribute,
                                &range.0@->Some_0,
                                Slot::<AttributeValue<H>>::unwritten(),
                            ),
                            bounds,
                        ) && bounds.1.is_success() ==> bounds.0@ is Some
                },
        ensures
            exists|range: (Slot<AttributeValue<H>>, AXError)|
                {
                    &&& #[trigger] range_call.ensures(
                        (
                            &element@,
                            kAXSelectedTextRangeAttribute,
                            Slot::<AttributeValue<H>>::unwritten(),
                        ),
                        range,
                    )
                    &&& !range.1.is_success() ==> result == Err::<Option<CGRect>, AXError>(
                        range.1,
                    )
                    &&& range.1.is_success() && !(range.0@->Some_0 is Boxed) ==> result == Ok::<
                        Option<CGRect>,
                        AXError,
                    >(None)
                    &&& range.1.is_success() && range.0@->Some_0 is Boxed ==> exists|
                        bounds: (Slot<AttributeValue<H>>, AXError),
                    |
                        {
                            &&& #[trigger] bounds_call.ensures(
                                (
                                    &element@,
                                    kAXBoundsForRangeParameterizedAttribute,
                                    &range.0@->Some_0,
                                    Slot::<AttributeValue<H>>::unwritten(),
                                ),
                                bounds,
                            )
                            &&& result == bounds_out(bounds.0@, bounds.1)
                        }
                },
    {
        let range = element.attribute_value(kAXSelectedTextRangeAttribute, range_call)?;
        match range.get() {
            AttributeValue::Boxed(_) => {},
            _ => {
                return Ok(None);
            },
        }
        let bounds = element.parameterized_attribute_value(
            kAXBoundsForRangeParameterizedAttribute,
            range.get(),
            bounds_call,
        )?;
        match bounds.downcast_boxed() {
            Ok(boxed) => Ok(boxed.get().get_value::<CGRect>()),
            Err(_) => Ok(None),
        }
    }

    /// One decision of the poll loop: takes what happened since the last
    /// action and says what to do next. The loop starts in
    /// `PollState::new` with `Input::Wake`, does what each action says
    /// and hands back what came of it.
    pub fn run(&self, state: PollState<H>, input: Input<H>) -> (out: (PollState<H>, Action))
        ensures
            out.0 == next_state(state, input),
            out.1@ == next_action(state, input),
    {
        match (state, input) {
            (PollState::Idle, Input::Wake) => (PollState::FocusedApp, Action::QueryFocusedApp),
            (PollState::FocusedApp, Input::FocusedApp(app)) => {
                let app = match app {
                    Ok(node) => Some(node),
                    Err(_) => None,
                };
                (PollState::FocusedElement { app }, Action::QueryFocusedElement)
            },
            (PollState::FocusedElement { .. }, Input::FocusedElement(Ok(element))) => {
                (PollState::SelectedText { element }, Action::QuerySelectedText)
            },
            (PollState::FocusedElement { .. }, Input::FocusedElement(Err(_))) => {
                (PollState::Sending, Action::Send(Event::NoFocusedElement))
            },
            (PollState::SelectedText { element }, Input::SelectedText(text)) => {
                let text = match text {
                    Ok(handle) => Some(handle),
                    Err(_) => None,
                };
                (PollState::SelectedTextBounds { element, text }, Action::QuerySelectedTextBounds)
            },
            (PollState::SelectedTextBounds { text, .. }, Input::SelectedTextBounds(bounds)) => {
                let text = match text {
                    Some(handle) => handle.into_inner(),
                    None => String::new(),
                };
                let bounds = match bounds {
                    Ok(rect) => rect,
                    Err(_) => None,
                };
                (PollState::Sending, Action::Send(Event::Selection { text, bounds }))
            },
            (PollState::Sending, Input::Sent) => {
                (PollState::Idle, Action::Sleep { millis: POLL_INTERVAL_MILLIS })
            },
            (state, _) => (state, Action::Nothing),
        }
    }
}

/// Where the focused application cannot be had the walk goes on: the focused
/// element is asked for next, and it is asked of the system-wide node.
pub proof fn lemma_focus_falls_back_to_root<H>(controller: Controller<H>, status: AXError)
    ensures
        next_state(PollState::<H>::FocusedApp, Input::FocusedApp(Err(status)))
            == (PollState::<H>::FocusedElement { app: None }),
        next_action(PollState::<H>::FocusedApp, Input::FocusedApp(Err(status)))
            == ActionView::QueryFocusedElement,
        controller.focus_source(None) == controller.root(),
{
}

/// Where the focused application was found, the focused element is asked of
/// it.
pub proof fn lemma_focus_follows_application<H>(controller: Controller<H>, app: Retained<H>)
    ensures
        next_state(PollState::<H>::FocusedApp, Input::FocusedApp(Ok(app))).app() == Some(app),
        controller.focus_source(Some(&app)) == app,
{
}

} // verus!
