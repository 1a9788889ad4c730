//! The decisions of the poll loop: where a cycle stands, what has come in,
//! and what is to be done next.

use objc2_core_foundation::CGRect;
use vstd::prelude::*;

use crate::accessibility::AXError;
use crate::accessibility::Retained;
use crate::event::Event;
use crate::event::EventView;

verus! {

/// How long the poll loop sleeps between two cycles, in milliseconds.
pub const POLL_INTERVAL_MILLIS: u64 = 1500;

/// Where the poll loop stands. A cycle runs from `Idle` through the queries
/// to `Sending`, and is back at `Idle` once its event has been sent.
#[derive(Debug, PartialEq)]
pub enum PollState<H> {
    /// Between two cycles.
    Idle,
    /// The focused application has been asked for.
    FocusedApp,
    /// The focused element has been asked for: of `app` where the focused
    /// application was found, of the system-wide node otherwise.
    FocusedElement { app: Option<Retained<H>> },
    /// The selected text of `element` has been asked for.
    SelectedText { element: Retained<H> },
    /// The bounds of the selection of `element` have been asked for; `text`
    /// is the selected text, where it could be had.
    SelectedTextBounds { element: Retained<H>, text: Option<Retained<String>> },
    /// The cycle's event has been handed out and is being sent.
    Sending,
}

/// What happened since the last action.
#[derive(Debug, PartialEq)]
pub enum Input<H> {
    /// The sleep between two cycles is over, or the loop has just started.
    Wake,
    /// What `Controller::focused_app` returned.
    FocusedApp(Result<Retained<H>, AXError>),
    /// What `Controller::focused_element` returned.
    FocusedElement(Result<Retained<H>, AXError>),
    /// What `Controller::selected_text` returned.
    SelectedText(Result<Retained<String>, AXError>),
    /// What `Controller::selected_text_bounds` returned.
    SelectedTextBounds(Result<Option<CGRect>, AXError>),
    /// The event has been sent.
    Sent,
}

/// What the poll loop is to do next.
#[derive(Clone, Debug, PartialEq)]
pub enum Action {
    /// Call `Controller::focused_app`.
    QueryFocusedApp,
    /// Call `Controller::focused_element` with the state's
    /// [`PollState::focused_app`].
    QueryFocusedElement,
    /// Call `Controller::selected_text` on the state's
    /// [`PollState::focused_element`].
    QuerySelectedText,
    /// Call `Controller::selected_text_bounds` on the state's
    /// [`PollState::focused_element`].
    QuerySelectedTextBounds,
    /// Send the event to the consumer.
    Send(Event),
    /// Sleep for so many milliseconds.
    Sleep { millis: u64 },
    /// The input was not awaited in this state: nothing is to be done.
    Nothing,
}

/// An action, with the event it sends taken by its view.
pub enum ActionView {
    QueryFocusedApp,
    QueryFocusedElement,
    QuerySelectedText,
    QuerySelectedTextBounds,
    Send(EventView),
    Sleep { millis: u64 },
    Nothing,
}

impl View for Action {
    type V = ActionView;

    open spec fn view(&self) -> ActionView {
        match *self {
            Action::QueryFocusedApp => ActionView::QueryFocusedApp,
            Action::QueryFocusedElement => ActionView::QueryFocusedElement,
            Action::QuerySelectedText => ActionView::QuerySelectedText,
            Action::QuerySelectedTextBounds => ActionView::QuerySelectedTextBounds,
            Action::Send(event) => ActionView::Send(event@),
            Action::Sleep { millis } => ActionView::Sleep { millis },
            Action::Nothing => ActionView::Nothing,
        }
    }
}

/// The event of a cycle that found a focused element: the selected text,
/// empty where it could not be had, and the bounds where they could be had.
pub open spec fn selection_event(
    text: Option<Retained<String>>,
    bounds: Result<Option<CGRect>, AXError>,
) -> EventView {
    EventView::Selection {
        text: match text {
            Some(handle) => handle@@,
            None => Seq::<char>::empty(),
        },
        bounds: match bounds {
            Ok(rect) => rect,
            Err(_) => None,
        },
    }
}

/// What is kept of a fallible step: its value, where it succeeded.
pub open spec fn kept<T>(result: Result<T, AXError>) -> Option<T> {
    match result {
        Ok(value) => Some(value),
        Err(_) => None,
    }
}

/// The state after `input` has come in `state`.
pub open spec fn next_state<H>(state: PollState<H>, input: Input<H>) -> PollState<H> {
    match (state, input) {
        (PollState::Idle, Input::Wake) => PollState::FocusedApp,
        (PollState::FocusedApp, Input::FocusedApp(app)) => PollState::FocusedElement {
            app: kept(app),
        },
        (PollState::FocusedElement { .. }, Input::FocusedElement(Ok(element))) => {
            PollState::SelectedText { element }
        },
        (PollState::FocusedElement { .. }, Input::FocusedElement(Err(_))) => PollState::Sending,
        (PollState::SelectedText { element }, Input::SelectedText(text)) => {
            PollState::SelectedTextBounds { element, text: kept(text) }
        },
        (PollState::SelectedTextBounds { .. }, Input::SelectedTextBounds(_)) => {
            PollState::Sending
        },
        (PollState::Sending, Input::Sent) => PollState::Idle,
        _ => state,
    }
}

/// What is to be done after `input` has come in `state`.
pub open spec fn next_action<H>(state: PollState<H>, input: Input<H>) -> ActionView {
    match (state, input) {
        (PollState::Idle, Input::Wake) => ActionView::QueryFocusedApp,
        (PollState::FocusedApp, Input::FocusedApp(_)) => ActionView::QueryFocusedElement,
        (PollState::FocusedElement { .. }, Input::FocusedElement(Ok(_))) => {
            ActionView::QuerySelectedText
        },
        (PollState::FocusedElement { .. }, Input::FocusedElement(Err(_))) => ActionView::Send(
            EventView::NoFocusedElement,
        ),
        (PollState::SelectedText { .. }, Input::SelectedText(_)) => {
            ActionView::QuerySelectedTextBounds
        },
        (PollState::SelectedTextBounds { text, .. }, Input::SelectedTextBounds(bounds)) => {
            ActionView::Send(selection_event(text, bounds))
        },
        (PollState::Sending, Input::Sent) => ActionView::Sleep { millis: POLL_INTERVAL_MILLIS },
        _ => ActionView::Nothing,
    }
}

impl<H> PollState<H> {
    /// The focused application that this state holds.
    pub open spec fn app(self) -> Option<Retained<H>> {
        match self {
            PollState::FocusedElement { app } => app,
            _ => None,
        }
    }

    /// The focused element that this state holds.
    pub open spec fn element(self) -> Option<Retained<H>> {
        match self {
            PollState::SelectedText { element } => Some(element),
            PollState::SelectedTextBounds { element, .. } => Some(element),
            _ => None,
        }
    }

    /// The state that the poll loop starts in.
    pub fn new() -> (state: Self)
        ensures
            state == PollState::<H>::Idle,
    {
        PollState::Idle
    }

    /// The focused application that this state holds: the node that the
    /// focused element is to be asked of, where there is one.
    pub fn focused_app(&self) -> (app: Option<&Retained<H>>)
        ensures
            match app {
                Some(node) => self.app() == Some(*node),
                None => self.app() is None,
            },
    {
        match self {
            PollState::FocusedElement { app: Some(node) } => Some(node),
            _ => None,
        }
    }

    /// The focused element that this state holds: the node that the
    /// selection is to be asked of.
    pub fn focused_element(&self) -> (element: Option<&Retained<H>>)
        ensures
            match element {
                Some(node) => self.element() == Some(*node),
                None => self.element() is None,
            },
    {
        match self {
            PollState::SelectedText { element } => Some(element),
            PollState::SelectedTextBounds { element, .. } => Some(element),
            _ => None,
        }
    }
}

/// The state that a run of inputs leads to.
pub open spec fn state_after<H>(state: PollState<H>, inputs: Seq<Input<H>>) -> PollState<H>
    decreases inputs.len(),
{
    if inputs.len() == 0 {
        state
    } else {
        state_after(next_state(state, inputs[0]), inputs.drop_first())
    }
}

/// The events that are handed out for sending along a run of inputs, in
/// their order.
pub open spec fn events_sent<H>(state: PollState<H>, inputs: Seq<Input<H>>) -> Seq<EventView>
    decreases inputs.len(),
{
    if inputs.len() == 0 {
        Seq::<EventView>::empty()
    } else {
        let rest = events_sent(next_state(state, inputs[0]), inputs.drop_first());
        match next_action(state, inputs[0]) {
            ActionView::Send(event) => seq![event] + rest,
            _ => rest,
        }
    }
}

/// The inputs of one whole cycle, from waking up to the event being sent,
/// given what each query returns. Without a focused element the selection is
/// not asked for.
pub open spec fn cycle_inputs<H>(
    app: Result<Retained<H>, AXError>,
    element: Result<Retained<H>, AXError>,
    text: Result<Retained<String>, AXError>,
    bounds: Result<Option<CGRect>, AXError>,
) -> Seq<Input<H>> {
    if element is Ok {
        seq![
            Input::Wake,
            Input::FocusedApp(app),
            Input::FocusedElement(element),
            Input::SelectedText(text),
            Input::SelectedTextBounds(bounds),
            Input::Sent,
        ]
    } else {
        seq![Input::Wake, Input::FocusedApp(app), Input::FocusedElement(element), Input::Sent]
    }
}

/// The event of one whole cycle, given what each query returns.
pub open spec fn cycle_event<H>(
    element: Result<Retained<H>, AXError>,
    text: Result<Retained<String>, AXError>,
    bounds: Result<Option<CGRect>, AXError>,
) -> EventView {
    if element is Ok {
        selection_event(kept(text), bounds)
    } else {
        EventView::NoFocusedElement
    }
}

/// Where the focused element cannot be had the selection is not asked for:
/// the cycle ends at once, with an event that holds no text and no bounds.
pub proof fn lemma_no_focused_element_ends_cycle<H>(app: Option<Retained<H>>, status: AXError)
    ensures
        next_state(PollState::FocusedElement { app }, Input::FocusedElement(Err(status)))
            == PollState::<H>::Sending,
        next_action(PollState::FocusedElement { app }, Input::FocusedElement(Err(status)))
            == ActionView::Send(EventView::NoFocusedElement),
{
}

/// Where the selected text could be had and its bounds could not, the cycle
/// still yields the text, without bounds.
pub proof fn lemma_text_without_bounds<H>(
    element: Retained<H>,
    text: Retained<String>,
    status: AXError,
)
    ensures
        next_action(
            PollState::SelectedTextBounds { element, text: Some(text) },
            Input::SelectedTextBounds(Err(status)),
        ) == ActionView::Send(EventView::Selection { text: text@@, bounds: None }),
        next_action(
            PollState::SelectedTextBounds { element, text: Some(text) },
            Input::SelectedTextBounds(Ok(None)),
        ) == ActionView::Send(EventView::Selection { text: text@@, bounds: None }),
{
}

/// Where the bounds could be had and the selected text could not, the cycle
/// still yields the bounds, with empty text.
pub proof fn lemma_bounds_without_text<H>(element: Retained<H>, rect: CGRect)
    ensures
        next_action(
            PollState::SelectedTextBounds { element, text: None },
            Input::SelectedTextBounds(Ok(Some(rect))),
        ) == ActionView::Send(
            EventView::Selection { text: Seq::<char>::empty(), bounds: Some(rect) },
        ),
{
}

/// Cycles do not overlap: while a cycle is under way, or its event is still
/// being sent, waking up starts nothing.
pub proof fn lemma_cycles_do_not_overlap<H>(state: PollState<H>)
    requires
        state != PollState::<H>::Idle,
    ensures
        next_state(state, Input::Wake) == state,
        next_action(state, Input::Wake) == ActionView::Nothing,
{
}

/// One whole cycle hands out exactly one event, the one that the results of
/// its queries determine, and leaves the loop where it started: what a cycle
/// met has no bearing on the next.
pub proof fn lemma_cycle_sends_one_event<H>(
    app: Result<Retained<H>, AXError>,
    element: Result<Retained<H>, AXError>,
    text: Result<Retained<String>, AXError>,
    bounds: Result<Option<CGRect>, AXError>,
)
    ensures
        events_sent(PollState::<H>::Idle, cycle_inputs(app, element, text, bounds)) == seq![
            cycle_event(element, text, bounds),
        ],
        state_after(PollState::<H>::Idle, cycle_inputs(app, element, text, bounds))
            == PollState::<H>::Idle,
{
    let inputs = cycle_inputs(app, element, text, bounds);
    reveal_with_fuel(state_after, 8);
    reveal_with_fuel(events_sent, 8);
    let i1 = inputs.drop_first();
    let i2 = i1.drop_first();
    let i3 = i2.drop_first();
    let i4 = i3.drop_first();
    if element is Ok {
        let i5 = i4.drop_first();
        let i6 = i5.drop_first();
        assert(i6.len() == 0);
        assert(events_sent(PollState::<H>::Idle, inputs) =~= seq![
            cycle_event(element, text, bounds),
        ]);
    } else {
        assert(i4.len() == 0);
        assert(events_sent(PollState::<H>::Idle, inputs) =~= seq![
            cycle_event(element, text, bounds),
        ]);
    }
}

} // verus!
