use std::sync::mpsc;

use ax_bridge::accessibility::AXError;
use ax_bridge::accessibility::AXValue;
use ax_bridge::accessibility::AttributeValue;
use ax_bridge::accessibility::Retained;
use ax_bridge::accessibility::Slot;
use ax_bridge::accessibility::cf_call_owned;
use ax_bridge::accessibility::error::ATTRIBUTE_UNSUPPORTED;
use ax_bridge::accessibility::error::CANNOT_COMPLETE;
use ax_bridge::accessibility::error::NO_VALUE;
use ax_bridge::accessibility::error::PARAMETERIZED_ATTRIBUTE_UNSUPPORTED;
use ax_bridge::accessibility::error::SUCCESS;
use ax_bridge::controller::Controller;
use ax_bridge::controller::PermissionDenied;
use ax_bridge::event::Event;
use ax_bridge::poll::Action;
use ax_bridge::poll::Input;
use ax_bridge::poll::POLL_INTERVAL_MILLIS;
use ax_bridge::poll::PollState;
use objc2_core_foundation::CFRange;
use objc2_core_foundation::CGPoint;
use objc2_core_foundation::CGRect;
use objc2_core_foundation::CGSize;

type Value = AttributeValue<u32>;

const ROOT: u32 = 1;
const APP: u32 = 20;
const FIELD: u32 = 300;

fn node(id: u32) -> Retained<u32> {
    let made: Result<Retained<u32>, AXError> =
        cf_call_owned(|slot: Slot<u32>| (slot.write(id), Ok(())));
    made.unwrap()
}

fn text(content: &str) -> Retained<String> {
    let made: Result<Retained<String>, AXError> =
        cf_call_owned(|slot: Slot<String>| (slot.write(content.to_string()), Ok(())));
    made.unwrap()
}

fn controller() -> Controller<u32> {
    Controller::new(true, 77, node(ROOT)).unwrap()
}

fn rect() -> CGRect {
    CGRect::new(CGPoint::new(10.0, 20.0), CGSize::new(100.0, 16.0))
}

fn range_box(location: isize, length: isize) -> Value {
    AttributeValue::Boxed(AXValue::Range(CFRange::new(location, length)))
}

fn selection(text: &str, bounds: Option<CGRect>) -> Event {
    Event::Selection { text: text.to_string(), bounds }
}

#[test]
fn construction_fails_without_permission() {
    let made = Controller::new(false, 77, node(ROOT));
    assert_eq!(made.err(), Some(PermissionDenied));
}

#[test]
fn construction_keeps_pid_and_root() {
    let made = Controller::new(true, 77, node(ROOT)).unwrap();
    assert_eq!(made.pid(), 77);
    assert_eq!(*made.system_wide().get(), ROOT);
}

#[test]
fn no_poll_loop_starts_without_permission() {
    let mut cycles = 0;
    if let Ok(made) = Controller::new(false, 77, node(ROOT)) {
        let (_, action) = made.run(PollState::new(), Input::Wake);
        assert_eq!(action, Action::QueryFocusedApp);
        cycles += 1;
    }
    assert_eq!(cycles, 0);
}

#[test]
fn focused_app_asks_the_root_for_the_focused_application() {
    let got = controller().focused_app(|node: &u32, name: &str, slot: Slot<Value>| {
        assert_eq!(*node, ROOT);
        assert_eq!(name, "AXFocusedApplication");
        (slot.write(AttributeValue::Element(APP)), AXError(SUCCESS))
    });
    assert_eq!(got.unwrap().into_inner(), APP);
}

#[test]
fn focused_app_fails_with_the_status() {
    let got = controller()
        .focused_app(|_node: &u32, _name: &str, slot: Slot<Value>| (slot, AXError(NO_VALUE)));
    assert_eq!(got, Err(AXError(NO_VALUE)));
}

#[test]
fn focused_element_asks_the_application() {
    let app = node(APP);
    let got =
        controller().focused_element(Some(&app), |node: &u32, name: &str, slot: Slot<Value>| {
            assert_eq!(*node, APP);
            assert_eq!(name, "AXFocusedUIElement");
            (slot.write(AttributeValue::Element(FIELD)), AXError(SUCCESS))
        });
    assert_eq!(got.unwrap().into_inner(), FIELD);
}

#[test]
fn focused_element_falls_back_to_the_root() {
    let got = controller().focused_element(None, |node: &u32, name: &str, slot: Slot<Value>| {
        assert_eq!(*node, ROOT);
        assert_eq!(name, "AXFocusedUIElement");
        (slot.write(AttributeValue::Element(FIELD)), AXError(SUCCESS))
    });
    assert_eq!(got.unwrap().into_inner(), FIELD);
}

#[test]
fn focused_element_fails_with_the_status() {
    let app = node(APP);
    let got =
        controller().focused_element(Some(&app), |_node: &u32, _name: &str, slot: Slot<Value>| {
            (slot, AXError(CANNOT_COMPLETE))
        });
    assert_eq!(got, Err(AXError(CANNOT_COMPLETE)));
}

#[test]
fn selected_text_asks_the_element_for_its_selected_text() {
    let field = node(FIELD);
    let got = controller().selected_text(&field, |node: &u32, name: &str, slot: Slot<Value>| {
        assert_eq!(*node, FIELD);
        assert_eq!(name, "AXSelectedText");
        (slot.write(AttributeValue::Text(String::from("hello"))), AXError(SUCCESS))
    });
    assert_eq!(got.unwrap().into_inner(), "hello");
}

#[test]
fn selected_text_may_be_empty() {
    let field = node(FIELD);
    let got = controller().selected_text(&field, |_node: &u32, _name: &str, slot: Slot<Value>| {
        (slot.write(AttributeValue::Text(String::new())), AXError(SUCCESS))
    });
    assert_eq!(got.unwrap().into_inner(), "");
}

#[test]
fn selected_text_fails_with_the_status() {
    let field = node(FIELD);
    let got = controller().selected_text(&field, |_node: &u32, _name: &str, slot: Slot<Value>| {
        (slot, AXError(ATTRIBUTE_UNSUPPORTED))
    });
    assert_eq!(got, Err(AXError(ATTRIBUTE_UNSUPPORTED)));
}

#[test]
fn selected_text_bounds_asks_for_the_bounds_of_the_selected_range() {
    let field = node(FIELD);
    let got = controller().selected_text_bounds(
        &field,
        |node: &u32, name: &str, slot: Slot<Value>| {
            assert_eq!(*node, FIELD);
            assert_eq!(name, "AXSelectedTextRange");
            (slot.write(range_box(2, 5)), AXError(SUCCESS))
        },
        |node: &u32, name: &str, parameter: &Value, slot: Slot<Value>| {
            assert_eq!(*node, FIELD);
            assert_eq!(name, "AXBoundsForRange");
            assert_eq!(*parameter, range_box(2, 5));
            (slot.write(AttributeValue::Boxed(AXValue::Rect(rect()))), AXError(SUCCESS))
        },
    );
    assert_eq!(got, Ok(Some(rect())));
}

#[test]
fn selected_text_bounds_fails_with_the_status_of_the_range_query() {
    let field = node(FIELD);
    let mut asked_for_bounds = false;
    let got = controller().selected_text_bounds(
        &field,
        |_node: &u32, _name: &str, slot: Slot<Value>| (slot, AXError(NO_VALUE)),
        |_node: &u32, _name: &str, _parameter: &Value, slot: Slot<Value>| {
            asked_for_bounds = true;
            (slot, AXError(CANNOT_COMPLETE))
        },
    );
    assert_eq!(got, Err(AXError(NO_VALUE)));
    assert!(!asked_for_bounds);
}

#[test]
fn selected_text_bounds_fails_with_the_status_of_the_bounds_query() {
    let field = node(FIELD);
    let got = controller().selected_text_bounds(
        &field,
        |_node: &u32, _name: &str, slot: Slot<Value>| {
            (slot.write(range_box(0, 1)), AXError(SUCCESS))
        },
        |_node: &u32, _name: &str, _parameter: &Value, slot: Slot<Value>| {
            (slot, AXError(PARAMETERIZED_ATTRIBUTE_UNSUPPORTED))
        },
    );
    assert_eq!(got, Err(AXError(PARAMETERIZED_ATTRIBUTE_UNSUPPORTED)));
}

#[test]
fn selected_text_bounds_does_not_ask_for_the_bounds_of_a_range_that_is_no_box() {
    let field = node(FIELD);
    let mut asked_for_bounds = false;
    let got = controller().selected_text_bounds(
        &field,
        |_node: &u32, _name: &str, slot: Slot<Value>| {
            (slot.write(AttributeValue::Text(String::from("0..5"))), AXError(SUCCESS))
        },
        |_node: &u32, _name: &str, _parameter: &Value, slot: Slot<Value>| {
            asked_for_bounds = true;
            (slot.write(AttributeValue::Boxed(AXValue::Rect(rect()))), AXError(SUCCESS))
        },
    );
    assert_eq!(got, Ok(None));
    assert!(!asked_for_bounds);
}

#[test]
fn selected_text_bounds_has_no_rectangle_in_a_box_of_another_shape() {
    let field = node(FIELD);
    let got = controller().selected_text_bounds(
        &field,
        |_node: &u32, _name: &str, slot: Slot<Value>| {
            (slot.write(range_box(0, 1)), AXError(SUCCESS))
        },
        |_node: &u32, _name: &str, _parameter: &Value, slot: Slot<Value>| {
            let size = AXValue::Size(CGSize::new(100.0, 16.0));
            (slot.write(AttributeValue::Boxed(size)), AXError(SUCCESS))
        },
    );
    assert_eq!(got, Ok(None));
}

#[test]
fn selected_text_bounds_has_no_rectangle_in_a_value_that_is_no_box() {
    let field = node(FIELD);
    let got = controller().selected_text_bounds(
        &field,
        |_node: &u32, _name: &str, slot: Slot<Value>| {
            (slot.write(range_box(0, 1)), AXError(SUCCESS))
        },
        |_node: &u32, _name: &str, _parameter: &Value, slot: Slot<Value>| {
            (slot.write(AttributeValue::Text(String::from("10,20,100,16"))), AXError(SUCCESS))
        },
    );
    assert_eq!(got, Ok(None));
}

#[test]
fn the_poll_interval_is_one_and_a_half_seconds() {
    assert_eq!(POLL_INTERVAL_MILLIS, 1500);
}

#[test]
fn a_cycle_starts_by_asking_for_the_focused_application() {
    let (state, action) = controller().run(PollState::new(), Input::Wake);
    assert_eq!(state, PollState::FocusedApp);
    assert_eq!(action, Action::QueryFocusedApp);
}

#[test]
fn without_a_focused_application_the_root_is_asked_for_the_focused_element() {
    let walker = controller();
    let (state, _) = walker.run(PollState::new(), Input::Wake);
    let (state, action) = walker.run(state, Input::FocusedApp(Err(AXError(NO_VALUE))));
    assert_eq!(action, Action::QueryFocusedElement);
    assert_eq!(state, PollState::FocusedElement { app: None });
    assert_eq!(state.focused_app(), None);
    let source = state.focused_app();
    let got = walker.focused_element(source, |node: &u32, _name: &str, slot: Slot<Value>| {
        assert_eq!(*node, ROOT);
        (slot.write(AttributeValue::Element(FIELD)), AXError(SUCCESS))
    });
    assert_eq!(got.unwrap().into_inner(), FIELD);
}

#[test]
fn with_a_focused_application_it_is_asked_for_the_focused_element() {
    let walker = controller();
    let (state, _) = walker.run(PollState::new(), Input::Wake);
    let (state, action) = walker.run(state, Input::FocusedApp(Ok(node(APP))));
    assert_eq!(action, Action::QueryFocusedElement);
    assert_eq!(state.focused_app().map(|app| *app.get()), Some(APP));
    assert_eq!(state.focused_element(), None);
}

#[test]
fn without_a_focused_element_the_selection_is_not_asked_for() {
    let walker = controller();
    let (state, _) = walker.run(PollState::new(), Input::Wake);
    let (state, _) = walker.run(state, Input::FocusedApp(Err(AXError(NO_VALUE))));
    let (state, action) = walker.run(state, Input::FocusedElement(Err(AXError(NO_VALUE))));
    assert_eq!(action, Action::Send(Event::NoFocusedElement));
    assert_eq!(state, PollState::Sending);
    assert_eq!(state.focused_element(), None);
}

#[test]
fn focused_application_without_focused_element_yields_no_focused_element() {
    let walker = controller();
    let (state, _) = walker.run(PollState::new(), Input::Wake);
    let (state, _) = walker.run(state, Input::FocusedApp(Ok(node(APP))));
    let (state, action) = walker.run(state, Input::FocusedElement(Err(AXError(CANNOT_COMPLETE))));
    assert_eq!(action, Action::Send(Event::NoFocusedElement));
    let (state, action) = walker.run(state, Input::Sent);
    assert_eq!(action, Action::Sleep { millis: 1500 });
    assert_eq!(state, PollState::Idle);
    let (state, action) = walker.run(state, Input::Wake);
    assert_eq!(action, Action::QueryFocusedApp);
    assert_eq!(state, PollState::FocusedApp);
}

#[test]
fn text_without_bounds_is_a_selection() {
    let walker = controller();
    let (state, _) = walker.run(PollState::new(), Input::Wake);
    let (state, _) = walker.run(state, Input::FocusedApp(Ok(node(APP))));
    let (state, action) = walker.run(state, Input::FocusedElement(Ok(node(FIELD))));
    assert_eq!(action, Action::QuerySelectedText);
    assert_eq!(state.focused_element().map(|field| *field.get()), Some(FIELD));
    let (state, action) = walker.run(state, Input::SelectedText(Ok(text("some words"))));
    assert_eq!(action, Action::QuerySelectedTextBounds);
    assert_eq!(state.focused_element().map(|field| *field.get()), Some(FIELD));
    let failed = Input::SelectedTextBounds(Err(AXError(PARAMETERIZED_ATTRIBUTE_UNSUPPORTED)));
    let (state, action) = walker.run(state, failed);
    assert_eq!(action, Action::Send(selection("some words", None)));
    assert_eq!(state, PollState::Sending);
}

#[test]
fn text_with_an_answer_that_holds_no_rectangle_is_a_selection() {
    let walker = controller();
    let state = PollState::SelectedTextBounds { element: node(FIELD), text: Some(text("abc")) };
    let (_, action) = walker.run(state, Input::SelectedTextBounds(Ok(None)));
    assert_eq!(action, Action::Send(selection("abc", None)));
}

#[test]
fn bounds_without_text_is_a_selection_with_empty_text() {
    let walker = controller();
    let state = PollState::SelectedText { element: node(FIELD) };
    let (state, action) = walker.run(state, Input::SelectedText(Err(AXError(NO_VALUE))));
    assert_eq!(action, Action::QuerySelectedTextBounds);
    let (_, action) = walker.run(state, Input::SelectedTextBounds(Ok(Some(rect()))));
    assert_eq!(action, Action::Send(selection("", Some(rect()))));
}

#[test]
fn neither_text_nor_bounds_is_an_empty_selection() {
    let walker = controller();
    let state = PollState::SelectedText { element: node(FIELD) };
    let (state, _) = walker.run(state, Input::SelectedText(Err(AXError(NO_VALUE))));
    let (_, action) = walker.run(state, Input::SelectedTextBounds(Err(AXError(NO_VALUE))));
    assert_eq!(action, Action::Send(selection("", None)));
}

#[test]
fn an_input_that_is_not_awaited_changes_nothing() {
    let walker = controller();
    let (state, action) = walker.run(PollState::new(), Input::Sent);
    assert_eq!((state, action), (PollState::Idle, Action::Nothing));
    let (state, action) = walker.run(PollState::FocusedApp, Input::Wake);
    assert_eq!((state, action), (PollState::FocusedApp, Action::Nothing));
    let (state, action) = walker.run(PollState::Sending, Input::FocusedApp(Ok(node(APP))));
    assert_eq!((state, action), (PollState::Sending, Action::Nothing));
    let waiting = PollState::SelectedText { element: node(FIELD) };
    let (state, action) = walker.run(waiting, Input::SelectedTextBounds(Ok(Some(rect()))));
    assert_eq!(state, PollState::SelectedText { element: node(FIELD) });
    assert_eq!(action, Action::Nothing);
}

#[test]
fn full_chain_sends_text_and_bounds_exactly_once() {
    let walker = controller();
    let (sender, receiver) = mpsc::channel();
    let mut state = PollState::new();
    let mut input = Input::Wake;
    let mut slept = None;
    while slept.is_none() {
        let (next, action) = walker.run(state, input);
        state = next;
        input = match action {
            Action::QueryFocusedApp => {
                Input::FocusedApp(walker.focused_app(|_node: &u32, _name: &str, slot: Slot<Value>| {
                    (slot.write(AttributeValue::Element(APP)), AXError(SUCCESS))
                }))
            }
            Action::QueryFocusedElement => Input::FocusedElement(walker.focused_element(
                state.focused_app(),
                |node: &u32, _name: &str, slot: Slot<Value>| {
                    assert_eq!(*node, APP);
                    (slot.write(AttributeValue::Element(FIELD)), AXError(SUCCESS))
                },
            )),
            Action::QuerySelectedText => Input::SelectedText(walker.selected_text(
                state.focused_element().unwrap(),
                |_node: &u32, _name: &str, slot: Slot<Value>| {
                    (slot.write(AttributeValue::Text(String::from("hello"))), AXError(SUCCESS))
                },
            )),
            Action::QuerySelectedTextBounds => {
                Input::SelectedTextBounds(walker.selected_text_bounds(
                    state.focused_element().unwrap(),
                    |_node: &u32, _name: &str, slot: Slot<Value>| {
                        (slot.write(range_box(0, 5)), AXError(SUCCESS))
                    },
                    |_node: &u32, _name: &str, _range: &Value, slot: Slot<Value>| {
                        (slot.write(AttributeValue::Boxed(AXValue::Rect(rect()))), AXError(SUCCESS))
                    },
                ))
            }
            Action::Send(event) => {
                sender.send(event).unwrap();
                Input::Sent
            }
            Action::Sleep { millis } => {
                slept = Some(millis);
                Input::Wake
            }
            Action::Nothing => panic!("the loop handed in an input that was not awaited"),
        };
    }
    assert_eq!(slept, Some(1500));
    assert_eq!(state, PollState::Idle);
    let sent: Vec<Event> = receiver.try_iter().collect();
    assert_eq!(sent, vec![selection("hello", Some(rect()))]);
    match &sent[0] {
        Event::Selection { text, bounds } => {
            assert_eq!(text, "hello");
            let bounds = bounds.unwrap();
            assert_eq!(bounds.origin.x, 10.0);
            assert_eq!(bounds.origin.y, 20.0);
            assert_eq!(bounds.size.width, 100.0);
            assert_eq!(bounds.size.height, 16.0);
        }
        Event::NoFocusedElement => panic!("a selection was expected"),
    }
}

#[test]
fn a_failed_cycle_does_not_affect_the_next() {
    let walker = controller();
    let (state, _) = walker.run(PollState::new(), Input::Wake);
    let (state, _) = walker.run(state, Input::FocusedApp(Err(AXError(CANNOT_COMPLETE))));
    let (state, first) = walker.run(state, Input::FocusedElement(Err(AXError(CANNOT_COMPLETE))));
    let (state, _) = walker.run(state, Input::Sent);
    let (state, _) = walker.run(state, Input::Wake);
    let (state, _) = walker.run(state, Input::FocusedApp(Ok(node(APP))));
    let (state, _) = walker.run(state, Input::FocusedElement(Ok(node(FIELD))));
    let (state, _) = walker.run(state, Input::SelectedText(Ok(text("hello"))));
    let (state, second) = walker.run(state, Input::SelectedTextBounds(Ok(Some(rect()))));
    assert_eq!(first, Action::Send(Event::NoFocusedElement));
    assert_eq!(second, Action::Send(selection("hello", Some(rect()))));
    assert_eq!(state, PollState::Sending);
}
