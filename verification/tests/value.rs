use ax_bridge::accessibility::error::NO_VALUE;
use ax_bridge::accessibility::AXError;
use ax_bridge::accessibility::AXValue;
use ax_bridge::accessibility::AXValueExt;
use ax_bridge::accessibility::AXValueType;
use ax_bridge::accessibility::AXValueTypeMarker;
use ax_bridge::accessibility::Slot;
use objc2_core_foundation::CFRange;
use objc2_core_foundation::CGPoint;
use objc2_core_foundation::CGRect;
use objc2_core_foundation::CGSize;

fn point() -> CGPoint {
    CGPoint::new(1.5, -2.0)
}

fn size() -> CGSize {
    CGSize::new(30.0, 40.0)
}

fn rect() -> CGRect {
    CGRect::new(CGPoint::new(10.0, 20.0), CGSize::new(100.0, 16.0))
}

fn range() -> CFRange {
    CFRange::new(3, 5)
}

fn boxes() -> [AXValue; 6] {
    [
        AXValue::Point(point()),
        AXValue::Size(size()),
        AXValue::Rect(rect()),
        AXValue::Range(range()),
        AXValue::Error(AXError(NO_VALUE)),
        AXValue::Illegal,
    ]
}

#[test]
fn a_box_carries_the_tag_of_its_shape() {
    assert_eq!(AXValue::Point(point()).get_type(), AXValueType::CGPoint);
    assert_eq!(AXValue::Size(size()).get_type(), AXValueType::CGSize);
    assert_eq!(AXValue::Rect(rect()).get_type(), AXValueType::CGRect);
    assert_eq!(AXValue::Range(range()).get_type(), AXValueType::CFRange);
    assert_eq!(AXValue::Error(AXError(NO_VALUE)).get_type(), AXValueType::AXError);
    assert_eq!(AXValue::Illegal.get_type(), AXValueType::Illegal);
}

#[test]
fn each_shape_has_its_tag() {
    assert_eq!(<CGPoint as AXValueTypeMarker>::tag(), AXValueType::CGPoint);
    assert_eq!(<CGSize as AXValueTypeMarker>::tag(), AXValueType::CGSize);
    assert_eq!(<CGRect as AXValueTypeMarker>::tag(), AXValueType::CGRect);
    assert_eq!(<CFRange as AXValueTypeMarker>::tag(), AXValueType::CFRange);
    assert_eq!(<AXError as AXValueTypeMarker>::tag(), AXValueType::AXError);
}

#[test]
fn get_value_reads_a_box_under_its_own_tag() {
    assert_eq!(AXValue::Point(point()).get_value::<CGPoint>(), Some(point()));
    assert_eq!(AXValue::Size(size()).get_value::<CGSize>(), Some(size()));
    assert_eq!(AXValue::Rect(rect()).get_value::<CGRect>(), Some(rect()));
    assert_eq!(AXValue::Range(range()).get_value::<CFRange>(), Some(range()));
    assert_eq!(
        AXValue::Error(AXError(NO_VALUE)).get_value::<AXError>(),
        Some(AXError(NO_VALUE))
    );
}

#[test]
fn get_value_keeps_the_payload_exactly() {
    let got = AXValue::Rect(rect()).get_value::<CGRect>().unwrap();
    assert_eq!(got.origin.x, 10.0);
    assert_eq!(got.origin.y, 20.0);
    assert_eq!(got.size.width, 100.0);
    assert_eq!(got.size.height, 16.0);
    let got = AXValue::Range(range()).get_value::<CFRange>().unwrap();
    assert_eq!(got.location, 3);
    assert_eq!(got.length, 5);
}

#[test]
fn get_value_yields_nothing_under_another_tag() {
    for boxed in boxes() {
        let tag = boxed.get_type();
        assert_eq!(boxed.get_value::<CGPoint>().is_some(), tag == AXValueType::CGPoint);
        assert_eq!(boxed.get_value::<CGSize>().is_some(), tag == AXValueType::CGSize);
        assert_eq!(boxed.get_value::<CGRect>().is_some(), tag == AXValueType::CGRect);
        assert_eq!(boxed.get_value::<CFRange>().is_some(), tag == AXValueType::CFRange);
        assert_eq!(boxed.get_value::<AXError>().is_some(), tag == AXValueType::AXError);
    }
}

#[test]
fn get_value_does_not_read_a_size_as_a_point() {
    assert_eq!(AXValue::Size(CGSize::new(1.0, 2.0)).get_value::<CGPoint>(), None);
    assert_eq!(AXValue::Point(CGPoint::new(1.0, 2.0)).get_value::<CGSize>(), None);
}

#[test]
fn get_value_yields_nothing_from_an_illegal_box() {
    assert_eq!(AXValue::Illegal.get_value::<CGPoint>(), None);
    assert_eq!(AXValue::Illegal.get_value::<CGSize>(), None);
    assert_eq!(AXValue::Illegal.get_value::<CGRect>(), None);
    assert_eq!(AXValue::Illegal.get_value::<CFRange>(), None);
    assert_eq!(AXValue::Illegal.get_value::<AXError>(), None);
}

#[test]
fn value_copies_the_payload_under_the_right_tag() {
    let (slot, copied) = AXValue::Rect(rect()).value::<CGRect>(AXValueType::CGRect, Slot::new());
    assert!(copied);
    assert!(slot.is_written());
}

#[test]
fn value_leaves_the_storage_alone_under_another_tag() {
    let boxed = AXValue::Rect(rect());
    let (slot, copied) = boxed.value::<CGPoint>(AXValueType::CGPoint, Slot::new());
    assert!(!copied);
    assert!(!slot.is_written());
    let (slot, copied) = boxed.value::<CGRect>(AXValueType::CFRange, Slot::new());
    assert!(!copied);
    assert!(!slot.is_written());
}

#[test]
fn value_fails_closed_when_tag_and_shape_disagree() {
    let boxed = AXValue::Rect(rect());
    let (slot, copied) = boxed.value::<CGPoint>(AXValueType::CGRect, Slot::new());
    assert!(!copied);
    assert!(!slot.is_written());
}

#[test]
fn get_value_leaves_the_box_as_it_was() {
    let boxed = AXValue::Range(range());
    let first = boxed.get_value::<CFRange>();
    let second = boxed.get_value::<CFRange>();
    assert_eq!(first, second);
    assert_eq!(boxed, AXValue::Range(range()));
}
