//! Boxed scalar values: a payload of one of a few shapes, kept under the tag
//! of its shape and read back only under that tag.

use objc2_core_foundation::CFRange;
use objc2_core_foundation::CGPoint;
use objc2_core_foundation::CGRect;
use objc2_core_foundation::CGSize;
use vstd::prelude::*;

use super::cf_call_get;
use super::error::AXError;
use super::Slot;

verus! {

/// `objc2_core_foundation::CGPoint`, a point in the plane. Carried through
/// unread.
#[verifier::external_type_specification]
#[verifier::external_body]
pub struct ExCGPoint(CGPoint);

/// `objc2_core_foundation::CGSize`, a width and a height. Carried through
/// unread.
#[verifier::external_type_specification]
#[verifier::external_body]
pub struct ExCGSize(CGSize);

/// `objc2_core_foundation::CGRect`, an origin and a size. Carried through
/// unread.
#[verifier::external_type_specification]
#[verifier::external_body]
pub struct ExCGRect(CGRect);

/// `objc2_core_foundation::CFRange`, a location and a length. Carried through
/// unread.
#[verifier::external_type_specification]
#[verifier::external_body]
pub struct ExCFRange(CFRange);

/// The tag of a boxed value: which shape the box holds.
#[derive(Clone, Copy, Debug, PartialEq, Eq, Hash, Structural)]
pub enum AXValueType {
    CGPoint,
    CGSize,
    CGRect,
    CFRange,
    AXError,
    Illegal,
}

/// A boxed scalar value. The variant is the tag; the payload can be reached
/// only through [`AXValueExt::get_value`], which checks the tag first.
#[derive(Clone, Copy, Debug, PartialEq)]
pub enum AXValue {
    Point(CGPoint),
    Size(CGSize),
    Rect(CGRect),
    Range(CFRange),
    Error(AXError),
    /// A box of a shape that is not recognized.
    Illegal,
}

impl AXValue {
    /// The tag that the box was made with.
    pub open spec fn value_type(self) -> AXValueType {
        match self {
            AXValue::Point(_) => AXValueType::CGPoint,
            AXValue::Size(_) => AXValueType::CGSize,
            AXValue::Rect(_) => AXValueType::CGRect,
            AXValue::Range(_) => AXValueType::CFRange,
            AXValue::Error(_) => AXValueType::AXError,
            AXValue::Illegal => AXValueType::Illegal,
        }
    }

    /// The tag that the box was made with.
    pub fn get_type(&self) -> (tag: AXValueType)
        ensures
            tag == self.value_type(),
    {
        match self {
            AXValue::Point(_) => AXValueType::CGPoint,
            AXValue::Size(_) => AXValueType::CGSize,
            AXValue::Rect(_) => AXValueType::CGRect,
            AXValue::Range(_) => AXValueType::CFRange,
            AXValue::Error(_) => AXValueType::AXError,
            AXValue::Illegal => AXValueType::Illegal,
        }
    }

    /// Copies the payload into `slot` if the box holds the shape `the_type`,
    /// and says whether it did. The tag is compared before the payload is
    /// touched; where it differs the storage is left as it was.
    pub fn value<T: AXValueTypeMarker>(&self, the_type: AXValueType, slot: Slot<T>) -> (out: (
        Slot<T>,
        bool,
    ))
        ensures
            out.1 == (the_type == self.value_type() && T::stored_in(*self) is Some),
            out.1 ==> out.0@ == T::stored_in(*self),
            !out.1 ==> out.0 == slot,
    {
        if self.get_type() == the_type {
            match T::payload_of(self) {
                Some(payload) => (slot.write(payload), true),
                None => (slot, false),
            }
        } else {
            (slot, false)
        }
    }
}

/// A shape that a box can hold, with its tag.
pub trait AXValueTypeMarker: Sized {
    /// The tag of this shape.
    spec fn value_type() -> AXValueType;

    /// The payload of `value` as this shape, where the box holds this shape.
    spec fn stored_in(value: AXValue) -> Option<Self>;

    /// A box holds this shape exactly when it carries this shape's tag.
    proof fn lemma_stored_by_tag(value: AXValue)
        ensures
            Self::stored_in(value) is Some <==> value.value_type() == Self::value_type(),
    ;

    /// The tag of this shape.
    fn tag() -> (tag: AXValueType)
        ensures
            tag == Self::value_type(),
    ;

    /// The payload of `value` as this shape, where the box holds this shape.
    fn payload_of(value: &AXValue) -> (payload: Option<Self>)
        ensures
            payload == Self::stored_in(*value),
    ;
}

impl AXValueTypeMarker for CGPoint {
    open spec fn value_type() -> AXValueType {
        AXValueType::CGPoint
    }

    open spec fn stored_in(value: AXValue) -> Option<CGPoint> {
        match value {
            AXValue::Point(point) => Some(point),
            _ => None,
        }
    }

    proof fn lemma_stored_by_tag(value: AXValue) {
    }

    fn tag() -> (tag: AXValueType) {
        AXValueType::CGPoint
    }

    fn payload_of(value: &AXValue) -> (payload: Option<CGPoint>) {
        match value {
            AXValue::Point(point) => Some(*point),
            _ => None,
        }
    }
}

impl AXValueTypeMarker for CGSize {
    open spec fn value_type() -> AXValueType {
        AXValueType::CGSize
    }

    open spec fn stored_in(value: AXValue) -> Option<CGSize> {
        match value {
            AXValue::Size(size) => Some(size),
            _ => None,
        }
    }

    proof fn lemma_stored_by_tag(value: AXValue) {
    }

    fn tag() -> (tag: AXValueType) {
        AXValueType::CGSize
    }

    fn payload_of(value: &AXValue) -> (payload: Option<CGSize>) {
        match value {
            AXValue::Size(size) => Some(*size),
            _ => None,
        }
    }
}

impl AXValueTypeMarker for CGRect {
    open spec fn value_type() -> AXValueType {
        AXValueType::CGRect
    }

    open spec fn stored_in(value: AXValue) -> Option<CGRect> {
        match value {
            AXValue::Rect(rect) => Some(rect),
            _ => None,
        }
    }

    proof fn lemma_stored_by_tag(value: AXValue) {
    }

    fn tag() -> (tag: AXValueType) {
        AXValueType::CGRect
    }

    fn payload_of(value: &AXValue) -> (payload: Option<CGRect>) {
        match value {
            AXValue::Rect(rect) => Some(*rect),
            _ => None,
        }
    }
}

impl AXValueTypeMarker for CFRange {
    open spec fn value_type() -> AXValueType {
        AXValueType::CFRange
    }

    open spec fn stored_in(value: AXValue) -> Option<CFRange> {
        match value {
            AXValue::Range(range) => Some(range),
            _ => None,
        }
    }

    proof fn lemma_stored_by_tag(value: AXValue) {
    }

    fn tag() -> (tag: AXValueType) {
        AXValueType::CFRange
    }

    fn payload_of(value: &AXValue) -> (payload: Option<CFRange>) {
        match value {
            AXValue::Range(range) => Some(*range),
            _ => None,
        }
    }
}

impl AXValueTypeMarker for AXError {
    open spec fn value_type() -> AXValueType {
        AXValueType::AXError
    }

    open spec fn stored_in(value: AXValue) -> Option<AXError> {
        match value {
            AXValue::Error(status) => Some(status),
            _ => None,
        }
    }

    proof fn lemma_stored_by_tag(value: AXValue) {
    }

    fn tag() -> (tag: AXValueType) {
        AXValueType::AXError
    }

    fn payload_of(value: &AXValue) -> (payload: Option<AXError>) {
        match value {
            AXValue::Error(status) => Some(*status),
            _ => None,
        }
    }
}

/// Typed reading of a boxed value.
pub trait AXValueExt {
    /// The payload as the shape `T`, or nothing where the box holds another
    /// shape.
    fn get_value<T>(&self) -> Option<T> where T: AXValueTypeMarker + Clone;
}

impl AXValueExt for AXValue {
    fn get_value<T>(&self) -> (value: Option<T>) where T: AXValueTypeMarker + Clone
        ensures
            value == T::stored_in(*self),
            value is Some <==> self.value_type() == T::value_type(),
    {
        proof {
            T::lemma_stored_by_tag(*self);
        }
        let copy = |slot: Slot<T>| -> (out: (Slot<T>, Result<(), ()>))
            ensures
                out.1 is Ok <==> T::stored_in(*self) is Some,
                out.1 is Ok ==> out.0@ == T::stored_in(*self),
            {
                let (slot, copied) = self.value(T::tag(), slot);
                if copied {
                    (slot, Ok(()))
                } else {
                    (slot, Err(()))
                }
            };
        match cf_call_get(copy) {
            Ok(payload) => Some(payload),
            Err(_) => None,
        }
    }
}

/// Reading a box under a tag other than its own yields nothing.
pub proof fn lemma_get_value_tag_mismatch<T: AXValueTypeMarker>(value: AXValue)
    requires
        value.value_type() != T::value_type(),
    ensures
        T::stored_in(value) is None,
{
    T::lemma_stored_by_tag(value);
}

} // verus!
