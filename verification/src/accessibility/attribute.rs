//! The names of the attributes that a node can be asked for.

use vstd::prelude::*;

verus! {

// Informational attributes.

#[allow(non_upper_case_globals)]
pub const kAXRoleAttribute: &'static str = "AXRole";

#[allow(non_upper_case_globals)]
pub const kAXSubroleAttribute: &'static str = "AXSubrole";

#[allow(non_upper_case_globals)]
pub const kAXRoleDescriptionAttribute: &'static str = "AXRoleDescription";

#[allow(non_upper_case_globals)]
pub const kAXTitleAttribute: &'static str = "AXTitle";

#[allow(non_upper_case_globals)]
pub const kAXDescriptionAttribute: &'static str = "AXDescription";

#[allow(non_upper_case_globals)]
pub const kAXHelpAttribute: &'static str = "AXHelp";

// Hierarchy or relationship attributes.

#[allow(non_upper_case_globals)]
pub const kAXParentAttribute: &'static str = "AXParent";

#[allow(non_upper_case_globals)]
pub const kAXChildrenAttribute: &'static str = "AXChildren";

#[allow(non_upper_case_globals)]
pub const kAXSelectedChildrenAttribute: &'static str = "AXSelectedChildren";

#[allow(non_upper_case_globals)]
pub const kAXVisibleChildrenAttribute: &'static str = "AXVisibleChildren";

#[allow(non_upper_case_globals)]
pub const kAXWindowAttribute: &'static str = "AXWindow";

#[allow(non_upper_case_globals)]
pub const kAXTopLevelUIElementAttribute: &'static str = "AXTopLevelUIElement";

#[allow(non_upper_case_globals)]
pub const kAXTitleUIElementAttribute: &'static str = "AXTitleUIElement";

#[allow(non_upper_case_globals)]
pub const kAXServesAsTitleForUIElementsAttribute: &'static str = "AXServesAsTitleForUIElements";

#[allow(non_upper_case_globals)]
pub const kAXLinkedUIElementsAttribute: &'static str = "AXLinkedUIElements";

#[allow(non_upper_case_globals)]
pub const kAXSharedFocusElementsAttribute: &'static str = "AXSharedFocusElements";

// Visual state attributes.

#[allow(non_upper_case_globals)]
pub const kAXEnabledAttribute: &'static str = "AXEnabled";

#[allow(non_upper_case_globals)]
pub const kAXFocusedAttribute: &'static str = "AXFocused";

#[allow(non_upper_case_globals)]
pub const kAXPositionAttribute: &'static str = "AXPosition";

#[allow(non_upper_case_globals)]
pub const kAXSizeAttribute: &'static str = "AXSize";

// Value attributes.

#[allow(non_upper_case_globals)]
pub const kAXValueAttribute: &'static str = "AXValue";

#[allow(non_upper_case_globals)]
pub const kAXValueDescriptionAttribute: &'static str = "AXValueDescription";

#[allow(non_upper_case_globals)]
pub const kAXMinValueAttribute: &'static str = "AXMinValue";

#[allow(non_upper_case_globals)]
pub const kAXMaxValueAttribute: &'static str = "AXMaxValue";

#[allow(non_upper_case_globals)]
pub const kAXValueIncrementAttribute: &'static str = "AXValueIncrement";

#[allow(non_upper_case_globals)]
pub const kAXValueWrapsAttribute: &'static str = "AXValueWraps";

#[allow(non_upper_case_globals)]
pub const kAXAllowedValuesAttribute: &'static str = "AXAllowedValues";

// Text-specific attributes.

#[allow(non_upper_case_globals)]
pub const kAXSelectedTextAttribute: &'static str = "AXSelectedText";

#[allow(non_upper_case_globals)]
pub const kAXSelectedTextRangeAttribute: &'static str = "AXSelectedTextRange";

#[allow(non_upper_case_globals)]
pub const kAXSelectedTextRangesAttribute: &'static str = "AXSelectedTextRanges";

#[allow(non_upper_case_globals)]
pub const kAXVisibleCharacterRangeAttribute: &'static str = "AXVisibleCharacterRange";

#[allow(non_upper_case_globals)]
pub const kAXNumberOfCharactersAttribute: &'static str = "AXNumberOfCharacters";

#[allow(non_upper_case_globals)]
pub const kAXSharedTextUIElementsAttribute: &'static str = "AXSharedTextUIElements";

#[allow(non_upper_case_globals)]
pub const kAXSharedCharacterRangeAttribute: &'static str = "AXSharedCharacterRange";

// Window, sheet, or drawer-specific attributes.

#[allow(non_upper_case_globals)]
pub const kAXMainAttribute: &'static str = "AXMain";

#[allow(non_upper_case_globals)]
pub const kAXMinimizedAttribute: &'static str = "AXMinimized";

#[allow(non_upper_case_globals)]
pub const kAXCloseButtonAttribute: &'static str = "AXCloseButton";

#[allow(non_upper_case_globals)]
pub const kAXZoomButtonAttribute: &'static str = "AXZoomButton";

#[allow(non_upper_case_globals)]
pub const kAXMinimizeButtonAttribute: &'static str = "AXMinimizeButton";

#[allow(non_upper_case_globals)]
pub const kAXToolbarButtonAttribute: &'static str = "AXToolbarButton";

#[allow(non_upper_case_globals)]
pub const kAXFullScreenButtonAttribute: &'static str = "AXFullScreenButton";

#[allow(non_upper_case_globals)]
pub const kAXProxyAttribute: &'static str = "AXProxy";

#[allow(non_upper_case_globals)]
pub const kAXGrowAreaAttribute: &'static str = "AXGrowArea";

#[allow(non_upper_case_globals)]
pub const kAXModalAttribute: &'static str = "AXModal";

#[allow(non_upper_case_globals)]
pub const kAXDefaultButtonAttribute: &'static str = "AXDefaultButton";

#[allow(non_upper_case_globals)]
pub const kAXCancelButtonAttribute: &'static str = "AXCancelButton";

// Menu or menu item-specific attributes.

#[allow(non_upper_case_globals)]
pub const kAXMenuItemCmdCharAttribute: &'static str = "AXMenuItemCmdChar";

#[allow(non_upper_case_globals)]
pub const kAXMenuItemCmdVirtualKeyAttribute: &'static str = "AXMenuItemCmdVirtualKey";

#[allow(non_upper_case_globals)]
pub const kAXMenuItemCmdGlyphAttribute: &'static str = "AXMenuItemCmdGlyph";

#[allow(non_upper_case_globals)]
pub const kAXMenuItemCmdModifiersAttribute: &'static str = "AXMenuItemCmdModifiers";

#[allow(non_upper_case_globals)]
pub const kAXMenuItemMarkCharAttribute: &'static str = "AXMenuItemMarkChar";

#[allow(non_upper_case_globals)]
pub const kAXMenuItemPrimaryUIElementAttribute: &'static str = "AXMenuItemPrimaryUIElement";

// Application element-specific attributes.

#[allow(non_upper_case_globals)]
pub const kAXMenuBarAttribute: &'static str = "AXMenuBar";

#[allow(non_upper_case_globals)]
pub const kAXWindowsAttribute: &'static str = "AXWindows";

#[allow(non_upper_case_globals)]
pub const kAXFrontmostAttribute: &'static str = "AXFrontmost";

#[allow(non_upper_case_globals)]
pub const kAXHiddenAttribute: &'static str = "AXHidden";

#[allow(non_upper_case_globals)]
pub const kAXMainWindowAttribute: &'static str = "AXMainWindow";

#[allow(non_upper_case_globals)]
pub const kAXFocusedWindowAttribute: &'static str = "AXFocusedWindow";

#[allow(non_upper_case_globals)]
pub const kAXFocusedUIElementAttribute: &'static str = "AXFocusedUIElement";

#[allow(non_upper_case_globals)]
pub const kAXExtrasMenuBarAttribute: &'static str = "AXExtrasMenuBar";

// Date/time-specific attributes.

#[allow(non_upper_case_globals)]
pub const kAXHourFieldAttribute: &'static str = "AXHourField";

#[allow(non_upper_case_globals)]
pub const kAXMinuteFieldAttribute: &'static str = "AXMinuteField";

#[allow(non_upper_case_globals)]
pub const kAXSecondFieldAttribute: &'static str = "AXSecondField";

#[allow(non_upper_case_globals)]
pub const kAXAMPMFieldAttribute: &'static str = "AXAMPMField";

#[allow(non_upper_case_globals)]
pub const kAXDayFieldAttribute: &'static str = "AXDayField";

#[allow(non_upper_case_globals)]
pub const kAXMonthFieldAttribute: &'static str = "AXMonthField";

#[allow(non_upper_case_globals)]
pub const kAXYearFieldAttribute: &'static str = "AXYearField";

// Table, outline, or browser-specific attributes.

#[allow(non_upper_case_globals)]
pub const kAXRowsAttribute: &'static str = "AXRows";

#[allow(non_upper_case_globals)]
pub const kAXVisibleRowsAttribute: &'static str = "AXVisibleRows";

#[allow(non_upper_case_globals)]
pub const kAXSelectedRowsAttribute: &'static str = "AXSelectedRows";

#[allow(non_upper_case_globals)]
pub const kAXColumnsAttribute: &'static str = "AXColumns";

#[allow(non_upper_case_globals)]
pub const kAXVisibleColumnsAttribute: &'static str = "AXVisibleColumns";

#[allow(non_upper_case_globals)]
pub const kAXSelectedColumnsAttribute: &'static str = "AXSelectedColumns";

#[allow(non_upper_case_globals)]
pub const kAXSortDirectionAttribute: &'static str = "AXSortDirection";

#[allow(non_upper_case_globals)]
pub const kAXColumnHeaderUIElementsAttribute: &'static str = "AXColumnHeaderUIElements";

#[allow(non_upper_case_globals)]
pub const kAXIndexAttribute: &'static str = "AXIndex";

#[allow(non_upper_case_globals)]
pub const kAXDisclosingAttribute: &'static str = "AXDisclosing";

#[allow(non_upper_case_globals)]
pub const kAXDisclosedRowsAttribute: &'static str = "AXDisclosedRows";

#[allow(non_upper_case_globals)]
pub const kAXDisclosedByRowAttribute: &'static str = "AXDisclosedByRow";

// Matte-specific attributes.

#[allow(non_upper_case_globals)]
pub const kAXMatteHoleAttribute: &'static str = "AXMatteHole";

#[allow(non_upper_case_globals)]
pub const kAXMatteContentUIElementAttribute: &'static str = "AXMatteContentUIElement";

// Ruler-specific attributes.

#[allow(non_upper_case_globals)]
pub const kAXMarkerUIElementsAttribute: &'static str = "AXMarkerUIElements";

#[allow(non_upper_case_globals)]
pub const kAXUnitsAttribute: &'static str = "AXUnits";

#[allow(non_upper_case_globals)]
pub const kAXUnitDescriptionAttribute: &'static str = "AXUnitDescription";

#[allow(non_upper_case_globals)]
pub const kAXMarkerTypeAttribute: &'static str = "AXMarkerType";

#[allow(non_upper_case_globals)]
pub const kAXMarkerTypeDescriptionAttribute: &'static str = "AXMarkerTypeDescription";

// Miscellaneous or role-specific attributes.

#[allow(non_upper_case_globals)]
pub const kAXHorizontalScrollBarAttribute: &'static str = "AXHorizontalScrollBar";

#[allow(non_upper_case_globals)]
pub const kAXVerticalScrollBarAttribute: &'static str = "AXVerticalScrollBar";

#[allow(non_upper_case_globals)]
pub const kAXOrientationAttribute: &'static str = "AXOrientation";

#[allow(non_upper_case_globals)]
pub const kAXHeaderAttribute: &'static str = "AXHeader";

#[allow(non_upper_case_globals)]
pub const kAXEditedAttribute: &'static str = "AXEdited";

#[allow(non_upper_case_globals)]
pub const kAXTabsAttribute: &'static str = "AXTabs";

#[allow(non_upper_case_globals)]
pub const kAXOverflowButtonAttribute: &'static str = "AXOverflowButton";

#[allow(non_upper_case_globals)]
pub const kAXFilenameAttribute: &'static str = "AXFilename";

#[allow(non_upper_case_globals)]
pub const kAXExpandedAttribute: &'static str = "AXExpanded";

#[allow(non_upper_case_globals)]
pub const kAXSelectedAttribute: &'static str = "AXSelected";

#[allow(non_upper_case_globals)]
pub const kAXSplittersAttribute: &'static str = "AXSplitters";

#[allow(non_upper_case_globals)]
pub const kAXContentsAttribute: &'static str = "AXContents";

#[allow(non_upper_case_globals)]
pub const kAXNextContentsAttribute: &'static str = "AXNextContents";

#[allow(non_upper_case_globals)]
pub const kAXPreviousContentsAttribute: &'static str = "AXPreviousContents";

#[allow(non_upper_case_globals)]
pub const kAXDocumentAttribute: &'static str = "AXDocument";

#[allow(non_upper_case_globals)]
pub const kAXIncrementorAttribute: &'static str = "AXIncrementor";

#[allow(non_upper_case_globals)]
pub const kAXDecrementButtonAttribute: &'static str = "AXDecrementButton";

#[allow(non_upper_case_globals)]
pub const kAXIncrementButtonAttribute: &'static str = "AXIncrementButton";

#[allow(non_upper_case_globals)]
pub const kAXColumnTitleAttribute: &'static str = "AXColumnTitle";

#[allow(non_upper_case_globals)]
pub const kAXURLAttribute: &'static str = "AXURL";

#[allow(non_upper_case_globals)]
pub const kAXLabelUIElementsAttribute: &'static str = "AXLabelUIElements";

#[allow(non_upper_case_globals)]
pub const kAXLabelValueAttribute: &'static str = "AXLabelValue";

#[allow(non_upper_case_globals)]
pub const kAXShownMenuUIElementAttribute: &'static str = "AXShownMenuUIElement";

#[allow(non_upper_case_globals)]
pub const kAXIsApplicationRunningAttribute: &'static str = "AXIsApplicationRunning";

#[allow(non_upper_case_globals)]
pub const kAXFocusedApplicationAttribute: &'static str = "AXFocusedApplication";

#[allow(non_upper_case_globals)]
pub const kAXElementBusyAttribute: &'static str = "AXElementBusy";

#[allow(non_upper_case_globals)]
pub const kAXAlternateUIVisibleAttribute: &'static str = "AXAlternateUIVisible";

// Parameterized attributes.

#[allow(non_upper_case_globals)]
pub const kAXBoundsForRangeParameterizedAttribute: &'static str = "AXBoundsForRange";

} // verus!
