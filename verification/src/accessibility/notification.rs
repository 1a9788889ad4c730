//! The names of the notifications that the accessibility tree posts.

use vstd::prelude::*;

verus! {

// Focus notifications.

#[allow(non_upper_case_globals)]
pub const kAXMainWindowChangedNotification: &'static str = "AXMainWindowChanged";

#[allow(non_upper_case_globals)]
pub const kAXFocusedWindowChangedNotification: &'static str = "AXFocusedWindowChanged";

#[allow(non_upper_case_globals)]
pub const kAXFocusedUIElementChangedNotification: &'static str = "AXFocusedUIElementChanged";

// Application notifications.

#[allow(non_upper_case_globals)]
pub const kAXApplicationActivatedNotification: &'static str = "AXApplicationActivated";

#[allow(non_upper_case_globals)]
pub const kAXApplicationDeactivatedNotification: &'static str = "AXApplicationDeactivated";

#[allow(non_upper_case_globals)]
pub const kAXApplicationHiddenNotification: &'static str = "AXApplicationHidden";

#[allow(non_upper_case_globals)]
pub const kAXApplicationShownNotification: &'static str = "AXApplicationShown";

// Window notifications.

#[allow(non_upper_case_globals)]
pub const kAXWindowCreatedNotification: &'static str = "AXWindowCreated";

#[allow(non_upper_case_globals)]
pub const kAXWindowMovedNotification: &'static str = "AXWindowMoved";

#[allow(non_upper_case_globals)]
pub const kAXWindowResizedNotification: &'static str = "AXWindowResized";

#[allow(non_upper_case_globals)]
pub const kAXWindowMiniaturizedNotification: &'static str = "AXWindowMiniaturized";

#[allow(non_upper_case_globals)]
pub const kAXWindowDeminiaturizedNotification: &'static str = "AXWindowDeminiaturized";

// New drawer, sheet, and help notifications.

#[allow(non_upper_case_globals)]
pub const kAXDrawerCreatedNotification: &'static str = "AXDrawerCreated";

#[allow(non_upper_case_globals)]
pub const kAXSheetCreatedNotification: &'static str = "AXSheetCreated";

#[allow(non_upper_case_globals)]
pub const kAXHelpTagCreatedNotification: &'static str = "AXHelpTagCreated";

// Element notifications.

#[allow(non_upper_case_globals)]
pub const kAXValueChangedNotification: &'static str = "AXValueChanged";

#[allow(non_upper_case_globals)]
pub const kAXUIElementDestroyedNotification: &'static str = "AXUIElementDestroyed";

#[allow(non_upper_case_globals)]
pub const kAXElementBusyChangedNotification: &'static str = "AXElementBusyChanged";

// Menu notifications.

#[allow(non_upper_case_globals)]
pub const kAXMenuOpenedNotification: &'static str = "AXMenuOpened";

#[allow(non_upper_case_globals)]
pub const kAXMenuClosedNotification: &'static str = "AXMenuClosed";

#[allow(non_upper_case_globals)]
pub const kAXMenuItemSelectedNotification: &'static str = "AXMenuItemSelected";

// Table/outline notifications.

#[allow(non_upper_case_globals)]
pub const kAXRowCountChangedNotification: &'static str = "AXRowCountChanged";

// Outline notifications.

#[allow(non_upper_case_globals)]
pub const kAXRowExpandedNotification: &'static str = "AXRowExpanded";

#[allow(non_upper_case_globals)]
pub const kAXRowCollapsedNotification: &'static str = "AXRowCollapsed";

// Cell-based table notifications.

#[allow(non_upper_case_globals)]
pub const kAXSelectedCellsChangedNotification: &'static str = "AXSelectedCellsChanged";

// Layout area notifications.

#[allow(non_upper_case_globals)]
pub const kAXUnitsChangedNotification: &'static str = "AXUnitsChanged";

#[allow(non_upper_case_globals)]
pub const kAXSelectedChildrenMovedNotification: &'static str = "AXSelectedChildrenMoved";

// Other notifications.

#[allow(non_upper_case_globals)]
pub const kAXSelectedChildrenChangedNotification: &'static str = "AXSelectedChildrenChanged";

#[allow(non_upper_case_globals)]
pub const kAXResizedNotification: &'static str = "AXResized";

#[allow(non_upper_case_globals)]
pub const kAXMovedNotification: &'static str = "AXMoved";

#[allow(non_upper_case_globals)]
pub const kAXCreatedNotification: &'static str = "AXCreated";

#[allow(non_upper_case_globals)]
pub const kAXSelectedRowsChangedNotification: &'static str = "AXSelectedRowsChanged";

#[allow(non_upper_case_globals)]
pub const kAXSelectedColumnsChangedNotification: &'static str = "AXSelectedColumnsChanged";

#[allow(non_upper_case_globals)]
pub const kAXTitleChangedNotification: &'static str = "AXTitleChanged";

#[allow(non_upper_case_globals)]
pub const kAXLayoutChangedNotification: &'static str = "AXLayoutChanged";

#[allow(non_upper_case_globals)]
pub const kAXAnnouncementRequestedNotification: &'static str = "AXAnnouncementRequested";

#[allow(non_upper_case_globals)]
pub const kAXUIElementsKeyNotification: &'static str = "AXUIElementsKey";

#[allow(non_upper_case_globals)]
pub const kAXPriorityKeyNotification: &'static str = "AXPriorityKey";

#[allow(non_upper_case_globals)]
pub const kAXAnnouncementKeyNotification: &'static str = "AXAnnouncementKey";

#[allow(non_upper_case_globals)]
pub const kAXUIElementTitleKeyNotification: &'static str = "AXUIElementTitleKey";

} // verus!
