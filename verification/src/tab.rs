//! Identity of the dockable views that host the interface.
use vstd::prelude::*;

verus! {

/// The tab that hosts the operations view.
#[derive(Debug, Clone, Default, PartialEq, Eq, Structural)]
pub struct TabView;

/// Which context menu a new tab opens with.
#[derive(Debug, Clone, Default, PartialEq, Eq, Structural)]
pub enum ContextMenu {
    /// The application menu.
    #[default]
    App,
    /// The map menu.
    MapView,
}

} // verus!
