//! The views of the interface and the panel that has the focus.

use vstd::prelude::*;

verus! {

/// The views of the interface.
#[derive(Debug, Clone, Copy, PartialEq, Eq, Structural)]
pub enum MenuMode {
    Queue,
    Artists,
    Albums,
}

/// The panel that has the focus: artists or albums in the artists view,
/// the album list or its tracks in the albums view.
#[derive(Debug, Clone, Copy, PartialEq, Eq, Structural)]
pub enum PanelFocus {
    Artists,
    Albums,
    AlbumList,
    AlbumTracks,
}

} // verus!
