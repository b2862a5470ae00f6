//! Icon identifiers (drawing them is the interface's business).

use vstd::prelude::*;

verus! {

/// Icons referenced by commands and panels.
#[derive(Clone, Copy, PartialEq, Eq, Debug, Structural)]
pub enum Icon {
    /// Buffer.
    Buffer,
    /// Camera.
    Camera,
    /// Chat bubble.
    Chat,
    /// Close cross.
    Close,
    /// Compass.
    Compass,
    /// Example data.
    Example,
    /// Export arrow.
    Export,
    /// Table field.
    Field,
    /// Folder.
    Folder,
    /// Plain folder (file tree).
    FolderPlain,
    /// Funnel (filter).
    Funnel,
    /// Grid.
    Grid,
    /// Help.
    Help,
    /// Image / map frame.
    Image,
    /// Information.
    Info,
    /// Layers.
    Layers,
    /// Link.
    Link,
    /// List.
    List,
    /// Overlay.
    Overlay,
    /// Bottom panel.
    PanelBottom,
    /// Play.
    Play,
    /// Reset.
    Reset,
    /// Ruler.
    Ruler,
    /// Settings gear.
    Settings,
    /// Skill plug-in.
    Skill,
    /// Sun (light theme).
    Sun,
    /// Moon (dark theme).
    Moon,
    /// Toolbox.
    Toolbox,
    /// Topology.
    Topology,
    /// Zoom to fit.
    ZoomFit,
    /// Database.
    Database,
    /// Project file.
    Project,
    /// CAD drawing.
    Cad,
    /// Send.
    Send,
}

} // verus!
