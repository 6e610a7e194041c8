//! Kinetik Studio shell and first-window layout model.

use vstd::prelude::*;

use crate::text::owned;

verus! {

/// Editor panels present in the first Studio shell.
#[derive(Clone, Copy, Debug, Eq, PartialEq, Structural)]
pub enum EditorPanel {
    /// Scene hierarchy panel placeholder.
    Explorer,
    /// Reflected property panel placeholder.
    Inspector,
    /// Project and runtime diagnostics panel placeholder.
    Diagnostics,
    /// Scene viewport placeholder.
    Viewport,
}

impl EditorPanel {
    /// The stable user-facing panel label.
    pub open spec fn spec_label(self) -> Seq<char> {
        match self {
            EditorPanel::Explorer => "Explorer"@,
            EditorPanel::Inspector => "Inspector"@,
            EditorPanel::Diagnostics => "Diagnostics"@,
            EditorPanel::Viewport => "Viewport"@,
        }
    }

    /// Returns the stable user-facing panel label.
    pub fn label(self) -> (s: &'static str)
        ensures
            s@ == self.spec_label(),
    {
        match self {
            EditorPanel::Explorer => "Explorer",
            EditorPanel::Inspector => "Inspector",
            EditorPanel::Diagnostics => "Diagnostics",
            EditorPanel::Viewport => "Viewport",
        }
    }
}

/// Docking slot for the first non-persistent editor panel layout.
#[derive(Clone, Copy, Debug, Eq, PartialEq, Structural)]
pub enum PanelDock {
    /// Left side of the editor window.
    Left,
    /// Right side of the editor window.
    Right,
    /// Bottom band of the editor window.
    Bottom,
    /// Center content area.
    Center,
}

/// Toolbar/menu placeholders that will be wired to editor commands later.
#[derive(Clone, Copy, Debug, Eq, PartialEq, Structural)]
pub enum ToolbarAction {
    /// Open project placeholder.
    Open,
    /// Save project placeholder.
    Save,
    /// Enter play mode placeholder.
    Play,
    /// Stop play mode placeholder.
    Stop,
}

impl ToolbarAction {
    /// The stable user-facing action label.
    pub open spec fn spec_label(self) -> Seq<char> {
        match self {
            ToolbarAction::Open => "Open"@,
            ToolbarAction::Save => "Save"@,
            ToolbarAction::Play => "Play"@,
            ToolbarAction::Stop => "Stop"@,
        }
    }

    /// Returns the stable user-facing action label.
    pub fn label(self) -> (s: &'static str)
        ensures
            s@ == self.spec_label(),
    {
        match self {
            ToolbarAction::Open => "Open",
            ToolbarAction::Save => "Save",
            ToolbarAction::Play => "Play",
            ToolbarAction::Stop => "Stop",
        }
    }
}

/// One panel placement in the first editor shell.
#[derive(Clone, Copy, Debug, Eq, PartialEq, Structural)]
pub struct EditorShellWindow {
    /// Panel shown in this placement.
    pub panel: EditorPanel,
    /// Docking slot used by the shell layout.
    pub dock: PanelDock,
}

impl EditorShellWindow {
    /// Creates a panel placement.
    pub fn new(panel: EditorPanel, dock: PanelDock) -> (w: Self)
        ensures
            w == (EditorShellWindow { panel, dock }),
    {
        EditorShellWindow { panel, dock }
    }
}

/// The content of an [`EditorShellLayout`].
pub struct EditorShellLayoutView {
    pub panels: Seq<EditorShellWindow>,
    pub toolbar: Seq<ToolbarAction>,
}

/// First editor shell layout model.
#[derive(Debug, Eq, PartialEq)]
pub struct EditorShellLayout {
    panels: Vec<EditorShellWindow>,
    toolbar: Vec<ToolbarAction>,
}

impl View for EditorShellLayout {
    type V = EditorShellLayoutView;

    closed spec fn view(&self) -> EditorShellLayoutView {
        EditorShellLayoutView { panels: self.panels@, toolbar: self.toolbar@ }
    }
}

fn copy_panels(v: &Vec<EditorShellWindow>) -> (r: Vec<EditorShellWindow>)
    ensures
        r@ == v@,
{
    let mut r: Vec<EditorShellWindow> = Vec::new();
    let mut i: usize = 0;
    while i < v.len()
        invariant
            0 <= i <= v.len(),
            r@ == v@.take(i as int),
        decreases v.len() - i,
    {
        r.push(v[i]);
        proof {
            assert(v@.take(i + 1) =~= v@.take(i as int).push(v@[i as int]));
        }
        i = i + 1;
    }
    proof {
        assert(v@.take(i as int) =~= v@);
    }
    r
}

fn copy_actions(v: &Vec<ToolbarAction>) -> (r: Vec<ToolbarAction>)
    ensures
        r@ == v@,
{
    let mut r: Vec<ToolbarAction> = Vec::new();
    let mut i: usize = 0;
    while i < v.len()
        invariant
            0 <= i <= v.len(),
            r@ == v@.take(i as int),
        decreases v.len() - i,
    {
        r.push(v[i]);
        proof {
            assert(v@.take(i + 1) =~= v@.take(i as int).push(v@[i as int]));
        }
        i = i + 1;
    }
    proof {
        assert(v@.take(i as int) =~= v@);
    }
    r
}

impl Clone for EditorShellLayout {
    fn clone(&self) -> (r: Self)
        ensures
            r@ == self@,
    {
        EditorShellLayout { panels: copy_panels(&self.panels), toolbar: copy_actions(&self.toolbar) }
    }
}

impl EditorShellLayout {
    /// Creates a layout from panel placements and toolbar placeholders.
    pub fn new(panels: Vec<EditorShellWindow>, toolbar: Vec<ToolbarAction>) -> (l: Self)
        ensures
            l@.panels == panels@,
            l@.toolbar == toolbar@,
    {
        EditorShellLayout { panels, toolbar }
    }

    /// Returns panel placements in deterministic display order.
    pub fn panels(&self) -> (s: &[EditorShellWindow])
        ensures
            s@ == self@.panels,
    {
        self.panels.as_slice()
    }

    /// Returns toolbar placeholders in deterministic display order.
    pub fn toolbar(&self) -> (s: &[ToolbarAction])
        ensures
            s@ == self@.toolbar,
    {
        self.toolbar.as_slice()
    }
}

/// The default panel placements: Explorer on the left, the Viewport in the
/// center, the Inspector on the right and Diagnostics at the bottom.
pub open spec fn default_panels() -> Seq<EditorShellWindow> {
    seq![
        EditorShellWindow { panel: EditorPanel::Explorer, dock: PanelDock::Left },
        EditorShellWindow { panel: EditorPanel::Viewport, dock: PanelDock::Center },
        EditorShellWindow { panel: EditorPanel::Inspector, dock: PanelDock::Right },
        EditorShellWindow { panel: EditorPanel::Diagnostics, dock: PanelDock::Bottom },
    ]
}

/// The default toolbar: Open, Save, Play, Stop.
pub open spec fn default_toolbar() -> Seq<ToolbarAction> {
    seq![ToolbarAction::Open, ToolbarAction::Save, ToolbarAction::Play, ToolbarAction::Stop]
}

/// Returns the deterministic first shell layout.
pub fn default_editor_shell_layout() -> (l: EditorShellLayout)
    ensures
        l@.panels == default_panels(),
        l@.toolbar == default_toolbar(),
{
    let mut panels: Vec<EditorShellWindow> = Vec::new();
    panels.push(EditorShellWindow::new(EditorPanel::Explorer, PanelDock::Left));
    panels.push(EditorShellWindow::new(EditorPanel::Viewport, PanelDock::Center));
    panels.push(EditorShellWindow::new(EditorPanel::Inspector, PanelDock::Right));
    panels.push(EditorShellWindow::new(EditorPanel::Diagnostics, PanelDock::Bottom));
    let mut toolbar: Vec<ToolbarAction> = Vec::new();
    toolbar.push(ToolbarAction::Open);
    toolbar.push(ToolbarAction::Save);
    toolbar.push(ToolbarAction::Play);
    toolbar.push(ToolbarAction::Stop);
    proof {
        assert(panels@ =~= default_panels());
        assert(toolbar@ =~= default_toolbar());
    }
    EditorShellLayout::new(panels, toolbar)
}

/// Public editor shell state.
#[derive(Debug, Eq, PartialEq)]
pub struct EditorShellState {
    window_title: String,
    window_size: (u32, u32),
    layout: EditorShellLayout,
    running: bool,
}

impl Clone for EditorShellState {
    fn clone(&self) -> (r: Self)
        ensures
            r.spec_window_title() == self.spec_window_title(),
            r.spec_window_size() == self.spec_window_size(),
            r.spec_layout() == self.spec_layout(),
            r.spec_running() == self.spec_running(),
    {
        EditorShellState {
            window_title: self.window_title.clone(),
            window_size: self.window_size,
            layout: self.layout.clone(),
            running: self.running,
        }
    }
}

impl EditorShellState {
    /// The window title.
    pub closed spec fn spec_window_title(self) -> Seq<char> {
        self.window_title@
    }

    /// The requested window size in logical pixels.
    pub closed spec fn spec_window_size(self) -> (u32, u32) {
        self.window_size
    }

    /// The shell layout.
    pub closed spec fn spec_layout(self) -> EditorShellLayoutView {
        self.layout@
    }

    /// Whether the shell lifecycle has entered a running state.
    pub closed spec fn spec_running(self) -> bool {
        self.running
    }

    /// Creates the default shell state: the window titled "Kinetik Studio",
    /// 1280 by 800 logical pixels, the default layout, not yet running.
    pub fn new() -> (s: Self)
        ensures
            s.spec_window_title() == "Kinetik Studio"@,
            s.spec_window_size() == (1280u32, 800u32),
            s.spec_layout().panels == default_panels(),
            s.spec_layout().toolbar == default_toolbar(),
            !s.spec_running(),
    {
        EditorShellState {
            window_title: owned("Kinetik Studio"),
            window_size: (1280, 800),
            layout: default_editor_shell_layout(),
            running: false,
        }
    }

    /// Returns the current window title.
    pub fn window_title(&self) -> (s: &str)
        ensures
            s@ == self.spec_window_title(),
    {
        self.window_title.as_str()
    }

    /// Returns the requested window size in logical pixels.
    pub fn window_size(&self) -> (s: (u32, u32))
        ensures
            s == self.spec_window_size(),
    {
        self.window_size
    }

    /// Returns the current shell layout.
    pub fn layout(&self) -> (l: &EditorShellLayout)
        ensures
            l@ == self.spec_layout(),
    {
        &self.layout
    }

    /// Returns whether the shell lifecycle has entered a running state.
    pub fn is_running(&self) -> (b: bool)
        ensures
            b == self.spec_running(),
    {
        self.running
    }

    /// Records that the shell window was created and the lifecycle runs.
    pub fn mark_running(&mut self)
        ensures
            final(self).spec_running(),
            final(self).spec_window_title() == old(self).spec_window_title(),
            final(self).spec_window_size() == old(self).spec_window_size(),
            final(self).spec_layout() == old(self).spec_layout(),
    {
        self.running = true;
    }
}

impl Default for EditorShellState {
    fn default() -> (s: Self)
        ensures
            s.spec_window_title() == "Kinetik Studio"@,
            s.spec_window_size() == (1280u32, 800u32),
            s.spec_layout().panels == default_panels(),
            s.spec_layout().toolbar == default_toolbar(),
            !s.spec_running(),
    {
        Self::new()
    }
}

/// Error returned when the editor shell cannot start or finish cleanly.
#[derive(Debug, Eq, PartialEq)]
pub struct EditorShellError {
    message: String,
}

impl Clone for EditorShellError {
    fn clone(&self) -> (r: Self)
        ensures
            r.spec_message() == self.spec_message(),
    {
        EditorShellError { message: self.message.clone() }
    }
}

impl EditorShellError {
    /// The launch error message.
    pub closed spec fn spec_message(self) -> Seq<char> {
        self.message@
    }

    /// Creates a launch error carrying the platform's error text.
    pub fn new(message: &str) -> (e: Self)
        ensures
            e.spec_message() == message@,
    {
        EditorShellError { message: owned(message) }
    }

    /// Returns the launch error message.
    pub fn message(&self) -> (s: &str)
        ensures
            s@ == self.spec_message(),
    {
        self.message.as_str()
    }

    /// Returns the launch error message as owned text.
    pub fn to_string(&self) -> (s: String)
        ensures
            s@ == self.spec_message(),
    {
        self.message.clone()
    }
}

} // verus!
