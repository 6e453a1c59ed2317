//! The application state shown by the widgets.
use vstd::prelude::*;

verus! {

/// State of the debug terminal.
#[derive(Clone, Debug)]
pub struct DebugState {
    pub terminal_command: String,
    pub show_terminal: bool,
}

impl DebugState {
    /// A hidden terminal with an empty command line.
    pub fn new() -> (r: Self)
        ensures
            r.terminal_command@.len() == 0,
            !r.show_terminal,
    {
        DebugState { show_terminal: false, terminal_command: String::new() }
    }

    /// Shows a hidden terminal or hides a shown one, and clears its command
    /// line either way.
    pub fn toggle_terminal(&mut self)
        ensures
            final(self).show_terminal == !old(self).show_terminal,
            final(self).terminal_command@.len() == 0,
    {
        self.show_terminal = !self.show_terminal;
        self.terminal_command = String::new();
    }
}

/// State of the scheme editor's two inputs.
#[derive(Clone, Debug)]
pub struct SchemeEditorState {
    pub input1: String,
    pub input2: String,
}

impl SchemeEditorState {
    /// Both inputs empty.
    pub fn new() -> (r: Self)
        ensures
            r.input1@.len() == 0,
            r.input2@.len() == 0,
    {
        SchemeEditorState { input1: String::new(), input2: String::new() }
    }
}

/// State of the whole window.
#[derive(Clone, Debug)]
pub struct UiState {
    pub debug: DebugState,
    pub scheme_editor: SchemeEditorState,
}

impl UiState {
    /// A hidden terminal and empty inputs.
    pub fn new() -> (r: Self)
        ensures
            r.debug.terminal_command@.len() == 0,
            !r.debug.show_terminal,
            r.scheme_editor.input1@.len() == 0,
            r.scheme_editor.input2@.len() == 0,
    {
        UiState { debug: DebugState::new(), scheme_editor: SchemeEditorState::new() }
    }
}

} // verus!
