//! The settings page's model: it shows the application's settings and offers
//! selection tools for the play queue.
use std::rc::Rc;
use vstd::prelude::*;
use crate::models::PlaylistSummary;

verus! {

/// Where a selection of songs was made.
#[derive(Clone, Copy, Debug, PartialEq, Eq, Structural)]
pub enum SelectionContext {
    Default,
    Queue,
}

/// The current selection of songs, as far as this page reads it: where it was made.
#[derive(Clone, Copy, Debug)]
pub struct SelectionState {
    pub context: SelectionContext,
}

/// What the application's model holds that this page reads: the settings and
/// the current selection.
pub struct AppModel<S> {
    pub settings: S,
    pub selection: SelectionState,
}

/// The tools that act on a selection by themselves.
#[derive(Clone, Copy, Debug, PartialEq, Eq, Structural)]
pub enum SimpleSelectionTool {
    MoveUp,
    MoveDown,
    Remove,
    SelectAll,
}

/// The tools that add a selection somewhere.
#[derive(Clone, Debug)]
pub enum AddSelectionTool {
    AddToQueue,
    AddToPlaylist(PlaylistSummary),
}

/// A tool offered on a selection.
#[derive(Clone, Debug)]
pub enum SelectionTool {
    Add(AddSelectionTool),
    Simple(SimpleSelectionTool),
}

/// Requests that the pages send to the application.
#[derive(Clone, Copy, Debug, PartialEq, Eq, Structural)]
pub enum AppAction {
    DequeueSelection,
    MoveDownSelection,
    MoveUpSelection,
    ViewMiniPlayer,
    DestroyMiniPlayer,
}

/// What to do when a tool is activated.
#[derive(Clone, Debug)]
pub enum ToolResponse {
    /// Nothing happens.
    Ignore,
    /// The action is sent to the application.
    Dispatch(AppAction),
    /// The tool is handled the way every selection page handles it.
    Default,
}

/// The response to each tool on the settings page.
pub open spec fn tool_response(tool: SelectionTool) -> ToolResponse {
    match tool {
        SelectionTool::Simple(SimpleSelectionTool::SelectAll) => ToolResponse::Ignore,
        SelectionTool::Simple(SimpleSelectionTool::Remove) => ToolResponse::Dispatch(AppAction::DequeueSelection),
        SelectionTool::Simple(SimpleSelectionTool::MoveDown) => ToolResponse::Dispatch(AppAction::MoveDownSelection),
        SelectionTool::Simple(SimpleSelectionTool::MoveUp) => ToolResponse::Dispatch(AppAction::MoveUpSelection),
        _ => ToolResponse::Default,
    }
}

/// The tools the page offers, in order: select all, move down, move up, remove.
pub open spec fn visible_tools() -> Seq<SelectionTool> {
    seq![
        SelectionTool::Simple(SimpleSelectionTool::SelectAll),
        SelectionTool::Simple(SimpleSelectionTool::MoveDown),
        SelectionTool::Simple(SimpleSelectionTool::MoveUp),
        SelectionTool::Simple(SimpleSelectionTool::Remove),
    ]
}

/// The settings page's model: a shared handle on the application's model and the
/// channel (`D`) through which actions are sent.
pub struct SettingsModel<S, D> {
    app_model: Rc<AppModel<S>>,
    dispatcher: D,
}

impl<S, D> SettingsModel<S, D> {
    /// The application's model that this page reads.
    pub closed spec fn app_model_view(&self) -> AppModel<S> {
        *self.app_model
    }

    /// The channel through which this page sends actions.
    pub closed spec fn dispatcher_view(&self) -> D {
        self.dispatcher
    }

    pub fn new(app_model: Rc<AppModel<S>>, dispatcher: D) -> (r: Self)
        ensures
            r.app_model_view() == *app_model,
            r.dispatcher_view() == dispatcher,
    {
        Self { app_model, dispatcher }
    }

    /// The application's settings.
    pub fn settings(&self) -> (r: &S)
        ensures
            *r == self.app_model_view().settings,
    {
        &self.app_model.settings
    }

    /// The channel through which this page sends actions.
    pub fn dispatcher(&self) -> (r: &D)
        ensures
            *r == self.dispatcher_view(),
    {
        &self.dispatcher
    }

    /// The current selection, when it was made in the play queue.
    pub fn selection(&self) -> (r: Option<&SelectionState>)
        ensures
            self.app_model_view().selection.context == SelectionContext::Queue ==> r == Some(
                &self.app_model_view().selection,
            ),
            self.app_model_view().selection.context != SelectionContext::Queue ==> r is None,
    {
        let selection = &self.app_model.selection;
        if selection.context == SelectionContext::Queue {
            Some(selection)
        } else {
            None
        }
    }

    /// The tools offered on a selection: select all, move down, move up, remove.
    pub fn tools_visible(&self, _selection: &SelectionState) -> (r: Vec<SelectionTool>)
        ensures
            r@ == visible_tools(),
    {
        let r = vec![
            SelectionTool::Simple(SimpleSelectionTool::SelectAll),
            SelectionTool::Simple(SimpleSelectionTool::MoveDown),
            SelectionTool::Simple(SimpleSelectionTool::MoveUp),
            SelectionTool::Simple(SimpleSelectionTool::Remove),
        ];
        assert(r@ =~= visible_tools());
        r
    }

    /// What activating `tool` on `selection` does: "remove", "move down" and
    /// "move up" send the matching action, "select all" does nothing here, and
    /// every other tool is handled as on any selection page.
    pub fn handle_tool_activated(&self, _selection: &SelectionState, tool: &SelectionTool) -> (r:
        ToolResponse)
        ensures
            r == tool_response(*tool),
    {
        match tool {
            SelectionTool::Simple(SimpleSelectionTool::SelectAll) => ToolResponse::Ignore,
            SelectionTool::Simple(SimpleSelectionTool::Remove) => ToolResponse::Dispatch(
                AppAction::DequeueSelection,
            ),
            SelectionTool::Simple(SimpleSelectionTool::MoveDown) => ToolResponse::Dispatch(
                AppAction::MoveDownSelection,
            ),
            SelectionTool::Simple(SimpleSelectionTool::MoveUp) => ToolResponse::Dispatch(
                AppAction::MoveUpSelection,
            ),
            _ => ToolResponse::Default,
        }
    }
}

/// Every tool the page offers is handled by the page itself: none falls back to
/// the default handling, and all but "select all" send an action.
pub proof fn lemma_visible_tools_handled()
    ensures
        forall|i: int|
            0 <= i < visible_tools().len() ==> !(#[trigger] tool_response(visible_tools()[i]) is Default),
        forall|i: int|
            0 <= i < visible_tools().len() && visible_tools()[i] != SelectionTool::Simple(
                SimpleSelectionTool::SelectAll,
            ) ==> #[trigger] tool_response(visible_tools()[i]) is Dispatch,
{
}

/// The settings page's own answer to each tool: "remove" dequeues the selection,
/// "move down" and "move up" move it, "select all" does nothing, and every tool
/// that adds the selection somewhere is left to the default handling.
pub proof fn lemma_tool_responses(add: AddSelectionTool)
    ensures
        tool_response(SelectionTool::Simple(SimpleSelectionTool::Remove)) == ToolResponse::Dispatch(
            AppAction::DequeueSelection,
        ),
        tool_response(SelectionTool::Simple(SimpleSelectionTool::MoveDown)) == ToolResponse::Dispatch(
            AppAction::MoveDownSelection,
        ),
        tool_response(SelectionTool::Simple(SimpleSelectionTool::MoveUp)) == ToolResponse::Dispatch(
            AppAction::MoveUpSelection,
        ),
        tool_response(SelectionTool::Simple(SimpleSelectionTool::SelectAll)) == ToolResponse::Ignore,
        tool_response(SelectionTool::Add(add)) == ToolResponse::Default,
        visible_tools().len() == 4,
        visible_tools().contains(SelectionTool::Simple(SimpleSelectionTool::Remove)),
{
    assert(visible_tools()[3] == SelectionTool::Simple(SimpleSelectionTool::Remove));
}

} // verus!
