use vstd::prelude::*;
use vstd::string::*;

verus! {

/// What the application does in answer to a tray event.
#[derive(PartialEq, Eq, Structural, Clone, Copy, Debug)]
pub enum TrayAction {
    /// End the process at once.
    Quit,
    /// Make the main window visible and give it focus, if it still exists.
    ShowMainWindow,
    /// Nothing observable.
    Ignore,
}

/// An event of the tray icon.
pub enum TrayEvent {
    LeftClick,
    RightClick,
    DoubleClick,
    /// An entry of the tray menu was chosen; `id` names the entry.
    MenuItemClick { id: String },
}

/// What choosing the tray entry named `id` does: "quit" ends the process,
/// "show" brings the main window up, any other name does nothing.
pub open spec fn spec_menu_item_action(id: Seq<char>) -> TrayAction {
    if id == "quit"@ {
        TrayAction::Quit
    } else if id == "show"@ {
        TrayAction::ShowMainWindow
    } else {
        TrayAction::Ignore
    }
}

/// What a tray event does: a left click brings the main window up, a chosen
/// entry acts by its name, and the other clicks do nothing.
pub open spec fn spec_tray_event_action(e: &TrayEvent) -> TrayAction {
    match e {
        TrayEvent::LeftClick => TrayAction::ShowMainWindow,
        TrayEvent::MenuItemClick { id } => spec_menu_item_action(id@),
        _ => TrayAction::Ignore,
    }
}

/// Dispatches on the name of a chosen tray entry.
pub fn menu_item_action(id: &str) -> (r: TrayAction)
    ensures
        r == spec_menu_item_action(id@),
{
    let name = String::from_str(id);
    if name == String::from_str("quit") {
        TrayAction::Quit
    } else if name == String::from_str("show") {
        TrayAction::ShowMainWindow
    } else {
        TrayAction::Ignore
    }
}

/// Dispatches a tray event to the action it asks for.
pub fn tray_event_action(e: &TrayEvent) -> (r: TrayAction)
    ensures
        r == spec_tray_event_action(e),
{
    match e {
        TrayEvent::LeftClick => TrayAction::ShowMainWindow,
        TrayEvent::MenuItemClick { id } => menu_item_action(id.as_str()),
        TrayEvent::RightClick => TrayAction::Ignore,
        TrayEvent::DoubleClick => TrayAction::Ignore,
    }
}

/// An entry of the tray menu: the name it dispatches by and its label.
pub struct TrayEntry {
    pub id: String,
    pub title: String,
}

impl View for TrayEntry {
    type V = (Seq<char>, Seq<char>);

    open spec fn view(&self) -> (Seq<char>, Seq<char>) {
        (self.id@, self.title@)
    }
}

/// The tray menu: "Show" (named "show") above "Quit" (named "quit").
pub open spec fn tray_layout() -> Seq<(Seq<char>, Seq<char>)> {
    seq![("show"@, "Show"@), ("quit"@, "Quit"@)]
}

/// The entries of the tray menu, in display order.
pub fn tray_menu() -> (r: Vec<TrayEntry>)
    ensures
        r@.len() == tray_layout().len(),
        forall|i: int| 0 <= i < r@.len() ==> #[trigger] r@[i]@ == tray_layout()[i],
{
    let show = TrayEntry { id: String::from_str("show"), title: String::from_str("Show") };
    let quit = TrayEntry { id: String::from_str("quit"), title: String::from_str("Quit") };
    let r = vec![show, quit];
    assert(r@[0]@ == tray_layout()[0]);
    assert(r@[1]@ == tray_layout()[1]);
    r
}

/// Every entry of the tray menu is one that dispatch acts on: the names
/// declared when the tray is built are exactly the names dispatch knows, and
/// each entry does what its label says.
pub proof fn lemma_tray_entries_dispatch(i: int)
    requires
        0 <= i < tray_layout().len(),
    ensures
        spec_menu_item_action(tray_layout()[i].0) != TrayAction::Ignore,
        tray_layout()[i].1 == "Show"@ ==> spec_menu_item_action(tray_layout()[i].0)
            == TrayAction::ShowMainWindow,
        tray_layout()[i].1 == "Quit"@ ==> spec_menu_item_action(tray_layout()[i].0)
            == TrayAction::Quit,
{
    reveal_strlit("show");
    reveal_strlit("quit");
    reveal_strlit("Show");
    reveal_strlit("Quit");
    assert("show"@[0] != "quit"@[0]);
    assert("Show"@[0] != "Quit"@[0]);
    if i == 0 {
        assert(tray_layout()[i] == ("show"@, "Show"@));
    } else {
        assert(tray_layout()[i] == ("quit"@, "Quit"@));
    }
}

/// A name that dispatch acts on is one of the tray menu's entries.
pub proof fn lemma_dispatch_names_declared(id: Seq<char>)
    requires
        spec_menu_item_action(id) != TrayAction::Ignore,
    ensures
        exists|i: int| 0 <= i < tray_layout().len() && #[trigger] tray_layout()[i].0 == id,
{
    if id == "quit"@ {
        assert(tray_layout()[1].0 == id);
    } else {
        assert(tray_layout()[0].0 == id);
    }
}

} // verus!
