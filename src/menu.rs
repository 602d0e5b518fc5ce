use vstd::prelude::*;
use vstd::string::*;

verus! {

/// An entry of the application menu whose behaviour the platform supplies.
#[derive(PartialEq, Eq, Structural, Clone, Copy, Debug)]
pub enum NativeItem {
    Quit,
    Undo,
    Redo,
    Separator,
    Cut,
    Copy,
    Paste,
}

/// A titled group of the menu bar and its entries, in display order.
pub struct MenuGroup {
    pub title: String,
    pub items: Vec<NativeItem>,
}

impl View for MenuGroup {
    type V = (Seq<char>, Seq<NativeItem>);

    open spec fn view(&self) -> (Seq<char>, Seq<NativeItem>) {
        (self.title@, self.items@)
    }
}

/// The menu bar: "File" with Quit; "Edit" with Undo, Redo, a separator, Cut,
/// Copy and Paste.
pub open spec fn menu_layout() -> Seq<(Seq<char>, Seq<NativeItem>)> {
    seq![
        ("File"@, seq![NativeItem::Quit]),
        ("Edit"@, seq![
            NativeItem::Undo,
            NativeItem::Redo,
            NativeItem::Separator,
            NativeItem::Cut,
            NativeItem::Copy,
            NativeItem::Paste,
        ]),
    ]
}

/// The groups of the menu bar, in display order.
pub fn app_menu() -> (r: Vec<MenuGroup>)
    ensures
        r@.len() == menu_layout().len(),
        forall|i: int| 0 <= i < r@.len() ==> #[trigger] r@[i]@ == menu_layout()[i],
{
    let file = MenuGroup { title: String::from_str("File"), items: vec![NativeItem::Quit] };
    let edit = MenuGroup {
        title: String::from_str("Edit"),
        items: vec![
            NativeItem::Undo,
            NativeItem::Redo,
            NativeItem::Separator,
            NativeItem::Cut,
            NativeItem::Copy,
            NativeItem::Paste,
        ],
    };
    let r = vec![file, edit];
    assert(r@[0]@ == menu_layout()[0]);
    assert(r@[1]@ == menu_layout()[1]);
    r
}

} // verus!
