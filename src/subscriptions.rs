use vstd::prelude::*;
use crate::message::{Message, WindowType};

verus! {

/// The event that a tray menu item stands for, by the item's id: `1` opens
/// the rule settings, `2` makes this program the default browser, `3` quits.
pub fn tray_menu_message(id: &str) -> (r: Option<Message>)
    ensures
        id@ == seq!['1'] ==> r == Some(Message::OpenWindow(WindowType::Setting)),
        id@ == seq!['2'] ==> r == Some(Message::SetAsDefault),
        id@ == seq!['3'] ==> r == Some(Message::CloseApplication),
        id@ != seq!['1'] && id@ != seq!['2'] && id@ != seq!['3'] ==> r is None,
{
    if id.unicode_len() != 1 {
        return None;
    }
    let c = id.get_char(0);
    if c == '1' {
        assert(id@ =~= seq!['1']);
        Some(Message::OpenWindow(WindowType::Setting))
    } else if c == '2' {
        assert(id@ =~= seq!['2']);
        Some(Message::SetAsDefault)
    } else if c == '3' {
        assert(id@ =~= seq!['3']);
        Some(Message::CloseApplication)
    } else {
        None
    }
}

} // verus!
