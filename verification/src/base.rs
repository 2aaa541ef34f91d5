//! What every selectable card (a backend, a player) shows the user.

use vstd::prelude::*;

verus! {

/// A description and an icon, as the selection cards present them.
pub trait CardInfo {
    /// Model of the description shown.
    spec fn description_spec(&self) -> Seq<char>;

    /// Model of the icon's name.
    spec fn icon_spec(&self) -> Seq<char>;

    fn get_description(&self) -> (r: &str)
        ensures
            r@ == self.description_spec(),
    ;

    fn get_icon(&self) -> (r: &str)
        ensures
            r@ == self.icon_spec(),
    ;
}

} // verus!
