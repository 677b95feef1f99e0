//! Cards: the class of each style, and which style carries an elevation.

use vstd::prelude::*;

verus! {

/// The three card styles.
#[derive(Clone, Copy, Debug, PartialEq, Eq, Structural)]
pub enum CardStyle {
    Elevated,
    Filled,
    Outlined,
}

impl CardStyle {
    /// The class that marks a card of this style.
    pub open spec fn class_name(self) -> Seq<char> {
        match self {
            CardStyle::Elevated => "elevated"@,
            CardStyle::Filled => "filled"@,
            CardStyle::Outlined => "outlined"@,
        }
    }

    /// The whole class attribute of a card of this style: the class of every
    /// card, a space, and the class of the style.
    pub open spec fn class_list(self) -> Seq<char> {
        "leptos-material-card "@ + self.class_name()
    }

    /// Get the class that marks a card of this style.
    pub fn get_class_name(&self) -> (name: String)
        ensures
            name@ == self.class_name(),
    {
        match self {
            CardStyle::Elevated => "elevated".to_owned(),
            CardStyle::Filled => "filled".to_owned(),
            CardStyle::Outlined => "outlined".to_owned(),
        }
    }

    /// Get the whole class attribute of a card of this style.
    pub fn get_class_list(&self) -> (classes: &'static str)
        ensures
            classes@ == self.class_list(),
    {
        proof {
            reveal_strlit("leptos-material-card ");
            reveal_strlit("elevated");
            reveal_strlit("filled");
            reveal_strlit("outlined");
            reveal_strlit("leptos-material-card elevated");
            reveal_strlit("leptos-material-card filled");
            reveal_strlit("leptos-material-card outlined");
        }
        match self {
            CardStyle::Elevated => {
                assert("leptos-material-card elevated"@ =~= "leptos-material-card "@
                    + "elevated"@);
                "leptos-material-card elevated"
            },
            CardStyle::Filled => {
                assert("leptos-material-card filled"@ =~= "leptos-material-card "@ + "filled"@);
                "leptos-material-card filled"
            },
            CardStyle::Outlined => {
                assert("leptos-material-card outlined"@ =~= "leptos-material-card "@
                    + "outlined"@);
                "leptos-material-card outlined"
            },
        }
    }

    /// Whether a card of this style carries an elevation: the elevated one
    /// does, and no other.
    pub fn has_elevation(&self) -> (elevated: bool)
        ensures
            elevated == (*self == CardStyle::Elevated),
    {
        match self {
            CardStyle::Elevated => true,
            _ => false,
        }
    }
}

impl Default for CardStyle {
    fn default() -> (style: CardStyle)
        ensures
            style == CardStyle::Elevated,
    {
        CardStyle::Elevated
    }
}

} // verus!
