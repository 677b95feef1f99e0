//! What a page needs in its head before the components work: two
//! stylesheets and a style rule. The host application adds them once, next
//! to the script bundle of the component library.

use vstd::prelude::*;

verus! {

/// The stylesheet of the text font.
pub open spec fn font_stylesheet_url() -> Seq<char> {
    "https://fonts.googleapis.com/css2?family=Roboto:wght@400;500;700&display=swap"@
}

/// The stylesheet of the icon font.
pub open spec fn icon_stylesheet_url() -> Seq<char> {
    "https://fonts.googleapis.com/css2?family=Material+Symbols+Outlined"@
}

/// The style rule that sets the text font on the page's body.
pub open spec fn body_style() -> Seq<char> {
    "body { font-family = 'Roboto'; }"@
}

/// The stylesheets to link, in order: the text font, then the icon font.
pub fn stylesheet_urls() -> (urls: Vec<&'static str>)
    ensures
        urls@.len() == 2,
        urls@[0]@ == font_stylesheet_url(),
        urls@[1]@ == icon_stylesheet_url(),
{
    let mut urls: Vec<&'static str> = Vec::new();
    urls.push("https://fonts.googleapis.com/css2?family=Roboto:wght@400;500;700&display=swap");
    urls.push("https://fonts.googleapis.com/css2?family=Material+Symbols+Outlined");
    urls
}

/// The style rule to add to the page.
pub fn get_body_style() -> (style: &'static str)
    ensures
        style@ == body_style(),
{
    "body { font-family = 'Roboto'; }"
}

} // verus!
