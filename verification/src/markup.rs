//! Text nodes of the elements that a selector finds in a page.

use vstd::prelude::*;

verus! {

/// The text nodes found in a page: for each element that matched, in the order
/// of the matches, the texts below it; `None` where the selector is no selector.
pub type Selection = Option<Vec<Vec<String>>>;

/// What `scraper` finds in a page for a CSS selector: for each element that
/// `Html::select` yields on the document that `Html::parse_document` builds,
/// the text nodes that `ElementRef::text` yields, in order; `None` where
/// `Selector::parse` refuses the selector.
pub uninterp spec fn selected_texts(markup: Seq<char>, selector: Seq<char>) -> Option<
    Seq<Seq<Seq<char>>>,
>;

/// What `str::trim` leaves of a text.
pub uninterp spec fn trimmed(text: Seq<char>) -> Seq<char>;

/// The characters of each text of a sequence.
pub open spec fn texts_of(texts: Seq<String>) -> Seq<Seq<char>> {
    texts.map_values(|text: String| text@)
}

/// The characters of each text of each element of a sequence.
pub open spec fn nodes_of(elements: Seq<Vec<String>>) -> Seq<Seq<Seq<char>>> {
    elements.map_values(|texts: Vec<String>| texts_of(texts@))
}

/// The characters held by a selection.
pub open spec fn selection_view(selection: Selection) -> Option<Seq<Seq<Seq<char>>>> {
    match selection {
        Some(elements) => Some(nodes_of(elements@)),
        None => None,
    }
}

/// Parses the page with `scraper::Html::parse_document` and the selector with
/// `scraper::Selector::parse`, walks the matches of `Html::select` and copies
/// the text nodes that `ElementRef::text` yields for each. Trusted: the result
/// is `selected_texts` of the arguments.
#[verifier::external_body]
pub(crate) fn select_texts(markup: &str, selector: &str) -> (found: Selection)
    ensures
        selection_view(found) == selected_texts(markup@, selector@),
{
    let document = scraper::Html::parse_document(markup);
    match scraper::Selector::parse(selector) {
        Ok(parsed) => Some(
            document.select(&parsed).map(|element| element.text().map(String::from).collect()).collect(),
        ),
        Err(_) => None,
    }
}

/// Calls `str::trim` and copies what is left. Trusted: the result is `trimmed`
/// of the argument.
#[verifier::external_body]
pub(crate) fn trim_text(text: &str) -> (rest: String)
    ensures
        rest@ == trimmed(text@),
{
    String::from(text.trim())
}

/// The first text of every element, or `None` if an element has no text.
pub open spec fn first_texts(elements: Seq<Seq<Seq<char>>>) -> Option<Seq<Seq<char>>> {
    if forall|i: int| 0 <= i < elements.len() ==> (#[trigger] elements[i]).len() > 0 {
        Some(elements.map_values(|texts: Seq<Seq<char>>| texts.first()))
    } else {
        None
    }
}

/// The last text of every element, or `None` if an element has no text.
pub open spec fn last_texts(elements: Seq<Seq<Seq<char>>>) -> Option<Seq<Seq<char>>> {
    if forall|i: int| 0 <= i < elements.len() ==> (#[trigger] elements[i]).len() > 0 {
        Some(elements.map_values(|texts: Seq<Seq<char>>| texts.last()))
    } else {
        None
    }
}

/// The characters of a list of texts that may be absent.
pub open spec fn optional_texts(texts: Option<Vec<String>>) -> Option<Seq<Seq<char>>> {
    match texts {
        Some(list) => Some(texts_of(list@)),
        None => None,
    }
}

/// Copies the first text of every element.
pub fn first_text_of_each(elements: &Vec<Vec<String>>) -> (picked: Option<Vec<String>>)
    ensures
        optional_texts(picked) == first_texts(nodes_of(elements@)),
{
    let mut picked: Vec<String> = Vec::new();
    for i in 0..elements.len()
        invariant
            forall|k: int| 0 <= k < i ==> (#[trigger] nodes_of(elements@)[k]).len() > 0,
            picked@.len() == i,
            forall|k: int| 0 <= k < i ==> (#[trigger] picked@[k])@ == nodes_of(elements@)[k].first(),
    {
        let texts = &elements[i];
        if texts.len() == 0 {
            assert(nodes_of(elements@)[i as int].len() == 0);
            return None;
        }
        picked.push(texts[0].clone());
    }
    Some(picked)
}

/// Copies the last text of every element.
pub fn last_text_of_each(elements: &Vec<Vec<String>>) -> (picked: Option<Vec<String>>)
    ensures
        optional_texts(picked) == last_texts(nodes_of(elements@)),
{
    let mut picked: Vec<String> = Vec::new();
    for i in 0..elements.len()
        invariant
            forall|k: int| 0 <= k < i ==> (#[trigger] nodes_of(elements@)[k]).len() > 0,
            picked@.len() == i,
            forall|k: int| 0 <= k < i ==> (#[trigger] picked@[k])@ == nodes_of(elements@)[k].last(),
    {
        let texts = &elements[i];
        if texts.len() == 0 {
            assert(nodes_of(elements@)[i as int].len() == 0);
            return None;
        }
        picked.push(texts[texts.len() - 1].clone());
    }
    Some(picked)
}

} // verus!
