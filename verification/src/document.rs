//! Finding the path data in a vector-graphics document.

use svg::parser::{Event, Parser};
use vstd::prelude::*;

verus! {

/// One piece of markup of a document, reduced to what the search for path
/// data looks at.
#[derive(Debug)]
pub enum Markup {
    /// A tag, with its name and the value of the attribute that was asked
    /// for, if the tag has that attribute.
    Tag { name: String, value: Option<String> },
    /// Anything else: text, a comment, a declaration, an instruction, or
    /// markup that could not be read.
    Other,
}

/// The mathematical content of a [`Markup`].
pub enum MarkupView {
    Tag { name: Seq<char>, value: Option<Seq<char>> },
    Other,
}

impl View for Markup {
    type V = MarkupView;

    open spec fn view(&self) -> MarkupView {
        match self {
            Markup::Tag { name, value } => MarkupView::Tag {
                name: name@,
                value: match value {
                    Some(text) => Some(text@),
                    None => None,
                },
            },
            Markup::Other => MarkupView::Other,
        }
    }
}

/// The contents of a list of markup.
pub open spec fn markup_views(markup: Seq<Markup>) -> Seq<MarkupView> {
    markup.map_values(|piece: Markup| piece@)
}

/// The events that `svg::parser::Parser` gives for a document, from the
/// first to the last, each as a [`Markup`]: an `Event::Tag` by its name and
/// by what its attributes hold under `attribute`, any other event as
/// `Other`.
pub uninterp spec fn markup_of(document: Seq<char>, attribute: Seq<char>) -> Seq<MarkupView>;

/// Runs `svg::parser::Parser` over the document, to its end. Not proved:
/// that the same document and attribute always give the same list, which
/// [`markup_of`] names.
#[verifier::external_body]
fn read_markup(document: &str, attribute: &str) -> (markup: Vec<Markup>)
    ensures
        markup_views(markup@) == markup_of(document@, attribute@),
{
    Parser::new(document).map(
        |event| match event {
            Event::Tag(name, _, attributes) => Markup::Tag {
                name: name.to_string(),
                value: attributes.get(attribute).map(|value| value.to_string()),
            },
            _ => Markup::Other,
        },
    ).collect()
}

/// The path data that a piece of markup carries: the value that a tag
/// named `path` has for the attribute.
pub open spec fn path_data_of(piece: MarkupView) -> Option<Seq<char>> {
    match piece {
        MarkupView::Tag { name, value } => if name == "path"@ {
            value
        } else {
            None
        },
        MarkupView::Other => None,
    }
}

/// The path data of the last piece of markup that carries any.
pub open spec fn last_path_data(markup: Seq<MarkupView>) -> Option<Seq<char>>
    decreases markup.len(),
{
    if markup.len() == 0 {
        None
    } else if path_data_of(markup.last()) is Some {
        path_data_of(markup.last())
    } else {
        last_path_data(markup.drop_last())
    }
}

/// Finds the path data of the last `path` tag that has any.
pub fn find_path_data(markup: &Vec<Markup>) -> (data: Option<String>)
    ensures
        match data {
            Some(text) => last_path_data(markup_views(markup@)) == Some(text@),
            None => last_path_data(markup_views(markup@)) is None,
        },
{
    let path = "path".to_owned();
    let mut index = markup.len();
    assert(markup_views(markup@).take(index as int) =~= markup_views(markup@));
    while index > 0
        invariant
            index <= markup.len(),
            path@ == "path"@,
            last_path_data(markup_views(markup@)) == last_path_data(
                markup_views(markup@).take(index as int),
            ),
        decreases index,
    {
        index -= 1;
        assert(markup_views(markup@).take(index + 1).drop_last() =~= markup_views(markup@).take(
            index as int,
        ));
        match &markup[index] {
            Markup::Tag { name, value: Some(text) } => {
                if *name == path {
                    return Some(text.clone());
                }
            },
            _ => {},
        }
    }
    None
}

/// Finds the path data of a document: `None` where no `path` tag of it has
/// a `d` attribute, else the value of that attribute in the last tag that
/// has one.
pub fn document_path_data(document: &str) -> (data: Option<String>)
    ensures
        match data {
            Some(text) => last_path_data(markup_of(document@, "d"@)) == Some(text@),
            None => last_path_data(markup_of(document@, "d"@)) is None,
        },
{
    let markup = read_markup(document, "d");
    find_path_data(&markup)
}

} // verus!
