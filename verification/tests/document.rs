use epicycles::document::{document_path_data, find_path_data, Markup};
use epicycles::error::PathError;
use epicycles::number::{Number, Pair};
use epicycles::outline::{SVGPath, Step};

fn tag(name: &str, value: Option<&str>) -> Markup {
    Markup::Tag { name: name.to_string(), value: value.map(|text| text.to_string()) }
}

#[test]
fn finds_the_data_of_a_path_element() {
    let document = "<?xml version=\"1.0\"?>\n<!-- drawn by hand -->\n\
                    <svg width=\"10\" height=\"10\">\n  <path fill=\"none\" d=\"M1,2 L3,4\"/>\n</svg>\n";
    assert_eq!(document_path_data(document), Some("M1,2 L3,4".to_string()));
}

#[test]
fn takes_the_last_path_that_has_data() {
    let document = "<svg><path d=\"M0,0 L1,1\"/><path id=\"bare\"/><g><path d='M5,5 l2,2'></path></g>\
                    <circle d=\"M9,9\"/></svg>";
    assert_eq!(document_path_data(document), Some("M5,5 l2,2".to_string()));
}

#[test]
fn finds_nothing_without_a_path() {
    assert_eq!(document_path_data(""), None);
    assert_eq!(document_path_data("<svg><rect width=\"1\" d=\"M0,0\"/></svg>"), None);
    assert_eq!(document_path_data("<svg><path stroke=\"black\"/></svg>"), None);
    assert_eq!(document_path_data("just text, no markup"), None);
}

#[test]
fn skips_markup_that_cannot_be_read() {
    assert_eq!(
        document_path_data("<svg><path d=\"M1,1 L2,2\"/><path d=oops/><"),
        Some("M1,1 L2,2".to_string())
    );
}

#[test]
fn searches_a_list_of_markup_from_its_end() {
    let markup = vec![
        tag("svg", None),
        tag("path", Some("first")),
        Markup::Other,
        tag("path", Some("second")),
        tag("path", None),
        tag("line", Some("third")),
        tag("svg", None),
    ];
    assert_eq!(find_path_data(&markup), Some("second".to_string()));
    assert_eq!(find_path_data(&markup[..2].to_vec_of_markup()), Some("first".to_string()));
    assert_eq!(find_path_data(&vec![tag("paths", Some("no")), Markup::Other]), None);
    assert_eq!(find_path_data(&Vec::new()), None);
}

trait ToVecOfMarkup {
    fn to_vec_of_markup(&self) -> Vec<Markup>;
}

impl ToVecOfMarkup for [Markup] {
    fn to_vec_of_markup(&self) -> Vec<Markup> {
        self.iter()
            .map(|piece| match piece {
                Markup::Tag { name, value } => Markup::Tag { name: name.clone(), value: value.clone() },
                Markup::Other => Markup::Other,
            })
            .collect()
    }
}

#[test]
fn builds_the_outline_of_a_document() {
    let path = SVGPath::new("<svg><path d=\"M1,2 h3\"/></svg>").unwrap();
    let one = Number::from_bits(1.0f32.to_bits());
    let two = Number::from_bits(2.0f32.to_bits());
    let three = Number::from_bits(3.0f32.to_bits());
    assert_eq!(
        path.steps(),
        &vec![
            Step::Move { relative: false, to: Pair::new(one, two) },
            Step::Horizontal { relative: true, x: three },
        ]
    );
}

#[test]
fn a_document_without_path_data_has_no_outline() {
    assert_eq!(SVGPath::new("<svg><g/></svg>").err(), Some(PathError::MissingPathData));
    assert_eq!(SVGPath::new("").err(), Some(PathError::MissingPathData));
}

#[test]
fn the_errors_of_the_path_data_are_those_of_the_document() {
    assert_eq!(SVGPath::new("<svg><path d=\"M1,2 L3,?\"/></svg>").err(), Some(PathError::Syntax));
    assert_eq!(
        SVGPath::new("<svg><path d=\"M1,2 L3\"/></svg>").err(),
        Some(PathError::ParameterCount { command: 1 })
    );
    assert_eq!(SVGPath::new("<svg><path d=\"M1,2\"/></svg>").err(), Some(PathError::NoSegments));
    assert_eq!(SVGPath::new("<svg><path d=\"\"/></svg>").err(), Some(PathError::NoSegments));
}
