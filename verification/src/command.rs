//! The commands of path data, as read by the `svg` crate.

use crate::error::PathError;
use crate::number::Number;
use svg::node::element::path;
use vstd::prelude::*;

verus! {

/// What a command does, whatever its positioning.
#[derive(Clone, Copy, Debug, PartialEq, Eq, Structural)]
pub enum Letter {
    Move,
    Line,
    HorizontalLine,
    VerticalLine,
    QuadraticCurve,
    SmoothQuadraticCurve,
    CubicCurve,
    SmoothCubicCurve,
    EllipticalArc,
    Close,
}

/// One command of path data: a letter, its positioning and the flat list of
/// its parameters.
#[derive(Clone, Debug)]
pub struct PathCommand {
    pub letter: Letter,
    /// Whether the parameters are offsets from the current point.
    pub relative: bool,
    pub values: Vec<Number>,
}

/// The mathematical content of a [`PathCommand`].
pub struct PathCommandView {
    pub letter: Letter,
    pub relative: bool,
    pub values: Seq<Number>,
}

impl View for PathCommand {
    type V = PathCommandView;

    open spec fn view(&self) -> PathCommandView {
        PathCommandView { letter: self.letter, relative: self.relative, values: self.values@ }
    }
}

/// The contents of a list of commands.
pub open spec fn views(commands: Seq<PathCommand>) -> Seq<PathCommandView> {
    commands.map_values(|command: PathCommand| command@)
}

/// `svg::node::element::path::Data`, the list of commands that the parser
/// gives. Nothing is known of what a value holds but through
/// [`data_commands`].
#[verifier::external_type_specification]
#[verifier::external_body]
pub struct ExData(path::Data);

/// `svg::node::element::path::Command`, which a `Data` dereferences to a
/// slice of. It is only named, never read, in verified code.
#[verifier::external_type_specification]
#[verifier::external_body]
pub struct ExCommand(path::Command);

/// `svg::parser::Error`, the failure of the parser. It is only passed on:
/// every failure becomes [`PathError::Syntax`].
#[verifier::external_type_specification]
#[verifier::external_body]
pub struct ExError(svg::parser::Error);

/// What `svg::node::element::path::Data::parse` makes of a text: `None` where
/// it reports an error, else the commands that it read, in their order.
pub uninterp spec fn parsed_path_data(text: Seq<char>) -> Option<Seq<PathCommandView>>;

/// The commands that a parsed `Data` holds, in their order: each with the
/// letter of its variant, relative where its position is
/// `Position::Relative`, and with its parameters by their bit patterns. A
/// `Close` holds no parameters and is not relative.
pub uninterp spec fn data_commands(data: path::Data) -> Seq<PathCommandView>;

/// `svg::node::element::path::Data::parse`. Not proved: that the same text
/// always gives the same outcome, which [`parsed_path_data`] names.
#[verifier::external_body]
fn parse_data(text: &str) -> (result: Result<path::Data, svg::parser::Error>)
    ensures
        match result {
            Ok(data) => parsed_path_data(text@) == Some(data_commands(data)),
            Err(_) => parsed_path_data(text@) is None,
        },
{
    path::Data::parse(text)
}

/// The `len` of the slice of commands that a `Data` dereferences to. Not
/// proved: that it is the number of commands that [`data_commands`] names.
#[verifier::external_body]
fn command_count(data: &path::Data) -> (count: usize)
    ensures
        count == data_commands(*data).len(),
{
    data.len()
}

/// Tells the variants of `svg::node::element::path::Command` apart. Not
/// proved: that the letter is that of the variant at this index.
#[verifier::external_body]
fn letter_at(data: &path::Data, index: usize) -> (letter: Letter)
    requires
        index < data_commands(*data).len(),
    ensures
        letter == data_commands(*data)[index as int].letter,
{
    match &data[index] {
        path::Command::Move(..) => Letter::Move,
        path::Command::Line(..) => Letter::Line,
        path::Command::HorizontalLine(..) => Letter::HorizontalLine,
        path::Command::VerticalLine(..) => Letter::VerticalLine,
        path::Command::QuadraticCurve(..) => Letter::QuadraticCurve,
        path::Command::SmoothQuadraticCurve(..) => Letter::SmoothQuadraticCurve,
        path::Command::CubicCurve(..) => Letter::CubicCurve,
        path::Command::SmoothCubicCurve(..) => Letter::SmoothCubicCurve,
        path::Command::EllipticalArc(..) => Letter::EllipticalArc,
        path::Command::Close => Letter::Close,
    }
}

/// Reads the `Position` of the command at this index. Not proved: that the
/// result is true exactly for `Position::Relative`, and false for `Close`,
/// which has no position.
#[verifier::external_body]
fn relative_at(data: &path::Data, index: usize) -> (relative: bool)
    requires
        index < data_commands(*data).len(),
    ensures
        relative == data_commands(*data)[index as int].relative,
{
    match &data[index] {
        path::Command::Move(position, _)
        | path::Command::Line(position, _)
        | path::Command::HorizontalLine(position, _)
        | path::Command::VerticalLine(position, _)
        | path::Command::QuadraticCurve(position, _)
        | path::Command::SmoothQuadraticCurve(position, _)
        | path::Command::CubicCurve(position, _)
        | path::Command::SmoothCubicCurve(position, _)
        | path::Command::EllipticalArc(position, _) => *position == path::Position::Relative,
        path::Command::Close => false,
    }
}

/// Copies the `Parameters` of the command at this index, each number by
/// `to_bits`. Not proved: that the result holds these bit patterns in their
/// order, and nothing for `Close`.
#[verifier::external_body]
fn values_at(data: &path::Data, index: usize) -> (values: Vec<Number>)
    requires
        index < data_commands(*data).len(),
    ensures
        values@ == data_commands(*data)[index as int].values,
{
    match &data[index] {
        path::Command::Move(_, parameters)
        | path::Command::Line(_, parameters)
        | path::Command::HorizontalLine(_, parameters)
        | path::Command::VerticalLine(_, parameters)
        | path::Command::QuadraticCurve(_, parameters)
        | path::Command::SmoothQuadraticCurve(_, parameters)
        | path::Command::CubicCurve(_, parameters)
        | path::Command::SmoothCubicCurve(_, parameters)
        | path::Command::EllipticalArc(_, parameters) => {
            parameters.iter().map(|number| Number { bits: number.to_bits() }).collect()
        },
        path::Command::Close => Vec::new(),
    }
}

/// Reads path data into its commands.
///
/// Fails with [`PathError::Syntax`] exactly where the text is not
/// well-formed path data; the counts of parameters are not looked at here.
pub fn read_commands(text: &str) -> (result: Result<Vec<PathCommand>, PathError>)
    ensures
        match parsed_path_data(text@) {
            Some(commands) => result is Ok && views(result->Ok_0@) == commands,
            None => result == Err::<Vec<PathCommand>, PathError>(PathError::Syntax),
        },
{
    match parse_data(text) {
        Err(_) => Err(PathError::Syntax),
        Ok(data) => {
            let count = command_count(&data);
            let mut commands: Vec<PathCommand> = Vec::new();
            let mut index: usize = 0;
            while index < count
                invariant
                    count == data_commands(data).len(),
                    index <= count,
                    commands.len() == index,
                    views(commands@) == data_commands(data).take(index as int),
                decreases count - index,
            {
                let command = PathCommand {
                    letter: letter_at(&data, index),
                    relative: relative_at(&data, index),
                    values: values_at(&data, index),
                };
                commands.push(command);
                index += 1;
                assert(views(commands@) =~= data_commands(data).take(index as int));
            }
            assert(data_commands(data).take(count as int) =~= data_commands(data));
            Ok(commands)
        },
    }
}

} // verus!
