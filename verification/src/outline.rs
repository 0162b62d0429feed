//! Outlines: the drawing steps that the commands of path data stand for.
//!
//! A command may carry the parameters of several segments. An outline holds
//! one step per segment, in drawing order, together with the moves of the
//! current point between them. Coordinates stay as they were written: where
//! a step is relative, its coordinates are offsets from the current point.

use crate::command::{parsed_path_data, read_commands, views, Letter, PathCommand, PathCommandView};
use crate::document::{document_path_data, last_path_data, markup_of};
use crate::error::PathError;
use crate::number::{Number, Pair};
use vstd::prelude::*;

verus! {

/// One step of an outline: a move of the current point, or one segment.
#[derive(Clone, Copy, Debug, PartialEq, Eq, Structural)]
pub enum Step {
    /// Sets the current point, or offsets it; draws nothing.
    Move { relative: bool, to: Pair },
    /// A straight line to `end`.
    Line { relative: bool, end: Pair },
    /// A straight line that keeps the ordinate of the current point.
    Horizontal { relative: bool, x: Number },
    /// A straight line that keeps the abscissa of the current point.
    Vertical { relative: bool, y: Number },
    /// A quadratic curve with the given control point.
    Quadratic { relative: bool, control: Pair, end: Pair },
    /// A quadratic curve whose control point is the mirror image, in the
    /// current point, of the control point of the curve before it. Where
    /// `reflect` is false there is no such curve, and the control point is
    /// the current point.
    SmoothQuadratic { relative: bool, reflect: bool, end: Pair },
    /// A cubic curve with the given control points.
    Cubic { relative: bool, control1: Pair, control2: Pair, end: Pair },
    /// A cubic curve whose first control point is the mirror image, in the
    /// current point, of the second control point of the curve before it.
    /// Where `reflect` is false there is no such curve, and the first
    /// control point is the current point.
    SmoothCubic { relative: bool, reflect: bool, control2: Pair, end: Pair },
    /// An elliptical arc. The radii and the rotation are never offsets.
    Arc { relative: bool, radii: Pair, rotation: Number, large_arc: bool, sweep: bool, end: Pair },
}

/// Whether the letter draws a quadratic curve.
pub open spec fn quadratic(letter: Letter) -> bool {
    letter is QuadraticCurve || letter is SmoothQuadraticCurve
}

/// Whether the letter draws a cubic curve.
pub open spec fn cubic(letter: Letter) -> bool {
    letter is CubicCurve || letter is SmoothCubicCurve
}

/// How many parameters one segment of this letter takes; for a move, how
/// many it reads.
pub open spec fn group_size(letter: Letter) -> nat {
    match letter {
        Letter::Move => 2,
        Letter::Line => 2,
        Letter::HorizontalLine => 1,
        Letter::VerticalLine => 1,
        Letter::QuadraticCurve => 4,
        Letter::SmoothQuadraticCurve => 2,
        Letter::CubicCurve => 6,
        Letter::SmoothCubicCurve => 4,
        Letter::EllipticalArc => 7,
        Letter::Close => 0,
    }
}

/// Whether the command has a number of parameters that its letter admits:
/// a whole number of groups. A move needs at least one pair, and only its
/// first pair is read; a drawing command may have no group at all.
pub open spec fn well_counted(command: PathCommandView) -> bool {
    match command.letter {
        Letter::Move => command.values.len() >= 2 && command.values.len() % 2 == 0,
        Letter::Close => true,
        _ => command.values.len() % group_size(command.letter) == 0,
    }
}

/// How many steps a well-counted command stands for.
pub open spec fn groups(command: PathCommandView) -> nat {
    match command.letter {
        Letter::Move => 1,
        Letter::Close => 0,
        _ => command.values.len() / group_size(command.letter),
    }
}

/// The pair of the two parameters from position `at` on.
pub open spec fn pair_at(values: Seq<Number>, at: int) -> Pair {
    Pair { x: values[at], y: values[at + 1] }
}

/// The step that the group at position `group` of a command stands for.
/// `continued` says whether the command before it ended in a curve of the
/// kind that this command draws.
pub open spec fn step_at(command: PathCommandView, continued: bool, group: int) -> Step {
    let values = command.values;
    let relative = command.relative;
    let at = group * group_size(command.letter);
    match command.letter {
        Letter::Move | Letter::Close => Step::Move { relative, to: pair_at(values, 0) },
        Letter::Line => Step::Line { relative, end: pair_at(values, at) },
        Letter::HorizontalLine => Step::Horizontal { relative, x: values[at] },
        Letter::VerticalLine => Step::Vertical { relative, y: values[at] },
        Letter::QuadraticCurve => Step::Quadratic {
            relative,
            control: pair_at(values, at),
            end: pair_at(values, at + 2),
        },
        Letter::SmoothQuadraticCurve => Step::SmoothQuadratic {
            relative,
            reflect: continued || group > 0,
            end: pair_at(values, at),
        },
        Letter::CubicCurve => Step::Cubic {
            relative,
            control1: pair_at(values, at),
            control2: pair_at(values, at + 2),
            end: pair_at(values, at + 4),
        },
        Letter::SmoothCubicCurve => Step::SmoothCubic {
            relative,
            reflect: continued || group > 0,
            control2: pair_at(values, at),
            end: pair_at(values, at + 2),
        },
        Letter::EllipticalArc => Step::Arc {
            relative,
            radii: pair_at(values, at),
            rotation: values[at + 2],
            large_arc: !values[at + 3].zero(),
            sweep: !values[at + 4].zero(),
            end: pair_at(values, at + 5),
        },
    }
}

/// The steps of one command, in the order of its groups.
pub open spec fn command_steps(command: PathCommandView, continued: bool) -> Seq<Step> {
    Seq::new(groups(command), |group: int| step_at(command, continued, group))
}

/// Whether the command at `index` continues a curve: the command just
/// before it drew at least one curve, and one of the same degree.
pub open spec fn continues(commands: Seq<PathCommandView>, index: int) -> bool {
    &&& 0 < index < commands.len()
    &&& groups(commands[index - 1]) > 0
    &&& {
        ||| quadratic(commands[index - 1].letter) && quadratic(commands[index].letter)
        ||| cubic(commands[index - 1].letter) && cubic(commands[index].letter)
    }
}

/// The steps of the first `count` commands.
pub open spec fn steps_before(commands: Seq<PathCommandView>, count: nat) -> Seq<Step>
    decreases count,
{
    if count == 0 {
        Seq::empty()
    } else {
        steps_before(commands, (count - 1) as nat) + command_steps(
            commands[count - 1],
            continues(commands, count - 1),
        )
    }
}

/// The steps of all the commands.
pub open spec fn outline(commands: Seq<PathCommandView>) -> Seq<Step> {
    steps_before(commands, commands.len())
}

/// How many of the steps draw a segment.
pub open spec fn drawn(steps: Seq<Step>) -> nat
    decreases steps.len(),
{
    if steps.len() == 0 {
        0
    } else {
        drawn(steps.drop_last()) + if steps.last() is Move { 0nat } else { 1nat }
    }
}

/// Whether `index` is the position of the first command that is not
/// well-counted.
pub open spec fn first_miscounted(commands: Seq<PathCommandView>, index: int) -> bool {
    &&& 0 <= index < commands.len()
    &&& !well_counted(commands[index])
    &&& forall|earlier: int| 0 <= earlier < index ==> well_counted(#[trigger] commands[earlier])
}

/// Whether every command is well-counted.
pub open spec fn all_well_counted(commands: Seq<PathCommandView>) -> bool {
    forall|index: int| 0 <= index < commands.len() ==> well_counted(#[trigger] commands[index])
}

/// What compiling the commands gives: the error of the first command that
/// is not well-counted; else the outline, unless it draws nothing.
pub open spec fn compiled(commands: Seq<PathCommandView>, result: Result<Seq<Step>, PathError>) -> bool {
    match result {
        Ok(steps) => {
            &&& all_well_counted(commands)
            &&& steps == outline(commands)
            &&& drawn(steps) > 0
        },
        Err(PathError::ParameterCount { command }) => first_miscounted(commands, command as int),
        Err(PathError::NoSegments) => {
            &&& all_well_counted(commands)
            &&& drawn(outline(commands)) == 0
        },
        Err(_) => false,
    }
}

/// An outline that draws at least one segment.
pub struct SVGPath {
    steps: Vec<Step>,
    segments: usize,
}

impl View for SVGPath {
    type V = Seq<Step>;

    closed spec fn view(&self) -> Seq<Step> {
        self.steps@
    }
}

fn group_len(letter: Letter) -> (size: usize)
    ensures
        size == group_size(letter),
{
    match letter {
        Letter::Move => 2,
        Letter::Line => 2,
        Letter::HorizontalLine => 1,
        Letter::VerticalLine => 1,
        Letter::QuadraticCurve => 4,
        Letter::SmoothQuadraticCurve => 2,
        Letter::CubicCurve => 6,
        Letter::SmoothCubicCurve => 4,
        Letter::EllipticalArc => 7,
        Letter::Close => 0,
    }
}

fn is_quadratic(letter: Letter) -> (yes: bool)
    ensures
        yes == quadratic(letter),
{
    match letter {
        Letter::QuadraticCurve | Letter::SmoothQuadraticCurve => true,
        _ => false,
    }
}

fn is_cubic(letter: Letter) -> (yes: bool)
    ensures
        yes == cubic(letter),
{
    match letter {
        Letter::CubicCurve | Letter::SmoothCubicCurve => true,
        _ => false,
    }
}

/// Whether the command has a number of parameters that its letter admits.
pub fn is_well_counted(command: &PathCommand) -> (yes: bool)
    ensures
        yes == well_counted(command@),
{
    match command.letter {
        Letter::Move => command.values.len() >= 2 && command.values.len() % 2 == 0,
        Letter::Close => true,
        letter => command.values.len() % group_len(letter) == 0,
    }
}

fn group_count(command: &PathCommand) -> (count: usize)
    ensures
        count == groups(command@),
{
    match command.letter {
        Letter::Move => 1,
        Letter::Close => 0,
        letter => command.values.len() / group_len(letter),
    }
}

fn read_pair(values: &Vec<Number>, at: usize) -> (pair: Pair)
    requires
        at + 1 < values.len(),
    ensures
        pair == pair_at(values@, at as int),
{
    Pair { x: values[at], y: values[at + 1] }
}

proof fn group_fits(length: int, size: int, group: int)
    requires
        0 < size,
        0 <= length,
        length % size == 0,
        0 <= group < length / size,
    ensures
        0 <= group * size,
        group * size + size <= length,
{
    assert(length == size * (length / size)) by {
        vstd::arithmetic::div_mod::lemma_fundamental_div_mod(length, size);
    }
    assert(0 <= group * size && group * size + size <= size * (length / size))
        by (nonlinear_arith)
        requires
            0 <= group < length / size,
            size > 0,
    ;
}

fn step_of(command: &PathCommand, continued: bool, group: usize) -> (step: Step)
    requires
        well_counted(command@),
        group < groups(command@),
    ensures
        step == step_at(command@, continued, group as int),
{
    let values = &command.values;
    let relative = command.relative;
    let size = group_len(command.letter);
    let length = values.len();
    proof {
        if command.letter is Move {
            assert(group * size == 0) by (nonlinear_arith)
                requires
                    group == 0,
            ;
        } else {
            group_fits(length as int, size as int, group as int);
        }
    }
    let at = group * size;
    match command.letter {
        Letter::Move | Letter::Close => Step::Move { relative, to: read_pair(values, 0) },
        Letter::Line => Step::Line { relative, end: read_pair(values, at) },
        Letter::HorizontalLine => Step::Horizontal { relative, x: values[at] },
        Letter::VerticalLine => Step::Vertical { relative, y: values[at] },
        Letter::QuadraticCurve => Step::Quadratic {
            relative,
            control: read_pair(values, at),
            end: read_pair(values, at + 2),
        },
        Letter::SmoothQuadraticCurve => Step::SmoothQuadratic {
            relative,
            reflect: continued || group > 0,
            end: read_pair(values, at),
        },
        Letter::CubicCurve => Step::Cubic {
            relative,
            control1: read_pair(values, at),
            control2: read_pair(values, at + 2),
            end: read_pair(values, at + 4),
        },
        Letter::SmoothCubicCurve => Step::SmoothCubic {
            relative,
            reflect: continued || group > 0,
            control2: read_pair(values, at),
            end: read_pair(values, at + 2),
        },
        Letter::EllipticalArc => Step::Arc {
            relative,
            radii: read_pair(values, at),
            rotation: values[at + 2],
            large_arc: values[at + 3].flag(),
            sweep: values[at + 4].flag(),
            end: read_pair(values, at + 5),
        },
    }
}

fn push_steps(command: &PathCommand, continued: bool, steps: &mut Vec<Step>)
    requires
        well_counted(command@),
    ensures
        final(steps)@ == old(steps)@ + command_steps(command@, continued),
{
    let count = group_count(command);
    let mut group: usize = 0;
    while group < count
        invariant
            well_counted(command@),
            count == groups(command@),
            group <= count,
            steps@ == old(steps)@ + command_steps(command@, continued).take(group as int),
        decreases count - group,
    {
        let step = step_of(command, continued, group);
        steps.push(step);
        group += 1;
        assert(steps@ =~= old(steps)@ + command_steps(command@, continued).take(group as int));
    }
    assert(command_steps(command@, continued).take(count as int) =~= command_steps(
        command@,
        continued,
    ));
}

fn continues_at(commands: &Vec<PathCommand>, index: usize) -> (yes: bool)
    requires
        index < commands.len(),
    ensures
        yes == continues(views(commands@), index as int),
{
    if index == 0 {
        return false;
    }
    let before = &commands[index - 1];
    let letter = commands[index].letter;
    group_count(before) > 0 && ((is_quadratic(before.letter) && is_quadratic(letter)) || (is_cubic(
        before.letter,
    ) && is_cubic(letter)))
}

fn count_drawn(steps: &Vec<Step>) -> (count: usize)
    ensures
        count == drawn(steps@),
{
    let mut count: usize = 0;
    let mut index: usize = 0;
    while index < steps.len()
        invariant
            index <= steps.len(),
            count <= index,
            count == drawn(steps@.take(index as int)),
        decreases steps.len() - index,
    {
        assert(steps@.take(index + 1).drop_last() =~= steps@.take(index as int));
        match steps[index] {
            Step::Move { .. } => {},
            _ => {
                count += 1;
            },
        }
        index += 1;
    }
    assert(steps@.take(index as int) =~= steps@);
    count
}

/// The steps that a result of compiling holds, or its error.
pub open spec fn outcome(result: Result<SVGPath, PathError>) -> Result<Seq<Step>, PathError> {
    match result {
        Ok(path) => Ok(path@),
        Err(error) => Err(error),
    }
}

/// What reading and compiling path data gives: a syntax error where the
/// text cannot be read, else what compiling its commands gives.
pub open spec fn compiled_text(text: Seq<char>, result: Result<Seq<Step>, PathError>) -> bool {
    match parsed_path_data(text) {
        Some(commands) => compiled(commands, result),
        None => result == Err::<Seq<Step>, PathError>(PathError::Syntax),
    }
}

/// What building the outline of a document gives: an error where the
/// document has no path data, else what its path data gives.
pub open spec fn compiled_document(
    document: Seq<char>,
    result: Result<Seq<Step>, PathError>,
) -> bool {
    match last_path_data(markup_of(document, "d"@)) {
        Some(text) => compiled_text(text, result),
        None => result == Err::<Seq<Step>, PathError>(PathError::MissingPathData),
    }
}

impl SVGPath {
    #[verifier::type_invariant]
    spec fn well_formed(self) -> bool {
        self.segments == drawn(self.steps@) && self.segments > 0
    }

    /// Builds the outline of a document: that of the path data of its last
    /// `path` element that has any.
    pub fn new(document: &str) -> (result: Result<SVGPath, PathError>)
        ensures
            compiled_document(document@, outcome(result)),
    {
        match document_path_data(document) {
            Some(text) => SVGPath::parse(text.as_str()),
            None => Err(PathError::MissingPathData),
        }
    }

    /// Builds the outline that path data describes.
    pub fn parse(text: &str) -> (result: Result<SVGPath, PathError>)
        ensures
            compiled_text(text@, outcome(result)),
    {
        match read_commands(text) {
            Ok(commands) => SVGPath::from_commands(&commands),
            Err(_) => Err(PathError::Syntax),
        }
    }

    /// Compiles a list of commands into an outline.
    ///
    /// Fails with the position of the first command whose number of
    /// parameters its letter does not admit; else, where no command draws a
    /// segment, with [`PathError::NoSegments`]. Otherwise the outline holds
    /// the steps of all the commands, in their order.
    pub fn from_commands(commands: &Vec<PathCommand>) -> (result: Result<SVGPath, PathError>)
        ensures
            compiled(views(commands@), outcome(result)),
    {
        let mut steps: Vec<Step> = Vec::new();
        let mut index: usize = 0;
        while index < commands.len()
            invariant
                index <= commands.len(),
                forall|earlier: int|
                    0 <= earlier < index ==> well_counted(#[trigger] views(commands@)[earlier]),
                steps@ == steps_before(views(commands@), index as nat),
            decreases commands.len() - index,
        {
            let command = &commands[index];
            if !is_well_counted(command) {
                return Err(PathError::ParameterCount { command: index });
            }
            let continued = continues_at(commands, index);
            push_steps(command, continued, &mut steps);
            index += 1;
        }
        let segments = count_drawn(&steps);
        if segments == 0 {
            Err(PathError::NoSegments)
        } else {
            Ok(SVGPath { steps, segments })
        }
    }

    /// The steps of the outline, in drawing order.
    pub fn steps(&self) -> (steps: &Vec<Step>)
        ensures
            steps@ == self@,
    {
        &self.steps
    }

    /// How many segments the outline draws: at least one.
    pub fn segment_count(&self) -> (count: usize)
        ensures
            count == drawn(self@),
            count > 0,
    {
        proof {
            use_type_invariant(self);
        }
        self.segments
    }
}

} // verus!

