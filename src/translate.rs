//! From parsed path-data commands to a `\draw` statement.
use vstd::prelude::*;
use crate::coord::{Coord, Point};
use crate::draw::{Attribute, PathSection, TikzDraw};

verus! {

/// The shape of a path-data command.
#[derive(Clone, Copy, Debug, PartialEq, Eq)]
pub enum CommandKind {
    Move,
    Line,
    HorizontalLine,
    VerticalLine,
    QuadraticCurve,
    SmoothQuadraticCurve,
    CubicCurve,
    SmoothCubicCurve,
    EllipticalArc,
    Close,
}

/// One path-data command: its shape, whether its coordinates are absolute,
/// and its parameters in the order they were written.
#[derive(Clone, Debug, PartialEq, Eq)]
pub struct SvgCommand {
    pub kind: CommandKind,
    pub absolute: bool,
    pub params: Vec<Coord>,
}

pub struct CommandView {
    pub kind: CommandKind,
    pub absolute: bool,
    pub params: Seq<Coord>,
}

impl View for SvgCommand {
    type V = CommandView;

    open spec fn view(&self) -> CommandView {
        CommandView { kind: self.kind, absolute: self.absolute, params: self.params@ }
    }
}

/// Why a translation failed.
#[derive(Clone, Debug, PartialEq, Eq)]
pub enum TranslateError {
    /// The input could not be read in full.
    InputReadFailure,
    /// The document could not be scanned.
    DocumentParseFailure,
    /// The first `path` element has no `d` attribute.
    MissingPathData,
    /// The `d` attribute is not valid path data.
    PathDataSyntaxError,
    /// A relative command, or a shape other than move, line, cubic curve
    /// and close.
    UnsupportedCommand(SvgCommand),
}

/// The point made of parameters `i` and `i + 1`.
pub open spec fn point_at(params: Seq<Coord>, i: int) -> Point {
    Point(params[i], params[i + 1])
}

/// The section a command becomes, if it is supported: an absolute move or
/// line with at least two parameters, an absolute cubic curve with at least
/// six, or a close. Parameters beyond those are not read.
pub open spec fn section_of(c: CommandView) -> Option<PathSection> {
    match c.kind {
        CommandKind::Close => Some(PathSection::Cycle),
        CommandKind::Move => if c.absolute && c.params.len() >= 2 {
            Some(PathSection::Move(point_at(c.params, 0)))
        } else {
            None
        },
        CommandKind::Line => if c.absolute && c.params.len() >= 2 {
            Some(PathSection::Line(point_at(c.params, 0)))
        } else {
            None
        },
        CommandKind::CubicCurve => if c.absolute && c.params.len() >= 6 {
            Some(
                PathSection::Curve(
                    point_at(c.params, 0),
                    point_at(c.params, 2),
                    point_at(c.params, 4),
                ),
            )
        } else {
            None
        },
        _ => None,
    }
}

/// The sections of a whole command list in order, or the first command
/// that has none.
pub open spec fn sections_of(cmds: Seq<CommandView>) -> Result<Seq<PathSection>, CommandView>
    decreases cmds.len(),
{
    if cmds.len() == 0 {
        Ok(Seq::empty())
    } else {
        match sections_of(cmds.drop_last()) {
            Err(c) => Err(c),
            Ok(s) => match section_of(cmds.last()) {
                Some(x) => Ok(s.push(x)),
                None => Err(cmds.last()),
            },
        }
    }
}

pub open spec fn views(cmds: Seq<SvgCommand>) -> Seq<CommandView> {
    cmds.map_values(|c: SvgCommand| c@)
}

/// The attributes every statement is drawn with: `fill`, `even odd rule`
/// and `line width=1`, in that order.
pub open spec fn is_fixed_attributes(attrs: Seq<Attribute>) -> bool {
    &&& attrs.len() == 3
    &&& attrs[0] matches Attribute::Setting(s) && s@ == "fill"@
    &&& attrs[1] matches Attribute::Setting(s) && s@ == "even odd rule"@
    &&& attrs[2] matches Attribute::Param(k, v) && k@ == "line width"@ && v@ == "1"@
}

fn copy_command(cmd: &SvgCommand) -> (r: SvgCommand)
    ensures
        r@ == cmd@,
{
    let mut params: Vec<Coord> = Vec::new();
    let mut i: usize = 0;
    while i < cmd.params.len()
        invariant
            0 <= i <= cmd.params@.len(),
            params@ == cmd.params@.subrange(0, i as int),
        decreases cmd.params@.len() - i,
    {
        params.push(cmd.params[i]);
        i = i + 1;
        assert(params@ =~= cmd.params@.subrange(0, i as int));
    }
    assert(params@ =~= cmd.params@);
    SvgCommand { kind: cmd.kind, absolute: cmd.absolute, params }
}

impl PathSection {
    /// The section for one command; an unsupported command is handed back
    /// in the error.
    pub fn from_svg(cmd: &SvgCommand) -> (r: Result<PathSection, TranslateError>)
        ensures
            match section_of(cmd@) {
                Some(s) => r == Ok::<PathSection, TranslateError>(s),
                None => r matches Err(TranslateError::UnsupportedCommand(c)) && c@ == cmd@,
            },
    {
        let p = &cmd.params;
        match cmd.kind {
            CommandKind::Close => {
                return Ok(PathSection::Cycle);
            },
            CommandKind::Move => {
                if cmd.absolute && p.len() >= 2 {
                    return Ok(PathSection::Move(Point(p[0], p[1])));
                }
            },
            CommandKind::Line => {
                if cmd.absolute && p.len() >= 2 {
                    return Ok(PathSection::Line(Point(p[0], p[1])));
                }
            },
            CommandKind::CubicCurve => {
                if cmd.absolute && p.len() >= 6 {
                    return Ok(
                        PathSection::Curve(Point(p[0], p[1]), Point(p[2], p[3]), Point(p[4], p[5])),
                    );
                }
            },
            _ => {},
        }
        Err(TranslateError::UnsupportedCommand(copy_command(cmd)))
    }
}

/// The statement for a path's commands: the fixed attributes and one
/// section per command, in order. The first unsupported command fails the
/// whole translation, and no statement is returned.
pub fn draw_from_commands(commands: &Vec<SvgCommand>) -> (r: Result<TikzDraw, TranslateError>)
    ensures
        match sections_of(views(commands@)) {
            Ok(s) => r matches Ok(d) && is_fixed_attributes(d.attributes()) && d.path_sections() == s,
            Err(c) => r matches Err(TranslateError::UnsupportedCommand(e)) && e@ == c,
        },
{
    let mut sections: Vec<PathSection> = Vec::new();
    let mut i: usize = 0;
    while i < commands.len()
        invariant
            0 <= i <= commands@.len(),
            sections_of(views(commands@.subrange(0, i as int))) == Ok::<
                Seq<PathSection>,
                CommandView,
            >(sections@),
        decreases commands@.len() - i,
    {
        let ghost prefix = views(commands@.subrange(0, i + 1));
        proof {
            assert(prefix.drop_last() =~= views(commands@.subrange(0, i as int)));
            assert(prefix.last() == commands@[i as int]@);
        }
        match PathSection::from_svg(&commands[i]) {
            Ok(s) => {
                sections.push(s);
            },
            Err(e) => {
                proof {
                    assert(views(commands@).subrange(0, i + 1) =~= prefix);
                    assert(sections_of(prefix) == Err::<Seq<PathSection>, CommandView>(
                        commands@[i as int]@,
                    ));
                    lemma_sections_of_extend(views(commands@), i + 1);
                }
                return Err(e);
            },
        }
        i = i + 1;
    }
    assert(commands@.subrange(0, commands@.len() as int) =~= commands@);
    let mut attributes: Vec<Attribute> = Vec::new();
    attributes.push(Attribute::setting("fill"));
    attributes.push(Attribute::setting("even odd rule"));
    attributes.push(Attribute::param("line width", "1"));
    Ok(TikzDraw::new(attributes, sections))
}

/// Once a prefix of the commands fails, the whole list fails with the same
/// command.
proof fn lemma_sections_of_extend(cmds: Seq<CommandView>, n: int)
    requires
        0 <= n <= cmds.len(),
        sections_of(cmds.subrange(0, n)) is Err,
    ensures
        sections_of(cmds) == sections_of(cmds.subrange(0, n)),
    decreases cmds.len() - n,
{
    if n < cmds.len() {
        assert(cmds.subrange(0, n + 1).drop_last() =~= cmds.subrange(0, n));
        lemma_sections_of_extend(cmds, n + 1);
    } else {
        assert(cmds.subrange(0, n) =~= cmds);
    }
}

} // verus!
