//! Areas of the terminal and how they are divided.
use vstd::prelude::*;
use ratatui::layout;

verus! {

/// A rectangle of terminal cells; `x` and `y` are those of its upper left cell.
#[derive(Clone, Copy, Debug, PartialEq, Eq, Structural)]
pub struct Rect {
    pub x: u16,
    pub y: u16,
    pub width: u16,
    pub height: u16,
}

/// The direction in which an area is divided.
#[derive(Clone, Copy, Debug, PartialEq, Eq, Structural)]
pub enum Direction {
    Horizontal,
    Vertical,
}

/// The size that one part of a division asks for.
#[derive(Clone, Copy, Debug, PartialEq, Eq, Structural)]
pub enum Constraint {
    /// Exactly so many cells.
    Length(u16),
    /// At least so many cells, and all that nothing else asks for.
    Min(u16),
    /// A share of the whole, in hundredths.
    Percentage(u16),
}

impl Rect {
    /// The first coordinate of the rectangle in a direction.
    pub open spec fn start(self, direction: Direction) -> int {
        match direction {
            Direction::Horizontal => self.x as int,
            Direction::Vertical => self.y as int,
        }
    }

    /// The size of the rectangle in a direction.
    pub open spec fn size(self, direction: Direction) -> int {
        match direction {
            Direction::Horizontal => self.width as int,
            Direction::Vertical => self.height as int,
        }
    }

    /// The cells that can be divided in a direction: coordinates end at the
    /// largest `u16`.
    pub open spec fn extent(self, direction: Direction) -> int {
        if self.start(direction) + self.size(direction) <= u16::MAX {
            self.size(direction)
        } else {
            u16::MAX - self.start(direction)
        }
    }

    /// The rectangle ends before the coordinates do.
    pub open spec fn fits(self) -> bool {
        &&& self.x + self.width <= u16::MAX
        &&& self.y + self.height <= u16::MAX
    }

    /// Every cell of the rectangle lies in `other`.
    pub open spec fn inside(self, other: Rect) -> bool {
        &&& other.x <= self.x
        &&& self.x + self.width <= other.x + other.width
        &&& other.y <= self.y
        &&& self.y + self.height <= other.y + other.height
    }
}

/// The cells that all the `Length` parts ask for.
pub open spec fn length_total(constraints: Seq<Constraint>) -> int
    decreases constraints.len(),
{
    if constraints.len() == 0 {
        0
    } else {
        length_total(constraints.drop_last()) + match constraints.last() {
            Constraint::Length(n) => n as int,
            _ => 0,
        }
    }
}

/// `at` is the only part that is not a `Length`, and it is a `Min`.
pub open spec fn single_min(constraints: Seq<Constraint>, at: int) -> bool {
    &&& 0 <= at < constraints.len()
    &&& constraints[at] is Min
    &&& forall|i: int|
        0 <= i < constraints.len() && i != at ==> #[trigger] constraints[i] is Length
}

/// At most one `Length` part asks for any cell.
pub open spec fn single_length(constraints: Seq<Constraint>) -> bool {
    forall|i: int, j: int|
        0 <= i < j < constraints.len() && #[trigger] constraints[i] is Length
            && #[trigger] constraints[j] is Length ==> constraints[i] == Constraint::Length(0)
            || constraints[j] == Constraint::Length(0)
}

/// The cells that the only `Min` part gets of `extent`: what it asks for, as far
/// as there is so much, and all that the `Length` parts do not ask for.
pub open spec fn min_share(constraints: Seq<Constraint>, at: int, extent: int) -> int {
    let asked = constraints[at]->Min_0 as int;
    let least = if asked <= extent {
        asked
    } else {
        extent
    };
    let left = extent - length_total(constraints);
    if left > least {
        left
    } else {
        least
    }
}

/// The cells that a part gets of `extent` beside the only `Min` part, `at`: a
/// `Length` part gets what it asks for, as far as the `Min` part leaves so much.
pub open spec fn share(constraints: Seq<Constraint>, at: int, extent: int, part: int) -> int {
    let min = min_share(constraints, at, extent);
    if part == at {
        min
    } else {
        let asked = constraints[part]->Length_0 as int;
        if asked <= extent - min {
            asked
        } else {
            extent - min
        }
    }
}

/// The parts lie side by side from the start of `area`.
pub open spec fn side_by_side(area: Rect, direction: Direction, parts: Seq<Rect>) -> bool {
    &&& parts.len() > 0 ==> parts[0].start(direction) == area.start(direction)
    &&& forall|i: int, j: int|
        0 <= i && j == i + 1 && j < parts.len() ==> (#[trigger] parts[j]).start(direction) == (
        #[trigger] parts[i]).start(direction) + parts[i].size(direction)
}

/// Divides an area with `ratatui::layout::Layout::split`, without margin or
/// spacing. There is one part for each constraint; the parts follow each other
/// inside the area and span it in the other direction. Where all constraints but
/// one, a `Min`, are a `Length`, and either all fit or at most one `Length` is
/// not zero, the parts lie side by side with the sizes that `share` gives. Of
/// other constraints the sizes are left open.
#[verifier::external_body]
pub(crate) fn split(area: Rect, direction: Direction, constraints: &Vec<Constraint>) -> (parts: Vec<
    Rect,
>)
    ensures
        parts@.len() == constraints@.len(),
        forall|i: int|
            0 <= i < parts@.len() ==> match direction {
                Direction::Horizontal => (#[trigger] parts@[i]).y == area.y && parts@[i].height
                    == area.height,
                Direction::Vertical => parts@[i].x == area.x && parts@[i].width == area.width,
            },
        forall|i: int|
            0 <= i < parts@.len() ==> area.start(direction) <= (#[trigger] parts@[i]).start(
                direction,
            ) && parts@[i].start(direction) + parts@[i].size(direction) <= area.start(direction)
                + area.extent(direction),
        forall|i: int, j: int|
            0 <= i < j < parts@.len() ==> (#[trigger] parts@[i]).start(direction) + parts@[i].size(
                direction,
            ) <= (#[trigger] parts@[j]).start(direction),
        forall|at: int|
            #[trigger] single_min(constraints@, at) && (length_total(constraints@)
                + constraints@[at]->Min_0 <= area.extent(direction) || single_length(constraints@))
                ==> side_by_side(area, direction, parts@) && (forall|i: int|
                0 <= i < parts@.len() ==> (#[trigger] parts@[i]).size(direction) == share(
                    constraints@,
                    at,
                    area.extent(direction),
                    i,
                )),
{
    let direction = match direction {
        Direction::Horizontal => layout::Direction::Horizontal,
        Direction::Vertical => layout::Direction::Vertical,
    };
    let constraints = constraints.iter().map(|constraint| match *constraint {
        Constraint::Length(n) => layout::Constraint::Length(n),
        Constraint::Min(n) => layout::Constraint::Min(n),
        Constraint::Percentage(n) => layout::Constraint::Percentage(n),
    });
    let Rect { x, y, width, height } = area;
    let area = layout::Rect { x, y, width, height };
    let parts = layout::Layout::new(direction, constraints).split(area);
    parts.iter().map(|r| Rect { x: r.x, y: r.y, width: r.width, height: r.height }).collect()
}

/// Half of what is left of `whole` beside `part`.
pub open spec fn gap(whole: u16, part: u16) -> u16 {
    if part <= whole {
        ((whole - part) / 2) as u16
    } else {
        0
    }
}

/// The smaller of two sizes.
pub open spec fn smaller(a: u16, b: u16) -> u16 {
    if a <= b {
        a
    } else {
        b
    }
}

/// A rectangle of the given size in the middle of `area`, cut to `area` where it
/// is larger.
pub open spec fn centered(area: Rect, width: u16, height: u16) -> Rect {
    Rect {
        x: (area.x + gap(area.width, width)) as u16,
        y: (area.y + gap(area.height, height)) as u16,
        width: smaller(width, area.width),
        height: smaller(height, area.height),
    }
}

/// The middle one of three parts: half of what is left, `size`, and the rest.
fn middle(area: Rect, direction: Direction, whole: u16, size: u16) -> (part: Rect)
    requires
        whole == area.size(direction),
    ensures
        match direction {
            Direction::Horizontal => part.y == area.y && part.height == area.height,
            Direction::Vertical => part.x == area.x && part.width == area.width,
        },
        area.start(direction) <= part.start(direction),
        part.start(direction) + part.size(direction) <= area.start(direction) + area.extent(
            direction,
        ),
        area.start(direction) + whole <= u16::MAX ==> part.start(direction) == area.start(direction)
            + gap(whole, size) && part.size(direction) == smaller(size, whole),
{
    let mut constraints: Vec<Constraint> = Vec::new();
    constraints.push(Constraint::Length(whole.saturating_sub(size) / 2));
    constraints.push(Constraint::Length(size));
    constraints.push(Constraint::Min(0));
    let parts = split(area, direction, &constraints);
    proof {
        let given = seq![
            Constraint::Length(gap(whole, size)),
            Constraint::Length(size),
            Constraint::Min(0),
        ];
        assert(constraints@ =~= given);
        assert(given.drop_last().drop_last().drop_last() =~= Seq::<Constraint>::empty());
        reveal_with_fuel(length_total, 4);
        assert(length_total(given) == gap(whole, size) + size);
        assert(single_min(given, 2));
        assert(parts@[0].start(direction) == parts@[0].start(direction));
        assert(parts@[1].start(direction) == parts@[1].start(direction));
    }
    parts[1]
}

/// The area of a popup of the given size in the middle of `area`.
pub fn popup_absolute_area(area: Rect, width: u16, height: u16) -> (popup: Rect)
    ensures
        area.fits() ==> popup == centered(area, width, height),
        popup.inside(area),
{
    let row = middle(area, Direction::Vertical, area.height, height);
    middle(row, Direction::Horizontal, row.width, width)
}

} // verus!
