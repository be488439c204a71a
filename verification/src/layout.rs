//! Where on the terminal each part of the dashboard goes.

use vstd::prelude::*;
use tui::layout::{Constraint as Size, Direction as Flow, Layout, Rect as Area};

verus! {

/// A rectangle of terminal cells.
#[derive(Copy, Clone, Debug, PartialEq, Eq, Structural)]
pub struct Rect {
    pub x: u16,
    pub y: u16,
    pub width: u16,
    pub height: u16,
}

/// The size asked for one part of a split area.
#[derive(Copy, Clone, Debug, PartialEq, Eq, Structural)]
pub enum Constraint {
    Percentage(u16),
    Length(u16),
    Min(u16),
}

/// Whether the parts of a split area stand side by side or one above the
/// other.
#[derive(Copy, Clone, Debug, PartialEq, Eq, Structural)]
pub enum Direction {
    Horizontal,
    Vertical,
}

/// The three areas of the dashboard.
#[derive(Copy, Clone, Debug, PartialEq, Eq, Structural)]
pub struct AppRects {
    pub menu: Rect,
    pub main_widget: Rect,
    pub copyright: Rect,
}

/// The two areas of the pets screen.
#[derive(Copy, Clone, Debug, PartialEq, Eq, Structural)]
pub struct PetRects {
    pub names: Rect,
    pub details: Rect,
}

/// The widest area that can be split by percentages of up to eighty.
pub const MAX_SPLIT_WIDTH: u16 = 819;

/// The margin kept free round the dashboard.
pub const APP_MARGIN: u16 = 2;

/// The side of an area along which it is split.
pub open spec fn extent(direction: Direction, area: Rect) -> u16 {
    match direction {
        Direction::Horizontal => area.width,
        Direction::Vertical => area.height,
    }
}

/// Whether an area lies wholly among the cells that sixteen bits can
/// address.
pub open spec fn on_screen(area: Rect) -> bool {
    area.x + area.width <= u16::MAX && area.y + area.height <= u16::MAX
}

/// Whether the pets screen can be cut out of an area: the area is on the
/// screen and no wider than percentages can be taken of.
pub open spec fn can_hold_pets(area: Rect) -> bool {
    on_screen(area) && area.width <= MAX_SPLIT_WIDTH
}

/// The splits that the toolkit can carry out: twice the margin and each
/// percentage times the side that is split stay within sixteen bits, and the
/// area is on the screen, so that its parts can be asked to lie inside it.
pub open spec fn can_split(direction: Direction, margin: u16, constraints: Seq<Constraint>, area: Rect) -> bool {
    &&& 2 * margin <= u16::MAX
    &&& on_screen(area)
    &&& forall|i: int|
        0 <= i < constraints.len() ==> match #[trigger] constraints[i] {
            Constraint::Percentage(share) => share * extent(direction, area) <= u16::MAX,
            _ => true,
        }
}

/// The area that is left inside a margin on all four sides of `area`; an
/// area too small for the margin leaves the empty area at the origin.
pub open spec fn inner(area: Rect, margin: u16) -> Rect {
    if area.width < 2 * margin || area.height < 2 * margin {
        Rect { x: 0, y: 0, width: 0, height: 0 }
    } else {
        Rect {
            x: (area.x + margin) as u16,
            y: (area.y + margin) as u16,
            width: (area.width - 2 * margin) as u16,
            height: (area.height - 2 * margin) as u16,
        }
    }
}

/// Where an area starts along the direction of a split: its left or its
/// upper edge.
pub open spec fn near_edge(direction: Direction, area: Rect) -> int {
    match direction {
        Direction::Horizontal => area.x as int,
        Direction::Vertical => area.y as int,
    }
}

/// Where an area ends along the direction of a split: its right or its lower
/// edge.
pub open spec fn far_edge(direction: Direction, area: Rect) -> int {
    near_edge(direction, area) + extent(direction, area)
}

/// Whether `last` ends exactly where `area` ends inside its margin.
pub open spec fn fills_to_the_end(direction: Direction, margin: u16, area: Rect, last: Rect) -> bool {
    near_edge(direction, last) + extent(direction, last) == far_edge(direction, inner(area, margin))
}

/// `tui::layout::Layout`, built with `direction`, `margin` and `constraints`
/// and applied with `split`: there is one area for each constraint, and the
/// last of them ends where the area inside the margin ends, because `split`
/// itself stretches it to there once its solver has run. Where the areas lie
/// otherwise is for the solver to say, and nothing is claimed of it. The call
/// multiplies and adds in sixteen bits, and it panics where its solver is
/// asked for parts inside an area that runs off the screen; `can_split`
/// leaves those inputs out.
#[verifier::external_body]
fn split(direction: Direction, margin: u16, constraints: &Vec<Constraint>, area: Rect) -> (areas: Vec<Rect>)
    requires
        can_split(direction, margin, constraints@, area),
    ensures
        areas@.len() == constraints@.len(),
        areas@.len() > 0 ==> fills_to_the_end(direction, margin, area, areas@.last()),
{
    let sizes: Vec<Size> = constraints.iter().map(|c| match *c {
        Constraint::Percentage(v) => Size::Percentage(v),
        Constraint::Length(v) => Size::Length(v),
        Constraint::Min(v) => Size::Min(v),
    }).collect();
    let flow = match direction {
        Direction::Horizontal => Flow::Horizontal,
        Direction::Vertical => Flow::Vertical,
    };
    let area = Area { x: area.x, y: area.y, width: area.width, height: area.height };
    let areas = Layout::default().direction(flow).margin(margin).constraints(sizes).split(area);
    areas.iter().map(|r| Rect { x: r.x, y: r.y, width: r.width, height: r.height }).collect()
}

/// What the dashboard asks for its three areas: three rows for the menu, at
/// least two for the main part, three for the footer.
pub open spec fn app_constraints() -> Seq<Constraint> {
    seq![Constraint::Length(3), Constraint::Min(2), Constraint::Length(3)]
}

/// What the pets screen asks for its two areas: a fifth of the width for the
/// names, the rest for the details.
pub open spec fn pet_constraints() -> Seq<Constraint> {
    seq![Constraint::Percentage(20), Constraint::Percentage(80)]
}

/// Tells whether an area lies wholly on the screen.
pub fn is_on_screen(area: &Rect) -> (fits: bool)
    ensures
        fits == on_screen(*area),
{
    area.x <= u16::MAX - area.width && area.y <= u16::MAX - area.height
}

/// Tells whether the pets screen can be cut out of an area.
pub fn holds_pets(area: &Rect) -> (fits: bool)
    ensures
        fits == can_hold_pets(*area),
{
    is_on_screen(area) && area.width <= MAX_SPLIT_WIDTH
}

/// Names the three areas of the dashboard, top to bottom. Anything but
/// three areas is no dashboard.
pub fn app_rects_from(areas: &Vec<Rect>) -> (rects: Option<AppRects>)
    ensures
        rects == if areas@.len() == 3 {
            Some(AppRects { menu: areas@[0], main_widget: areas@[1], copyright: areas@[2] })
        } else {
            None
        },
{
    if areas.len() == 3 {
        Some(AppRects { menu: areas[0], main_widget: areas[1], copyright: areas[2] })
    } else {
        None
    }
}

/// Names the two areas of the pets screen, left to right. Anything but two
/// areas is no pets screen.
pub fn pet_rects_from(areas: &Vec<Rect>) -> (rects: Option<PetRects>)
    ensures
        rects == if areas@.len() == 2 {
            Some(PetRects { names: areas@[0], details: areas@[1] })
        } else {
            None
        },
{
    if areas.len() == 2 {
        Some(PetRects { names: areas[0], details: areas[1] })
    } else {
        None
    }
}

/// The constraints of the dashboard's three areas.
pub fn app_sizes() -> (constraints: Vec<Constraint>)
    ensures
        constraints@ == app_constraints(),
{
    let mut constraints: Vec<Constraint> = Vec::new();
    constraints.push(Constraint::Length(3));
    constraints.push(Constraint::Min(2));
    constraints.push(Constraint::Length(3));
    assert(constraints@ =~= app_constraints());
    constraints
}

/// The constraints of the pets screen's two areas.
pub fn pet_sizes() -> (constraints: Vec<Constraint>)
    ensures
        constraints@ == pet_constraints(),
{
    let mut constraints: Vec<Constraint> = Vec::new();
    constraints.push(Constraint::Percentage(20));
    constraints.push(Constraint::Percentage(80));
    assert(constraints@ =~= pet_constraints());
    constraints
}

/// Cuts the terminal into menu bar, main part and footer, one above the
/// other, inside a margin of two cells. The toolkit's solver places the
/// areas; the footer ends at the lower edge of what the margin leaves.
pub fn create_app_rects(total_drawing_rect: Rect) -> (rects: AppRects)
    requires
        on_screen(total_drawing_rect),
    ensures
        fills_to_the_end(Direction::Vertical, APP_MARGIN, total_drawing_rect, rects.copyright),
{
    let areas = split(Direction::Vertical, APP_MARGIN, &app_sizes(), total_drawing_rect);
    app_rects_from(&areas).unwrap()
}

/// Cuts the main part into the list of names on the left, a fifth of the
/// width, and the details on the right. The toolkit's solver places the
/// areas; the details end at the right edge of the main part.
pub fn create_pet_rects(parent_rect: &Rect) -> (rects: PetRects)
    requires
        can_hold_pets(*parent_rect),
    ensures
        fills_to_the_end(Direction::Horizontal, 0, *parent_rect, rects.details),
        rects.details.x + rects.details.width == parent_rect.x + parent_rect.width,
{
    let constraints = pet_sizes();
    assert(80 * parent_rect.width <= u16::MAX) by (nonlinear_arith)
        requires
            parent_rect.width <= 819,
    ;
    assert(20 * parent_rect.width <= u16::MAX) by (nonlinear_arith)
        requires
            parent_rect.width <= 819,
    ;
    let areas = split(Direction::Horizontal, 0, &constraints, *parent_rect);
    pet_rects_from(&areas).unwrap()
}

} // verus!
