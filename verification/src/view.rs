//! What each part of the dashboard shows: the widgets as plain values, ready
//! to be painted.

use vstd::prelude::*;
use vstd::string::{StrSliceExecFns, StringExecFns};
use crate::layout::{
    create_app_rects,
    create_pet_rects,
    AppRects,
    PetRects,
    Rect,
    can_hold_pets,
    holds_pets,
    on_screen,
};
use crate::pet::{utc_text_of, Pet, PetView};
use crate::state::{ListState, MenuItem};
use crate::text::{decimal, decimal_digits};

verus! {

/// The colours the dashboard uses; `Unset` leaves the terminal's own.
#[derive(Copy, Clone, Debug, PartialEq, Eq, Structural)]
pub enum Color {
    Unset,
    Black,
    White,
    Yellow,
    LightBlue,
    LightCyan,
}

/// How a piece of text is painted.
#[derive(Copy, Clone, Debug, PartialEq, Eq, Structural)]
pub struct Style {
    pub fg: Color,
    pub bg: Color,
    pub bold: bool,
    pub underlined: bool,
}

impl Style {
    /// The terminal's own colours, neither bold nor underlined.
    pub open spec fn plain() -> Style {
        Style { fg: Color::Unset, bg: Color::Unset, bold: false, underlined: false }
    }

    /// Plain text in the given colour.
    pub open spec fn colored(fg: Color) -> Style {
        Style { fg, ..Style::plain() }
    }

    /// Bold text in the terminal's own colours.
    pub open spec fn strong() -> Style {
        Style { bold: true, ..Style::plain() }
    }

    /// How a menu entry's shortcut is set off: yellow and underlined.
    pub open spec fn shortcut() -> Style {
        Style { fg: Color::Yellow, underlined: true, ..Style::plain() }
    }

    /// How the selected pet is set off: bold black on yellow.
    pub open spec fn selection() -> Style {
        Style { fg: Color::Black, bg: Color::Yellow, bold: true, underlined: false }
    }
}

/// A piece of text with its style.
#[derive(Clone, Debug, PartialEq, Eq)]
pub struct Span {
    pub content: String,
    pub style: Style,
}

impl Span {
    /// Whether the span reads `content` in `style`.
    pub open spec fn shows(self, content: Seq<char>, style: Style) -> bool {
        self.content@ == content && self.style == style
    }
}

/// A frame with plain borders on all four sides and a title.
#[derive(Clone, Debug, PartialEq, Eq)]
pub struct Block {
    pub title: String,
    pub style: Style,
}

impl Block {
    /// Whether the frame is titled `title` and painted in `style`.
    pub open spec fn shows(self, title: Seq<char>, style: Style) -> bool {
        self.title@ == title && self.style == style
    }
}

/// Centred lines of text in a frame.
#[derive(Clone, Debug, PartialEq, Eq)]
pub struct Paragraph {
    pub lines: Vec<Span>,
    pub style: Style,
    pub block: Block,
}

/// A menu entry: its first character, the shortcut, and what follows it.
#[derive(Clone, Debug, PartialEq, Eq)]
pub struct MenuLabel {
    pub first: Span,
    pub rest: Span,
}

/// The menu bar.
#[derive(Clone, Debug, PartialEq, Eq)]
pub struct Tabs {
    pub titles: Vec<MenuLabel>,
    pub selected: usize,
    pub block: Block,
    pub style: Style,
    pub highlight_style: Style,
    pub divider: String,
}

/// The list of names on the pets screen.
#[derive(Clone, Debug, PartialEq, Eq)]
pub struct List {
    pub items: Vec<String>,
    pub block: Block,
    pub highlight_style: Style,
}

/// The table of details on the pets screen.
#[derive(Clone, Debug, PartialEq, Eq)]
pub struct Table {
    pub header: Vec<Span>,
    pub rows: Vec<Vec<String>>,
    pub block: Block,
    pub widths: Vec<u16>,
}

/// What fills the main part of the dashboard.
#[derive(Clone, Debug, PartialEq, Eq)]
pub enum MainWidget {
    Home { home: Paragraph, area: Rect },
    Pets { list: List, names: Rect, selected: Option<usize>, table: Table, details: Rect },
}

/// One frame of the dashboard.
#[derive(Clone, Debug, PartialEq, Eq)]
pub struct Frame {
    pub tabs: Tabs,
    pub menu: Rect,
    pub main_widget: MainWidget,
    pub copyright: Paragraph,
    pub copyright_area: Rect,
}

/// What each of a list of strings says.
pub open spec fn texts(strings: Seq<String>) -> Seq<Seq<char>> {
    Seq::new(strings.len(), |i: int| strings[i]@)
}

fn colored(fg: Color) -> (style: Style)
    ensures
        style == Style::colored(fg),
{
    Style { fg, bg: Color::Unset, bold: false, underlined: false }
}

fn span(content: &str, style: Style) -> (span: Span)
    ensures
        span.shows(content@, style),
{
    Span { content: String::from_str(content), style }
}

fn block(title: &str) -> (block: Block)
    ensures
        block.shows(title@, Style::colored(Color::White)),
{
    Block { title: String::from_str(title), style: colored(Color::White) }
}

/// The shortcut of a menu entry: its first character, if it has one.
pub open spec fn label_first(title: Seq<char>) -> Seq<char> {
    if title.len() > 0 {
        title.subrange(0, 1)
    } else {
        title
    }
}

/// A menu entry without its first character.
pub open spec fn label_rest(title: Seq<char>) -> Seq<char> {
    if title.len() > 0 {
        title.subrange(1, title.len() as int)
    } else {
        title
    }
}

/// Splits each menu entry into its shortcut, yellow and underlined, and the
/// rest of it in white.
pub fn create_menu(menu_titles: &Vec<&str>) -> (menu: Vec<MenuLabel>)
    ensures
        menu@.len() == menu_titles@.len(),
        forall|i: int|
            0 <= i < menu@.len() ==> {
                &&& (#[trigger] menu@[i]).first.shows(label_first(menu_titles@[i]@), Style::shortcut())
                &&& menu@[i].rest.shows(label_rest(menu_titles@[i]@), Style::colored(Color::White))
            },
{
    let mut menu: Vec<MenuLabel> = Vec::new();
    let mut i: usize = 0;
    while i < menu_titles.len()
        invariant
            i <= menu_titles@.len(),
            menu@.len() == i,
            forall|k: int|
                0 <= k < i ==> {
                    &&& (#[trigger] menu@[k]).first.shows(
                        label_first(menu_titles@[k]@),
                        Style::shortcut(),
                    )
                    &&& menu@[k].rest.shows(label_rest(menu_titles@[k]@), Style::colored(Color::White))
                },
        decreases menu_titles@.len() - i,
    {
        let title: &str = menu_titles[i];
        let len: usize = title.unicode_len();
        let cut: usize = if len > 0 {
            1
        } else {
            0
        };
        let first = title.substring_char(0, cut);
        let rest = title.substring_char(cut, len);
        assert(first@ =~= label_first(title@));
        assert(rest@ =~= label_rest(title@));
        menu.push(
            MenuLabel {
                first: span(
                    first,
                    Style { fg: Color::Yellow, bg: Color::Unset, bold: false, underlined: true },
                ),
                rest: span(rest, colored(Color::White)),
            },
        );
        i += 1;
    }
    menu
}

/// The menu bar over the given entries, with the active screen's entry
/// picked out in yellow.
pub fn create_tabs(menu: Vec<MenuLabel>, active_menu_item: MenuItem) -> (tabs: Tabs)
    ensures
        tabs.titles == menu,
        tabs.selected == active_menu_item.tab(),
        tabs.block.shows("Menu"@, Style::colored(Color::White)),
        tabs.style == Style::colored(Color::White),
        tabs.highlight_style == Style::colored(Color::Yellow),
        tabs.divider@ == "|"@,
{
    Tabs {
        titles: menu,
        selected: usize::from(active_menu_item),
        block: block("Menu"),
        style: colored(Color::White),
        highlight_style: colored(Color::Yellow),
        divider: String::from_str("|"),
    }
}

/// The footer.
pub fn create_copyright_paragraph() -> (copyright: Paragraph)
    ensures
        is_footer(copyright),
{
    let mut lines: Vec<Span> = Vec::new();
    lines.push(span("pet-CLI 2020 - all rights reserved", colored(Color::Unset)));
    Paragraph { lines, style: colored(Color::LightCyan), block: block("Copyright") }
}

/// The lines of the home screen.
pub open spec fn home_text(line: int) -> Seq<char> {
    if line == 1 {
        "Welcome"@
    } else if line == 3 {
        "to"@
    } else if line == 5 {
        "pet-CLI"@
    } else if line == 7 {
        "Press 'p' to access pets, 'a' to add random new pets and 'd' to delete the currently selected pet."@
    } else {
        ""@
    }
}

/// The style of each line of the home screen: the program's name in light
/// blue, the rest plain.
pub open spec fn home_style(line: int) -> Style {
    if line == 5 {
        Style::colored(Color::LightBlue)
    } else {
        Style::plain()
    }
}

/// The home screen: a welcome and the keys to press.
pub fn render_home() -> (home: Paragraph)
    ensures
        is_welcome(home),
{
    let mut lines: Vec<Span> = Vec::new();
    lines.push(span("", colored(Color::Unset)));
    lines.push(span("Welcome", colored(Color::Unset)));
    lines.push(span("", colored(Color::Unset)));
    lines.push(span("to", colored(Color::Unset)));
    lines.push(span("", colored(Color::Unset)));
    lines.push(span("pet-CLI", colored(Color::LightBlue)));
    lines.push(span("", colored(Color::Unset)));
    lines.push(
        span(
            "Press 'p' to access pets, 'a' to add random new pets and 'd' to delete the currently selected pet.",
            colored(Color::Unset),
        ),
    );
    Paragraph { lines, style: colored(Color::Unset), block: block("Home") }
}

/// The titles of the detail table's columns.
pub open spec fn detail_title(column: int) -> Seq<char> {
    if column == 0 {
        "ID"@
    } else if column == 1 {
        "Name"@
    } else if column == 2 {
        "Category"@
    } else if column == 3 {
        "Age"@
    } else {
        "Created At"@
    }
}

/// The share of the table's width that each column gets, in percent.
pub open spec fn detail_widths() -> Seq<u16> {
    seq![5u16, 20u16, 20u16, 5u16, 20u16]
}

/// The cells that show one pet: identifier, name, category, age and the
/// moment it was added. A moment that cannot be written leaves its cell
/// empty.
pub open spec fn detail_cells(pet: PetView, created_at: Option<Seq<char>>) -> Seq<Seq<char>> {
    seq![
        decimal_digits(pet.id),
        pet.name,
        pet.category,
        decimal_digits(pet.age),
        match created_at {
            Some(text) => text,
            None => Seq::empty(),
        },
    ]
}

/// The position of the pet whose details are shown: the selected one, if the
/// selection points at a pet.
pub open spec fn shown_pet(selected: Option<usize>, len: nat) -> Option<int> {
    match selected {
        Some(i) if i < len => Some(i as int),
        _ => None,
    }
}

/// The row of the detail table for one pet, given the text of the moment it
/// was added.
pub fn detail_row(pet: &Pet, created_at: Option<String>) -> (row: Vec<String>)
    ensures
        texts(row@) == detail_cells(
            pet@,
            match created_at {
                Some(text) => Some(text@),
                None => None,
            },
        ),
{
    let mut row: Vec<String> = Vec::new();
    row.push(decimal(pet.id));
    row.push(pet.name.clone());
    row.push(pet.category.clone());
    row.push(decimal(pet.age));
    row.push(
        match created_at {
            Some(text) => text,
            None => String::new(),
        },
    );
    assert(texts(row@) =~= detail_cells(
        pet@,
        match created_at {
            Some(text) => Some(text@),
            None => None,
        },
    ));
    row
}

/// The two widgets of the pets screen: the names of all pets, and a table
/// with the details of the selected one. With no pet under the selection the
/// table has its header and no row.
pub fn create_pet_widgets(pet_list: &Vec<Pet>, pet_list_state: &ListState) -> (widgets: (List, Table))
    ensures
        is_name_list(widgets.0, pet_list@),
        is_detail_table(widgets.1, pet_list@, pet_list_state.selected),
{
    let pets = block("Pets");
    let mut items: Vec<String> = Vec::new();
    let mut i: usize = 0;
    while i < pet_list.len()
        invariant
            i <= pet_list@.len(),
            items@.len() == i,
            forall|k: int| 0 <= k < i ==> (#[trigger] items@[k])@ == pet_list@[k].name@,
        decreases pet_list@.len() - i,
    {
        items.push(pet_list[i].name.clone());
        i += 1;
    }
    let mut rows: Vec<Vec<String>> = Vec::new();
    if let Some(selected) = pet_list_state.selected() {
        if selected < pet_list.len() {
            let selected_pet = &pet_list[selected];
            rows.push(detail_row(selected_pet, selected_pet.created_at.text()));
        }
    }
    let list = List {
        items,
        block: pets,
        highlight_style: Style { fg: Color::Black, bg: Color::Yellow, bold: true, underlined: false },
    };
    let strong = Style { fg: Color::Unset, bg: Color::Unset, bold: true, underlined: false };
    let mut header: Vec<Span> = Vec::new();
    header.push(span("ID", strong));
    header.push(span("Name", strong));
    header.push(span("Category", strong));
    header.push(span("Age", strong));
    header.push(span("Created At", strong));
    let mut widths: Vec<u16> = Vec::new();
    widths.push(5);
    widths.push(20);
    widths.push(20);
    widths.push(5);
    widths.push(20);
    assert(widths@ =~= detail_widths());
    (list, Table { header, rows, block: block("Detail"), widths })
}

/// Whether the main part can be filled for the active screen: the home
/// screen always, the pets screen where its area can be split.
pub open spec fn can_fill(active_menu_item: MenuItem, main_widget: Rect) -> bool {
    active_menu_item == MenuItem::Pets ==> can_hold_pets(main_widget)
}

/// Whether `home` is the home screen's paragraph.
pub open spec fn is_welcome(home: Paragraph) -> bool {
    &&& home.lines@.len() == 8
    &&& forall|line: int|
        0 <= line < 8 ==> (#[trigger] home.lines@[line]).shows(home_text(line), home_style(line))
    &&& home.style == Style::plain()
    &&& home.block.shows("Home"@, Style::colored(Color::White))
}

/// Whether `widget` is the home screen in `area`.
pub open spec fn is_home_screen(widget: MainWidget, area: Rect) -> bool {
    &&& widget matches MainWidget::Home { home, area: home_area }
    &&& home_area == area
    &&& is_welcome(home)
}

/// Whether `list` holds the names of these pets, in their order.
pub open spec fn is_name_list(list: List, pet_list: Seq<Pet>) -> bool {
    &&& list.items@.len() == pet_list.len()
    &&& forall|i: int| 0 <= i < pet_list.len() ==> (#[trigger] list.items@[i])@ == pet_list[i].name@
    &&& list.block.shows("Pets"@, Style::colored(Color::White))
    &&& list.highlight_style == Style::selection()
}

/// Whether `table` shows the details of the pet under the selection: the
/// five column titles in bold, and one row for that pet, or none where the
/// selection points at no pet.
pub open spec fn is_detail_table(table: Table, pet_list: Seq<Pet>, selection: Option<usize>) -> bool {
    &&& table.header@.len() == 5
    &&& forall|column: int|
        0 <= column < 5 ==> (#[trigger] table.header@[column]).shows(
            detail_title(column),
            Style::strong(),
        )
    &&& table.block.shows("Detail"@, Style::colored(Color::White))
    &&& table.widths@ == detail_widths()
    &&& match shown_pet(selection, pet_list.len()) {
        Some(i) => {
            &&& table.rows@.len() == 1
            &&& texts(table.rows@[0]@) == detail_cells(
                pet_list[i]@,
                utc_text_of(pet_list[i].created_at.secs, pet_list[i].created_at.nanos),
            )
        },
        None => table.rows@.len() == 0,
    }
}

/// Whether `widget` is the pets screen for these pets and this selection:
/// the names on the left with the selection handed on, the details of the
/// selected pet on the right.
pub open spec fn is_pets_screen(widget: MainWidget, pet_list: Seq<Pet>, selection: Option<usize>) -> bool {
    &&& widget matches MainWidget::Pets { list, names, selected, table, details }
    &&& selected == selection
    &&& is_name_list(list, pet_list)
    &&& is_detail_table(table, pet_list, selection)
}

/// Whether the pets screen `widget` lies in the two areas `rects`.
pub open spec fn lies_in(widget: MainWidget, rects: PetRects) -> bool {
    &&& widget matches MainWidget::Pets { list, names, selected, table, details }
    &&& names == rects.names
    &&& details == rects.details
}

/// Whether `widget` is what the active screen shows. The home screen fills
/// `area`; where the pets screen's two halves lie is not said.
pub open spec fn is_screen(
    widget: MainWidget,
    active_menu_item: MenuItem,
    area: Rect,
    pet_list: Seq<Pet>,
    selection: Option<usize>,
) -> bool {
    match active_menu_item {
        MenuItem::Home => is_home_screen(widget, area),
        MenuItem::Pets => is_pets_screen(widget, pet_list, selection),
    }
}

/// The pets screen in its two areas.
pub fn pets_screen(pet_rects: PetRects, pet_list: &Vec<Pet>, pet_list_state: &ListState) -> (widget: MainWidget)
    ensures
        is_pets_screen(widget, pet_list@, pet_list_state.selected),
        lies_in(widget, pet_rects),
{
    let (left, right) = create_pet_widgets(pet_list, pet_list_state);
    MainWidget::Pets {
        list: left,
        names: pet_rects.names,
        selected: pet_list_state.selected(),
        table: right,
        details: pet_rects.details,
    }
}

/// Fills the main part of the dashboard with the active screen.
pub fn render_selected_widget(
    active_menu_item: MenuItem,
    app_rects: &AppRects,
    pet_list: &Vec<Pet>,
    pet_list_state: &ListState,
) -> (widget: MainWidget)
    requires
        can_fill(active_menu_item, app_rects.main_widget),
    ensures
        is_screen(
            widget,
            active_menu_item,
            app_rects.main_widget,
            pet_list@,
            pet_list_state.selected,
        ),
{
    match active_menu_item {
        MenuItem::Home => MainWidget::Home { home: render_home(), area: app_rects.main_widget },
        MenuItem::Pets => {
            let pet_rects = create_pet_rects(&app_rects.main_widget);
            pets_screen(pet_rects, pet_list, pet_list_state)
        },
    }
}

/// Whether `tabs` is the menu bar over these entries with the active
/// screen's entry picked out.
pub open spec fn is_menu_bar(tabs: Tabs, menu_titles: Seq<&str>, active_menu_item: MenuItem) -> bool {
    &&& tabs.titles@.len() == menu_titles.len()
    &&& forall|i: int|
        0 <= i < menu_titles.len() ==> {
            &&& (#[trigger] tabs.titles@[i]).first.shows(label_first(menu_titles[i]@), Style::shortcut())
            &&& tabs.titles@[i].rest.shows(label_rest(menu_titles[i]@), Style::colored(Color::White))
        }
    &&& tabs.selected == active_menu_item.tab()
    &&& tabs.block.shows("Menu"@, Style::colored(Color::White))
    &&& tabs.style == Style::colored(Color::White)
    &&& tabs.highlight_style == Style::colored(Color::Yellow)
    &&& tabs.divider@ == "|"@
}

/// Whether `copyright` is the footer.
pub open spec fn is_footer(copyright: Paragraph) -> bool {
    &&& copyright.lines@.len() == 1
    &&& copyright.lines@[0].shows("pet-CLI 2020 - all rights reserved"@, Style::plain())
    &&& copyright.style == Style::colored(Color::LightCyan)
    &&& copyright.block.shows("Copyright"@, Style::colored(Color::White))
}

/// Whether `frame` shows the dashboard in the three areas `app_rects`: the
/// menu bar on top, the active screen in the middle, the footer below.
pub open spec fn is_frame(
    frame: Frame,
    app_rects: AppRects,
    menu_titles: Seq<&str>,
    active_menu_item: MenuItem,
    pet_list: Seq<Pet>,
    selection: Option<usize>,
) -> bool {
    &&& is_menu_bar(frame.tabs, menu_titles, active_menu_item)
    &&& frame.menu == app_rects.menu
    &&& is_screen(frame.main_widget, active_menu_item, app_rects.main_widget, pet_list, selection)
    &&& is_footer(frame.copyright)
    &&& frame.copyright_area == app_rects.copyright
}

/// Whether `frame` shows the dashboard, wherever its three parts lie.
pub open spec fn shows_dashboard(
    frame: Frame,
    menu_titles: Seq<&str>,
    active_menu_item: MenuItem,
    pet_list: Seq<Pet>,
    selection: Option<usize>,
) -> bool {
    &&& is_menu_bar(frame.tabs, menu_titles, active_menu_item)
    &&& match active_menu_item {
        MenuItem::Home => frame.main_widget matches MainWidget::Home { home, .. } && is_welcome(home),
        MenuItem::Pets => is_pets_screen(frame.main_widget, pet_list, selection),
    }
    &&& is_footer(frame.copyright)
}

/// Puts one frame together in the three areas it is given. There is no
/// frame where the pets screen is active and the main part cannot be split:
/// where it is too wide, or runs off the screen.
pub fn compose(
    app_rects: &AppRects,
    menu_titles: &Vec<&str>,
    active_menu_item: MenuItem,
    pet_list: &Vec<Pet>,
    pet_list_state: &ListState,
) -> (frame: Option<Frame>)
    ensures
        frame is Some == can_fill(active_menu_item, app_rects.main_widget),
        frame matches Some(frame) ==> is_frame(
            frame,
            *app_rects,
            menu_titles@,
            active_menu_item,
            pet_list@,
            pet_list_state.selected,
        ),
{
    let fits = match active_menu_item {
        MenuItem::Home => true,
        MenuItem::Pets => holds_pets(&app_rects.main_widget),
    };
    if !fits {
        return None;
    }
    let copyright = create_copyright_paragraph();
    let tabs = create_tabs(create_menu(menu_titles), active_menu_item);
    let main_widget = render_selected_widget(active_menu_item, app_rects, pet_list, pet_list_state);
    Some(
        Frame {
            tabs,
            menu: app_rects.menu,
            main_widget,
            copyright,
            copyright_area: app_rects.copyright,
        },
    )
}

/// Cuts the terminal into its three areas and puts one frame together in
/// them. The home screen always gives a frame; the pets screen gives none
/// where its area came out such that it cannot be split.
pub fn draw(
    total_drawing_rect: Rect,
    menu_titles: &Vec<&str>,
    active_menu_item: MenuItem,
    pet_list: &Vec<Pet>,
    pet_list_state: &ListState,
) -> (frame: Option<Frame>)
    requires
        on_screen(total_drawing_rect),
    ensures
        active_menu_item == MenuItem::Home ==> frame is Some,
        frame matches Some(frame) ==> shows_dashboard(
            frame,
            menu_titles@,
            active_menu_item,
            pet_list@,
            pet_list_state.selected,
        ),
{
    let app_rects = create_app_rects(total_drawing_rect);
    compose(&app_rects, menu_titles, active_menu_item, pet_list, pet_list_state)
}

} // verus!
