use vstd::prelude::*;

verus! {

/// The screens that key bindings depend on.
#[derive(Clone, Copy, PartialEq, Eq, Structural, Debug)]
pub enum Screens {
    Main,
    Filters,
}

/// The filter fields that text entry can edit.
#[derive(Clone, Copy, PartialEq, Eq, Structural, Debug)]
pub enum Fields {
    Title,
    Artist,
    Album,
}

/// A pressed key, as far as the bindings tell keys apart.
#[derive(Clone, Copy, PartialEq, Eq, Structural, Debug)]
pub enum Key {
    Char(char),
    Enter,
    Backspace,
    Other,
}

/// The commands that keys are bound to.
#[derive(Clone, Copy, PartialEq, Eq, Structural, Debug)]
pub enum Func {
    ScanAll,
    ScanSelected,
    SelectNext,
    SelectPrevious,
    OpenFiltersPopup,
    OpenFilterTitle,
    OpenFilterAlbum,
    OpenFilterArtist,
    Quit,
    CloseFiltersPopup,
    FiltersSelectNext,
    FiltersSelectPrevious,
    OpenSelectedFilter,
}

/// The key map: which command a key runs on a screen.
pub open spec fn spec_binding(screen: Screens, key: Key) -> Option<Func> {
    match (screen, key) {
        (Screens::Main, Key::Char('a')) => Some(Func::ScanAll),
        (Screens::Main, Key::Char('f')) => Some(Func::OpenFiltersPopup),
        (Screens::Main, Key::Char('j')) => Some(Func::SelectNext),
        (Screens::Main, Key::Char('k')) => Some(Func::SelectPrevious),
        (Screens::Main, Key::Char('q')) => Some(Func::Quit),
        (Screens::Main, Key::Enter) => Some(Func::ScanSelected),
        (Screens::Filters, Key::Char('q')) => Some(Func::CloseFiltersPopup),
        (Screens::Filters, Key::Char('j')) => Some(Func::FiltersSelectNext),
        (Screens::Filters, Key::Char('k')) => Some(Func::FiltersSelectPrevious),
        (Screens::Filters, Key::Enter) => Some(Func::OpenSelectedFilter),
        _ => None,
    }
}

/// Looks a key up in the key map of a screen.
pub fn binding(screen: Screens, key: Key) -> (r: Option<Func>)
    ensures
        r == spec_binding(screen, key),
{
    match (screen, key) {
        (Screens::Main, Key::Char('a')) => Some(Func::ScanAll),
        (Screens::Main, Key::Char('f')) => Some(Func::OpenFiltersPopup),
        (Screens::Main, Key::Char('j')) => Some(Func::SelectNext),
        (Screens::Main, Key::Char('k')) => Some(Func::SelectPrevious),
        (Screens::Main, Key::Char('q')) => Some(Func::Quit),
        (Screens::Main, Key::Enter) => Some(Func::ScanSelected),
        (Screens::Filters, Key::Char('q')) => Some(Func::CloseFiltersPopup),
        (Screens::Filters, Key::Char('j')) => Some(Func::FiltersSelectNext),
        (Screens::Filters, Key::Char('k')) => Some(Func::FiltersSelectPrevious),
        (Screens::Filters, Key::Enter) => Some(Func::OpenSelectedFilter),
        _ => None,
    }
}

/// Number of lines of the filters popup.
pub const FILTER_LINES: usize = 3;

/// The popup line selected after moving down: the first one when none was
/// selected, never past the last.
pub open spec fn popup_next(s: Option<usize>) -> Option<usize> {
    match s {
        None => Some(0),
        Some(i) => if i + 1 >= FILTER_LINES {
            Some((FILTER_LINES - 1) as usize)
        } else {
            Some((i + 1) as usize)
        },
    }
}

/// The popup line selected after moving up: the last one when none was
/// selected, never before the first.
pub open spec fn popup_previous(s: Option<usize>) -> Option<usize> {
    match s {
        None => Some((FILTER_LINES - 1) as usize),
        Some(i) => if i == 0 {
            Some(0)
        } else if i - 1 >= FILTER_LINES {
            Some((FILTER_LINES - 1) as usize)
        } else {
            Some((i - 1) as usize)
        },
    }
}

pub fn popup_select_next(s: Option<usize>) -> (r: Option<usize>)
    ensures
        r == popup_next(s),
{
    match s {
        None => Some(0),
        Some(i) => if i >= FILTER_LINES - 1 {
            Some(FILTER_LINES - 1)
        } else {
            Some(i + 1)
        },
    }
}

pub fn popup_select_previous(s: Option<usize>) -> (r: Option<usize>)
    ensures
        r == popup_previous(s),
{
    match s {
        None => Some(FILTER_LINES - 1),
        Some(i) => if i == 0 {
            Some(0)
        } else if i - 1 >= FILTER_LINES {
            Some(FILTER_LINES - 1)
        } else {
            Some(i - 1)
        },
    }
}

/// The filter field shown on a line of the filters popup.
pub open spec fn spec_field_at(line: Option<usize>) -> Option<Fields> {
    match line {
        Some(0) => Some(Fields::Title),
        Some(1) => Some(Fields::Artist),
        Some(2) => Some(Fields::Album),
        _ => None,
    }
}

pub fn field_at(line: Option<usize>) -> (r: Option<Fields>)
    ensures
        r == spec_field_at(line),
{
    match line {
        Some(0) => Some(Fields::Title),
        Some(1) => Some(Fields::Artist),
        Some(2) => Some(Fields::Album),
        _ => None,
    }
}

/// A selection position kept within `n` rows (0 when there are none).
pub open spec fn clamp(sel: int, n: int) -> int {
    if n <= 0 {
        0
    } else if sel >= n {
        n - 1
    } else {
        sel
    }
}

pub fn clamp_selection(sel: usize, n: usize) -> (r: usize)
    ensures
        r as int == clamp(sel as int, n as int),
{
    if n == 0 {
        0
    } else if sel >= n {
        n - 1
    } else {
        sel
    }
}

/// Relies on String::push: appends the character at the end.
#[verifier::external_body]
pub(crate) fn push_char(s: &mut String, c: char)
    ensures
        final(s)@ == old(s)@.push(c),
{
    s.push(c)
}

/// Relies on String::pop: removes and returns the last character, or returns
/// None and leaves an empty string alone.
#[verifier::external_body]
pub(crate) fn pop_char(s: &mut String) -> (r: Option<char>)
    ensures
        old(s)@.len() == 0 ==> r is None && final(s)@ == old(s)@,
        old(s)@.len() > 0 ==> r == Some(old(s)@.last()) && final(s)@ == old(s)@.drop_last(),
{
    s.pop()
}

} // verus!
