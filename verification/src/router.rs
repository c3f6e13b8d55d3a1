//! Prefix-based routing of tray-menu selections: a selected identifier is
//! decoded into a typed action once, then dispatched into directives the
//! host carries out in order.

use vstd::prelude::*;
use crate::events::{AppEvent, EventView};
use crate::geometry::Corner;
use crate::settings::{flag_or, SettingsDoc, ValueView};
use crate::strutil::{has_prefix, str_eq, str_starts_with, str_suffix_from};

verus! {

/// The flag name whose toggle additionally drives the host's auto-start
/// registration.
pub open spec fn auto_start_key() -> Seq<char> {
    "autoStart"@
}

/// A decoded menu selection.
pub enum MenuAction {
    /// Terminate the process; no confirmation, no cleanup beyond exit.
    Quit,
    /// Snap the window to a corner.
    MoveTo(Corner),
    /// Hand a theme identifier to the front-end, verbatim.
    Theme(String),
    /// Invert a persisted flag.
    Toggle(String),
    /// An identifier under no known namespace; ignored.
    Other,
}

/// The mathematical shape of a [`MenuAction`].
pub enum ActionView {
    Quit,
    MoveTo(Corner),
    Theme(Seq<char>),
    Toggle(Seq<char>),
    Other,
}

impl View for MenuAction {
    type V = ActionView;

    open spec fn view(&self) -> ActionView {
        match self {
            MenuAction::Quit => ActionView::Quit,
            MenuAction::MoveTo(c) => ActionView::MoveTo(*c),
            MenuAction::Theme(t) => ActionView::Theme(t@),
            MenuAction::Toggle(k) => ActionView::Toggle(k@),
            MenuAction::Other => ActionView::Other,
        }
    }
}

/// The corner a menu-id suffix names; an unknown suffix anchors
/// bottom-right.
pub open spec fn spec_corner_of(s: Seq<char>) -> Corner {
    if s == "tl"@ {
        Corner::TopLeft
    } else if s == "tr"@ {
        Corner::TopRight
    } else if s == "bl"@ {
        Corner::BottomLeft
    } else {
        Corner::BottomRight
    }
}

/// How a selected identifier decodes: by namespace prefix, not by exact
/// enumeration, so new themes and flags need no dispatch changes.
pub open spec fn spec_parse_menu_id(id: Seq<char>) -> ActionView {
    if id == "quit"@ {
        ActionView::Quit
    } else if has_prefix(id, "pos_"@) {
        ActionView::MoveTo(spec_corner_of(id.subrange("pos_"@.len() as int, id.len() as int)))
    } else if has_prefix(id, "theme_"@) {
        ActionView::Theme(id.subrange("theme_"@.len() as int, id.len() as int))
    } else if has_prefix(id, "toggle_"@) {
        ActionView::Toggle(id.subrange("toggle_"@.len() as int, id.len() as int))
    } else {
        ActionView::Other
    }
}

/// Decodes a corner suffix.
pub fn corner_of_id(s: &str) -> (c: Corner)
    ensures
        c == spec_corner_of(s@),
{
    if str_eq(s, "tl") {
        Corner::TopLeft
    } else if str_eq(s, "tr") {
        Corner::TopRight
    } else if str_eq(s, "bl") {
        Corner::BottomLeft
    } else {
        Corner::BottomRight
    }
}

/// Decodes a selected menu identifier into its action.
pub fn parse_menu_id(id: &str) -> (action: MenuAction)
    ensures
        action@ == spec_parse_menu_id(id@),
{
    proof {
        reveal_strlit("pos_");
        reveal_strlit("theme_");
        reveal_strlit("toggle_");
    }
    if str_eq(id, "quit") {
        MenuAction::Quit
    } else if str_starts_with(id, "pos_") {
        MenuAction::MoveTo(corner_of_id(str_suffix_from(id, 4)))
    } else if str_starts_with(id, "theme_") {
        MenuAction::Theme(str_suffix_from(id, 6).to_owned())
    } else if str_starts_with(id, "toggle_") {
        MenuAction::Toggle(str_suffix_from(id, 7).to_owned())
    } else {
        MenuAction::Other
    }
}

/// One step the host must carry out, in the order returned.
pub enum Directive {
    /// Exit the process.
    Exit,
    /// Apply the corner position to the main window.
    MoveTo(Corner),
    /// Write the settings document, as mutated, to its backing file.
    Persist,
    /// Enable or disable the OS auto-start registration.
    SetAutoStart(bool),
    /// Push a notification through the outbound channel.
    Emit(AppEvent),
}

/// The mathematical shape of a [`Directive`].
pub enum DirectiveView {
    Exit,
    MoveTo(Corner),
    Persist,
    SetAutoStart(bool),
    Emit(EventView),
}

impl View for Directive {
    type V = DirectiveView;

    open spec fn view(&self) -> DirectiveView {
        match self {
            Directive::Exit => DirectiveView::Exit,
            Directive::MoveTo(c) => DirectiveView::MoveTo(*c),
            Directive::Persist => DirectiveView::Persist,
            Directive::SetAutoStart(b) => DirectiveView::SetAutoStart(*b),
            Directive::Emit(e) => DirectiveView::Emit(e@),
        }
    }
}

/// The views of a directive sequence.
pub open spec fn dir_views(ds: Seq<Directive>) -> Seq<DirectiveView> {
    ds.map_values(|d: Directive| d@)
}

/// What routing an action against a document yields: the directives to
/// carry out in order, and the document afterwards. A toggle inverts the
/// flag (absent or non-boolean read as true), persists before emitting —
/// an observer of the event can trust the store — and drives the
/// auto-start registration, with the new value, before emitting.
pub open spec fn spec_route(action: ActionView, doc: Map<Seq<char>, ValueView>) -> (
    Seq<DirectiveView>,
    Map<Seq<char>, ValueView>,
) {
    match action {
        ActionView::Quit => (seq![DirectiveView::Exit], doc),
        ActionView::MoveTo(c) => (seq![DirectiveView::MoveTo(c)], doc),
        ActionView::Theme(t) => (seq![DirectiveView::Emit(EventView::SetTheme(t))], doc),
        ActionView::Toggle(k) => {
            let v = !flag_or(doc, k, true);
            let emit = DirectiveView::Emit(EventView::ToggleSetting { key: k, value: v });
            let dirs = if k == auto_start_key() {
                seq![DirectiveView::Persist, DirectiveView::SetAutoStart(v), emit]
            } else {
                seq![DirectiveView::Persist, emit]
            };
            (dirs, doc.insert(k, ValueView::Flag(v)))
        },
        ActionView::Other => (Seq::empty(), doc),
    }
}

/// Routes one decoded action: mutates the document where the action asks
/// for it and returns the directives the host must carry out in order.
pub fn route_menu(action: MenuAction, doc: &mut SettingsDoc) -> (directives: Vec<Directive>)
    requires
        old(doc).wf(),
    ensures
        final(doc).wf(),
        dir_views(directives@) == spec_route(action@, old(doc)@).0,
        final(doc)@ == spec_route(action@, old(doc)@).1,
{
    match action {
        MenuAction::Quit => {
            let mut out: Vec<Directive> = Vec::new();
            out.push(Directive::Exit);
            proof {
                assert(dir_views(out@) =~= spec_route(action@, old(doc)@).0);
            }
            out
        },
        MenuAction::MoveTo(corner) => {
            let mut out: Vec<Directive> = Vec::new();
            out.push(Directive::MoveTo(corner));
            proof {
                assert(dir_views(out@) =~= spec_route(action@, old(doc)@).0);
            }
            out
        },
        MenuAction::Theme(theme) => {
            let mut out: Vec<Directive> = Vec::new();
            out.push(Directive::Emit(AppEvent::SetTheme(theme)));
            proof {
                assert(dir_views(out@) =~= spec_route(action@, old(doc)@).0);
            }
            out
        },
        MenuAction::Toggle(key) => {
            let new_val = doc.toggle_flag(key.as_str(), true);
            let mut out: Vec<Directive> = Vec::new();
            out.push(Directive::Persist);
            if str_eq(key.as_str(), "autoStart") {
                out.push(Directive::SetAutoStart(new_val));
            }
            out.push(Directive::Emit(AppEvent::ToggleSetting { key, value: new_val }));
            proof {
                assert(dir_views(out@) =~= spec_route(action@, old(doc)@).0);
            }
            out
        },
        MenuAction::Other => {
            let out: Vec<Directive> = Vec::new();
            proof {
                assert(dir_views(out@) =~= spec_route(action@, old(doc)@).0);
            }
            out
        },
    }
}

/// Handles one raw menu selection: decode, then route.
pub fn handle_menu_id(id: &str, doc: &mut SettingsDoc) -> (directives: Vec<Directive>)
    requires
        old(doc).wf(),
    ensures
        final(doc).wf(),
        dir_views(directives@) == spec_route(spec_parse_menu_id(id@), old(doc)@).0,
        final(doc)@ == spec_route(spec_parse_menu_id(id@), old(doc)@).1,
{
    let action = parse_menu_id(id);
    route_menu(action, doc)
}

} // verus!
