//! The session of one dialog: what state its identifier is in, which style
//! rules it has registered, and the requests that go to the renderer.
//!
//! The session decides; drawing is left to the caller, who hands each
//! request to the renderer and reports back what the frame brought.

use crate::config::{FileDialogConfig, Rgba, Scalar, Size};
use crate::flags::{FileDialogFlags, FileStyleFlags};
use crate::text::{
    contains_nul, has_nul, opt_contains_nul, opt_has_nul, opt_owned, opt_str, opt_text,
    Argument, DialogError,
};
use crate::window::{fit_window, fitted, simple_request, simple_window, DisplayRequest};
use vstd::prelude::*;

verus! {

/// Where a dialog stands between two frames.
#[derive(Debug, Clone, Copy, PartialEq, Eq, Structural)]
pub enum DialogState {
    /// Not shown.
    Closed,
    /// Opened since the last frame was drawn.
    OpenedThisFrame,
    /// Shown for at least one frame.
    Open,
}

/// What the user did in the frame that was just drawn.
#[derive(Debug, Clone, Copy, PartialEq, Eq, Structural)]
pub enum FrameOutcome {
    /// Neither accepted nor cancelled.
    Pending,
    /// Accepted the choice.
    Accepted,
    /// Cancelled the dialog.
    Cancelled,
}

/// A display rule: the files that meet `criteria` under `flags` are drawn in
/// `color`, with `icon` where there is one.
#[derive(Debug, Clone, PartialEq, Eq)]
pub struct StyleRule {
    pub flags: FileStyleFlags,
    pub criteria: String,
    pub color: Rgba,
    pub icon: Option<String>,
}

/// A display rule as plain values.
pub struct StyleRuleView {
    pub flags: FileStyleFlags,
    pub criteria: Seq<char>,
    pub color: Rgba,
    pub icon: Option<Seq<char>>,
}

impl View for StyleRule {
    type V = StyleRuleView;

    open spec fn view(&self) -> StyleRuleView {
        StyleRuleView {
            flags: self.flags,
            criteria: self.criteria@,
            color: self.color,
            icon: opt_text(self.icon),
        }
    }
}

/// What the renderer is given to open a dialog.
#[derive(Debug, Clone, PartialEq, Eq)]
pub struct OpenRequest {
    pub key: String,
    pub title: String,
    pub filters: Option<String>,
    pub path: Option<String>,
    pub file_name: Option<String>,
    pub file_path_name: Option<String>,
    pub count_selection_max: i32,
    pub flags: FileDialogFlags,
    pub side_pane_width: Scalar,
}

/// An open request as plain values.
pub struct OpenRequestView {
    pub key: Seq<char>,
    pub title: Seq<char>,
    pub filters: Option<Seq<char>>,
    pub path: Option<Seq<char>>,
    pub file_name: Option<Seq<char>>,
    pub file_path_name: Option<Seq<char>>,
    pub count_selection_max: i32,
    pub flags: FileDialogFlags,
    pub side_pane_width: Scalar,
}

impl View for OpenRequest {
    type V = OpenRequestView;

    open spec fn view(&self) -> OpenRequestView {
        OpenRequestView {
            key: self.key@,
            title: self.title@,
            filters: opt_text(self.filters),
            path: opt_text(self.path),
            file_name: opt_text(self.file_name),
            file_path_name: opt_text(self.file_path_name),
            count_selection_max: self.count_selection_max,
            flags: self.flags,
            side_pane_width: self.side_pane_width,
        }
    }
}

/// What the renderer is given to set its locales.
#[derive(Debug, Clone, PartialEq, Eq)]
pub struct LocaleRequest {
    pub category: i32,
    pub begin_locale: String,
    pub end_locale: String,
}

/// The first argument of an open call that holds a zero byte, going through
/// title, filters, path, file name and combined path in this order.
pub open spec fn first_refused_open(
    title: Seq<char>,
    filters: Option<Seq<char>>,
    config: FileDialogConfig,
) -> Option<Argument> {
    if has_nul(title) {
        Some(Argument::Title)
    } else if opt_has_nul(filters) {
        Some(Argument::Filters)
    } else if opt_has_nul(opt_text(config.path)) {
        Some(Argument::Path)
    } else if opt_has_nul(opt_text(config.file_name)) {
        Some(Argument::FileName)
    } else if opt_has_nul(opt_text(config.file_path_name)) {
        Some(Argument::FilePathName)
    } else {
        None
    }
}

/// The request that opens the dialog `key`: title and filters as given, and
/// every field of the configuration as it stands, absent where it is unset.
pub open spec fn open_request(
    key: Seq<char>,
    title: Seq<char>,
    filters: Option<Seq<char>>,
    config: FileDialogConfig,
) -> OpenRequestView {
    OpenRequestView {
        key,
        title,
        filters,
        path: opt_text(config.path),
        file_name: opt_text(config.file_name),
        file_path_name: opt_text(config.file_path_name),
        count_selection_max: config.count_selection_max,
        flags: config.flags,
        side_pane_width: config.side_pane_width,
    }
}

/// The first argument of a style rule that holds a zero byte: the criteria,
/// then the icon.
pub open spec fn first_refused_style(criteria: Seq<char>, icon: Option<Seq<char>>) -> Option<
    Argument,
> {
    if has_nul(criteria) {
        Some(Argument::Criteria)
    } else if opt_has_nul(icon) {
        Some(Argument::Icon)
    } else {
        None
    }
}

/// The first locale that holds a zero byte: the one for the beginning, then
/// the one for the end.
pub open spec fn first_refused_locale(begin_locale: Seq<char>, end_locale: Seq<char>) -> Option<
    Argument,
> {
    if has_nul(begin_locale) {
        Some(Argument::BeginLocale)
    } else if has_nul(end_locale) {
        Some(Argument::EndLocale)
    } else {
        None
    }
}

/// The state after an open call: a closed dialog is opened, any other stays
/// as it is.
pub open spec fn after_open(state: DialogState) -> DialogState {
    match state {
        DialogState::Closed => DialogState::OpenedThisFrame,
        other => other,
    }
}

/// The state after a frame: a closed dialog stays closed, a shown one stays
/// open until the user accepts or cancels.
pub open spec fn after_frame(state: DialogState, outcome: FrameOutcome) -> DialogState {
    match (state, outcome) {
        (DialogState::Closed, _) => DialogState::Closed,
        (_, FrameOutcome::Pending) => DialogState::Open,
        (_, _) => DialogState::Closed,
    }
}

/// Whether a frame ends the dialog: it was shown, and the user accepted or
/// cancelled.
pub open spec fn frame_ends(state: DialogState, outcome: FrameOutcome) -> bool {
    state != DialogState::Closed && outcome != FrameOutcome::Pending
}

/// A session as plain values.
pub struct DialogView {
    pub key: Seq<char>,
    pub state: DialogState,
    pub accepted: bool,
    pub styles: Seq<StyleRuleView>,
}

/// One dialog, known to the renderer by its identifier.
#[derive(Debug)]
pub struct FileDialog {
    id: String,
    state: DialogState,
    accepted: bool,
    styles: Vec<StyleRule>,
}

impl View for FileDialog {
    type V = DialogView;

    closed spec fn view(&self) -> DialogView {
        DialogView {
            key: self.id@,
            state: self.state,
            accepted: self.accepted,
            styles: self.styles@.map_values(|rule: StyleRule| rule@),
        }
    }
}

impl FileDialog {
    /// A closed dialog under the identifier `id`, with no style rule. An
    /// identifier with a zero byte is refused.
    pub fn create(id: &str) -> (r: Result<Self, DialogError>)
        ensures
            has_nul(id@) ==> r == Err::<Self, DialogError>(
                DialogError::InvalidArgument(Argument::Identifier),
            ),
            !has_nul(id@) ==> r is Ok && r->Ok_0@ == (DialogView {
                key: id@,
                state: DialogState::Closed,
                accepted: false,
                styles: Seq::empty(),
            }),
    {
        if contains_nul(id) {
            return Err(DialogError::InvalidArgument(Argument::Identifier));
        }
        let r = FileDialog {
            id: id.to_owned(),
            state: DialogState::Closed,
            accepted: false,
            styles: Vec::new(),
        };
        assert(r.styles@.map_values(|rule: StyleRule| rule@) == Seq::<StyleRuleView>::empty());
        Ok(r)
    }

    /// The identifier.
    pub fn id(&self) -> (r: &str)
        ensures
            r@ == self@.key,
    {
        self.id.as_str()
    }

    /// The state of the dialog.
    pub fn state(&self) -> (r: DialogState)
        ensures
            r == self@.state,
    {
        self.state
    }

    /// Opens the dialog with the given title, filters and configuration. The
    /// filters are handed on as they are. A text with a zero byte is refused
    /// and leaves the session as it was.
    pub fn open(&mut self, title: &str, filters: Option<&str>, config: FileDialogConfig) -> (r:
        Result<OpenRequest, DialogError>)
        ensures
            match first_refused_open(title@, opt_str(filters), config) {
                Some(which) => r == Err::<OpenRequest, DialogError>(
                    DialogError::InvalidArgument(which),
                ) && final(self)@ == old(self)@,
                None => r is Ok && r->Ok_0@ == open_request(
                    old(self)@.key,
                    title@,
                    opt_str(filters),
                    config,
                ) && final(self)@ == (DialogView {
                    state: after_open(old(self)@.state),
                    ..old(self)@
                }),
            },
    {
        if contains_nul(title) {
            return Err(DialogError::InvalidArgument(Argument::Title));
        }
        let filters_owned = opt_owned(filters);
        if opt_contains_nul(&filters_owned) {
            return Err(DialogError::InvalidArgument(Argument::Filters));
        }
        if opt_contains_nul(&config.path) {
            return Err(DialogError::InvalidArgument(Argument::Path));
        }
        if opt_contains_nul(&config.file_name) {
            return Err(DialogError::InvalidArgument(Argument::FileName));
        }
        if opt_contains_nul(&config.file_path_name) {
            return Err(DialogError::InvalidArgument(Argument::FilePathName));
        }
        let FileDialogConfig {
            path,
            file_name,
            file_path_name,
            count_selection_max,
            flags,
            side_pane_width,
        } = config;
        let request = OpenRequest {
            key: self.id.clone(),
            title: title.to_owned(),
            filters: filters_owned,
            path,
            file_name,
            file_path_name,
            count_selection_max,
            flags,
            side_pane_width,
        };
        if self.state == DialogState::Closed {
            self.state = DialogState::OpenedThisFrame;
        }
        Ok(request)
    }

    /// What to hand to the renderer for this frame, or nothing while the
    /// dialog is closed. The session is left as it is.
    pub fn display(&self, flags: u32, min_size: Size, max_size: Size) -> (r: Option<DisplayRequest>)
        ensures
            self@.state == DialogState::Closed ==> r is None,
            self@.state != DialogState::Closed ==> r == Some(fitted(flags, min_size, max_size)),
    {
        if self.state == DialogState::Closed {
            None
        } else {
            Some(fit_window(flags, min_size, max_size))
        }
    }

    /// `display` with the usual flags and bounds.
    pub fn display_simple(&self) -> (r: Option<DisplayRequest>)
        ensures
            self@.state == DialogState::Closed ==> r is None,
            self@.state != DialogState::Closed ==> r == Some(simple_request()),
    {
        if self.state == DialogState::Closed {
            None
        } else {
            Some(simple_window())
        }
    }

    /// Takes note of what the frame brought, and tells whether it ended the
    /// dialog. On a closed dialog nothing changes and the answer is no.
    pub fn frame_shown(&mut self, outcome: FrameOutcome) -> (r: bool)
        ensures
            r == frame_ends(old(self)@.state, outcome),
            final(self)@ == (DialogView {
                state: after_frame(old(self)@.state, outcome),
                accepted: if frame_ends(old(self)@.state, outcome) {
                    outcome == FrameOutcome::Accepted
                } else {
                    old(self)@.accepted
                },
                ..old(self)@
            }),
    {
        if self.state == DialogState::Closed {
            return false;
        }
        match outcome {
            FrameOutcome::Pending => {
                self.state = DialogState::Open;
                false
            },
            FrameOutcome::Accepted => {
                self.state = DialogState::Closed;
                self.accepted = true;
                true
            },
            FrameOutcome::Cancelled => {
                self.state = DialogState::Closed;
                self.accepted = false;
                true
            },
        }
    }

    /// Ends the dialog.
    pub fn close(&mut self)
        ensures
            final(self)@ == (DialogView { state: DialogState::Closed, ..old(self)@ }),
    {
        self.state = DialogState::Closed;
    }

    /// Whether the user's last accept-or-cancel was an accept.
    pub fn is_ok(&self) -> (r: bool)
        ensures
            r == self@.accepted,
    {
        self.accepted
    }

    /// Whether the dialog was opened since the last frame.
    pub fn was_opened_this_frame(&self) -> (r: bool)
        ensures
            r == (self@.state == DialogState::OpenedThisFrame),
    {
        self.state == DialogState::OpenedThisFrame
    }

    /// Whether the dialog under this identifier was opened since the last
    /// frame.
    pub fn was_key_opened_this_frame(&self) -> (r: bool)
        ensures
            r == (self@.state == DialogState::OpenedThisFrame),
    {
        self.was_opened_this_frame()
    }

    /// Whether the dialog is shown.
    pub fn is_opened(&self) -> (r: bool)
        ensures
            r == (self@.state != DialogState::Closed),
    {
        self.state != DialogState::Closed
    }

    /// Whether the dialog under this identifier is shown.
    pub fn is_key_opened(&self) -> (r: bool)
        ensures
            r == (self@.state != DialogState::Closed),
    {
        self.is_opened()
    }

    /// Registers a display rule behind those registered before, and hands it
    /// back for the renderer. A text with a zero byte is refused and leaves
    /// the rules as they were.
    pub fn set_file_style(
        &mut self,
        flags: FileStyleFlags,
        criteria: &str,
        color: Rgba,
        icon: Option<&str>,
    ) -> (r: Result<StyleRule, DialogError>)
        ensures
            match first_refused_style(criteria@, opt_str(icon)) {
                Some(which) => r == Err::<StyleRule, DialogError>(
                    DialogError::InvalidArgument(which),
                ) && final(self)@ == old(self)@,
                None => r is Ok && r->Ok_0@ == (StyleRuleView {
                    flags,
                    criteria: criteria@,
                    color,
                    icon: opt_str(icon),
                }) && final(self)@ == (DialogView {
                    styles: old(self)@.styles.push(r->Ok_0@),
                    ..old(self)@
                }),
            },
    {
        if contains_nul(criteria) {
            return Err(DialogError::InvalidArgument(Argument::Criteria));
        }
        let icon_owned = opt_owned(icon);
        if opt_contains_nul(&icon_owned) {
            return Err(DialogError::InvalidArgument(Argument::Icon));
        }
        let kept = StyleRule {
            flags,
            criteria: criteria.to_owned(),
            color,
            icon: opt_owned(icon),
        };
        let rule = StyleRule { flags, criteria: criteria.to_owned(), color, icon: icon_owned };
        let ghost before = self.styles@;
        self.styles.push(kept);
        assert(self.styles@.map_values(|rule: StyleRule| rule@) == before.map_values(
            |rule: StyleRule| rule@,
        ).push(rule@));
        Ok(rule)
    }

    /// Drops every display rule.
    pub fn clear_file_styles(&mut self)
        ensures
            final(self)@ == (DialogView { styles: Seq::empty(), ..old(self)@ }),
    {
        self.styles = Vec::new();
        assert(self.styles@.map_values(|rule: StyleRule| rule@) == Seq::<StyleRuleView>::empty());
    }

    /// The number of display rules in force.
    pub fn style_count(&self) -> (r: usize)
        ensures
            r == self@.styles.len(),
    {
        self.styles.len()
    }

    /// The display rule at position `index`, in the order of registration.
    pub fn style(&self, index: usize) -> (r: Option<&StyleRule>)
        ensures
            index < self@.styles.len() ==> r is Some && r->Some_0@ == self@.styles[index as int],
            index >= self@.styles.len() ==> r is None,
    {
        if index < self.styles.len() {
            Some(&self.styles[index])
        } else {
            None
        }
    }

    /// What to hand to the renderer to set the locales of the category
    /// `category` for the beginning and the end of drawing. A locale with a
    /// zero byte is refused.
    pub fn set_locales(&self, category: i32, begin_locale: &str, end_locale: &str) -> (r: Result<
        LocaleRequest,
        DialogError,
    >)
        ensures
            match first_refused_locale(begin_locale@, end_locale@) {
                Some(which) => r == Err::<LocaleRequest, DialogError>(
                    DialogError::InvalidArgument(which),
                ),
                None => r is Ok && r->Ok_0.category == category && r->Ok_0.begin_locale@
                    == begin_locale@ && r->Ok_0.end_locale@ == end_locale@,
            },
    {
        if contains_nul(begin_locale) {
            return Err(DialogError::InvalidArgument(Argument::BeginLocale));
        }
        if contains_nul(end_locale) {
            return Err(DialogError::InvalidArgument(Argument::EndLocale));
        }
        Ok(
            LocaleRequest {
                category,
                begin_locale: begin_locale.to_owned(),
                end_locale: end_locale.to_owned(),
            },
        )
    }
}

/// Drawing a frame while the dialog is closed ends nothing and leaves it
/// closed, whatever the frame is said to have brought.
pub proof fn law_closed_frame_changes_nothing(outcome: FrameOutcome)
    ensures
        !frame_ends(DialogState::Closed, outcome),
        after_frame(DialogState::Closed, outcome) == DialogState::Closed,
{
}

/// No frame leaves a dialog in the opened-this-frame state, and an open
/// call never leaves it closed.
pub proof fn law_opened_lasts_one_frame(state: DialogState, outcome: FrameOutcome)
    ensures
        after_frame(state, outcome) != DialogState::OpenedThisFrame,
        after_open(state) == DialogState::OpenedThisFrame <==> state != DialogState::Open,
        after_open(state) != DialogState::Closed,
{
}

/// A frame ends a shown dialog exactly when it takes it to closed; any other
/// frame leaves it open.
pub proof fn law_frame_ends_iff_closes(state: DialogState, outcome: FrameOutcome)
    requires
        state != DialogState::Closed,
    ensures
        frame_ends(state, outcome) <==> after_frame(state, outcome) == DialogState::Closed,
        !frame_ends(state, outcome) <==> after_frame(state, outcome) == DialogState::Open,
{
}

} // verus!
