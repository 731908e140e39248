//! The dialog in which a local service is shared.

use vstd::prelude::*;
use vstd::string::*;

use crate::text;
use crate::tunnel_update;
use crate::tunnel_update::{Moment, TunnelEvent, TunnelTexts};
use crate::tunnels::{
    LocalServiceSuggestion, PeerKey, SuggestionView, TunnelsMessage, TunnelsState, TunnelsView,
};
use crate::tunnels;

verus! {

/// The keys of the dialog's texts.
#[derive(Debug, Clone, Copy)]
pub struct ShareDialogLabels {
    pub title: &'static str,
    pub subtitle: &'static str,
    pub cancel: &'static str,
    pub creating: &'static str,
    pub create: &'static str,
}

/// The keys of the dialog's texts.
pub fn share_dialog_labels() -> (labels: ShareDialogLabels)
    ensures
        labels.title@ == "tunnels.create"@,
        labels.subtitle@ == "tunnels.subtitle"@,
        labels.cancel@ == "common.cancel"@,
        labels.creating@ == "tunnels.creating"@,
        labels.create@ == "tunnels.create"@,
{
    ShareDialogLabels {
        title: "tunnels.create",
        subtitle: "tunnels.subtitle",
        cancel: "common.cancel",
        creating: "tunnels.creating",
        create: "tunnels.create",
    }
}

/// One local service that was found, as the dialog shows it.
#[derive(Debug)]
pub struct SuggestionRow {
    /// What the service is called.
    pub label: String,
    /// The port, by which the row is picked.
    pub port: u16,
    /// The port as it is shown.
    pub port_label: String,
    /// Whether the row carries the badge of an HTTP service.
    pub http_badge: bool,
    /// Whether its port stands in the dialog.
    pub selected: bool,
}

/// What a [`SuggestionRow`] holds.
pub struct RowView {
    pub label: Seq<char>,
    pub port: u16,
    pub port_label: Seq<char>,
    pub http_badge: bool,
    pub selected: bool,
}

impl View for SuggestionRow {
    type V = RowView;

    open spec fn view(&self) -> RowView {
        RowView {
            label: self.label@,
            port: self.port,
            port_label: self.port_label@,
            http_badge: self.http_badge,
            selected: self.selected,
        }
    }
}

/// The row of a suggestion, where `entered` stands in the field for the port.
pub open spec fn row_of(suggestion: SuggestionView, entered: Seq<char>) -> RowView {
    RowView {
        label: suggestion.label,
        port: suggestion.port,
        port_label: ":"@ + text::decimal(suggestion.port as nat),
        http_badge: suggestion.is_http,
        selected: text::trimmed(entered) == text::decimal(suggestion.port as nat),
    }
}

/// What each row of a list holds.
pub open spec fn row_views(rows: Seq<SuggestionRow>) -> Seq<RowView> {
    rows.map_values(|r: SuggestionRow| r@)
}

/// The rows of the suggestions.
pub open spec fn rows_of(suggestions: Seq<SuggestionView>, entered: Seq<char>) -> Seq<RowView> {
    suggestions.map_values(|s: SuggestionView| row_of(s, entered))
}

/// What the dialog says of the local services.
#[derive(Debug)]
pub enum SuggestionsSection {
    /// They are being looked for.
    Scanning,
    /// None was found.
    NoneFound,
    /// These were found.
    Found(Vec<SuggestionRow>),
}

/// What a [`SuggestionsSection`] holds.
pub enum SectionView {
    Scanning,
    NoneFound,
    Found(Seq<RowView>),
}

impl View for SuggestionsSection {
    type V = SectionView;

    open spec fn view(&self) -> SectionView {
        match self {
            SuggestionsSection::Scanning => SectionView::Scanning,
            SuggestionsSection::NoneFound => SectionView::NoneFound,
            SuggestionsSection::Found(rows) => SectionView::Found(row_views(rows@)),
        }
    }
}

/// The dialog as it is shown.
#[derive(Debug)]
pub struct ShareDialog {
    /// What is wrong, below the fields for the name and the port.
    pub error: Option<String>,
    /// Whether the dialog can be confirmed, by its button or from a field.
    pub confirm_enabled: bool,
    /// Whether the button that cancels can be pressed.
    pub cancel_enabled: bool,
    /// The key of the text on the button that confirms.
    pub confirm_label: &'static str,
    /// The local services.
    pub suggestions: SuggestionsSection,
}

/// The dialog can be confirmed where its port can be used and nothing is being submitted.
pub open spec fn can_confirm(state: TunnelsView) -> bool {
    tunnel_update::usable_port(state.port) is Some && !state.submitting
}

/// What the dialog says of the local services.
pub open spec fn section_of(state: TunnelsView) -> SectionView {
    if state.scanning {
        SectionView::Scanning
    } else if state.suggestions.len() == 0 {
        SectionView::NoneFound
    } else {
        SectionView::Found(rows_of(state.suggestions, state.port))
    }
}

impl TunnelsState {
    /// One local service that was found, as the dialog shows it.
    pub fn view_local_service_suggestion_row(&self, suggestion: &LocalServiceSuggestion) -> (row:
        SuggestionRow)
        ensures
            row@ == row_of(suggestion@, self@.port),
    {
        let entered = text::trim(self.share_service_port.as_str());
        let number = text::decimal_text(suggestion.port as u64);
        let mut port_label = ":".to_owned();
        port_label.append(number.as_str());
        SuggestionRow {
            label: suggestion.label.clone(),
            port: suggestion.port,
            port_label,
            http_badge: suggestion.is_http,
            selected: text::same_text(entered.as_str(), number.as_str()),
        }
    }

    /// The dialog as it is shown.
    pub fn view_share_local_service_dialog(&self) -> (dialog: ShareDialog)
        ensures
            text::opt_text(dialog.error) == self@.share_error,
            dialog.confirm_enabled == can_confirm(self@),
            dialog.cancel_enabled == !self@.submitting,
            dialog.confirm_label@ == if self@.submitting {
                "tunnels.creating"@
            } else {
                "tunnels.create"@
            },
            dialog.suggestions@ == section_of(self@),
    {
        let labels = share_dialog_labels();
        let submitting = self.share_service_submitting;
        let port_valid = tunnel_update::parse_port(self.share_service_port.as_str()).is_some();
        let suggestions = if self.share_service_scanning {
            SuggestionsSection::Scanning
        } else if self.share_service_suggestions.len() == 0 {
            SuggestionsSection::NoneFound
        } else {
            let mut rows: Vec<SuggestionRow> = Vec::new();
            let mut i: usize = 0;
            while i < self.share_service_suggestions.len()
                invariant
                    i <= self.share_service_suggestions.len(),
                    rows@.len() == i,
                    forall|k: int|
                        0 <= k < i ==> (#[trigger] rows@[k])@ == row_of(
                            self.share_service_suggestions@[k]@,
                            self@.port,
                        ),
                decreases self.share_service_suggestions.len() - i,
            {
                rows.push(
                    self.view_local_service_suggestion_row(&self.share_service_suggestions[i]),
                );
                i += 1;
            }
            assert(row_views(rows@) =~= rows_of(self@.suggestions, self@.port));
            SuggestionsSection::Found(rows)
        };
        ShareDialog {
            error: text::clone_opt(&self.share_service_error),
            confirm_enabled: port_valid && !submitting,
            cancel_enabled: !submitting,
            confirm_label: if submitting {
                labels.creating
            } else {
                labels.create
            },
            suggestions,
        }
    }
}

/// Confirming does something exactly where the dialog lets itself be confirmed: with a friend
/// whose client can, it goes on to a tunnel; otherwise it creates nothing.
pub proof fn enabled_means_confirmable(
    state: TunnelsView,
    peer: PeerKey,
    texts: TunnelTexts,
    moment: Moment,
)
    ensures
        ({
            let event = TunnelEvent::ConfirmShareLocalService {
                profile: Some(peer),
                supported: true,
            };
            let effects = tunnel_update::transition(state, event, texts, moment).effects;
            can_confirm(state) <==> effects.len() == 1 && (effects[0] is CreateTunnel
                || effects[0] is CheckVncSource)
        }),
{
}

/// A service that was picked stands selected in the dialog, which can be confirmed with it.
pub proof fn picked_service_is_selected(state: TunnelsView, port: u16, now: std::time::Instant)
    requires
        tunnels::suggestion_at(state.suggestions, port) is Some,
    ensures
        ({
            let after = state.updated(
                TunnelsMessage::SelectShareLocalServiceSuggestion(port),
                now,
            );
            let picked = tunnels::suggestion_at(state.suggestions, port)->0;
            &&& picked.port == port
            &&& row_of(picked, after.port).selected
            &&& after.name == picked.label
            &&& after.is_http == picked.is_http
            &&& after.share_error is None
            &&& port != 0 && !state.submitting ==> can_confirm(after)
        }),
{
    lemma_found_port(state.suggestions, port);
    text::decimal_is_read_back(port);
}

proof fn lemma_found_port(list: Seq<SuggestionView>, port: u16)
    requires
        tunnels::suggestion_at(list, port) is Some,
    ensures
        tunnels::suggestion_at(list, port)->0.port == port,
    decreases list.len(),
{
    if list[0].port != port {
        lemma_found_port(list.drop_first(), port);
    }
}

/// The dialog's texts have these keys.
pub proof fn dialog_texts_have_their_keys(labels: ShareDialogLabels)
    requires
        call_ensures(share_dialog_labels, (), labels),
    ensures
        labels.title@ == "tunnels.create"@ && labels.create@ == "tunnels.create"@,
        labels.subtitle@ == "tunnels.subtitle"@,
        labels.cancel@ == "common.cancel"@,
        labels.creating@ == "tunnels.creating"@,
{
}

/// The row of a service shows its name, its port behind a colon and whether it is HTTP, and is
/// selected exactly where its port is the one entered.
pub proof fn rows_show_the_service(suggestion: SuggestionView, entered: Seq<char>)
    ensures
        ({
            let row = row_of(suggestion, entered);
            &&& row.label == suggestion.label && row.port == suggestion.port && row.http_badge
                == suggestion.is_http
            &&& row.port_label.len() > 1 && row.port_label[0] == ':' && row.port_label.skip(1)
                == text::decimal(suggestion.port as nat)
            &&& row.selected <==> text::trimmed(entered) == text::decimal(suggestion.port as nat)
            &&& row.selected ==> text::u16_value(text::trimmed(entered)) == Some(suggestion.port)
        }),
{
    reveal_strlit(":");
    text::decimal_is_read_back(suggestion.port);
    text::lemma_decimal_digits(suggestion.port as nat);
    assert(row_of(suggestion, entered).port_label.skip(1) =~= text::decimal(
        suggestion.port as nat,
    ));
}

/// The dialog can be confirmed exactly with a port that can be used and while nothing is being
/// submitted, and cancelled exactly while nothing is; it says what is wrong and what is found.
pub proof fn dialogs_show_their_state(state: TunnelsState, dialog: ShareDialog, i: int)
    requires
        call_ensures(TunnelsState::view_share_local_service_dialog, (&state,), dialog),
    ensures
        dialog.confirm_enabled <==> !state@.submitting && tunnel_update::usable_port(
            state@.port,
        ) is Some,
        dialog.cancel_enabled <==> !state@.submitting,
        dialog.confirm_label@ == "tunnels.creating"@ <==> state@.submitting,
        dialog.confirm_label@ == "tunnels.create"@ <==> !state@.submitting,
        text::opt_text(dialog.error) == state@.share_error,
        dialog.suggestions@ is Scanning <==> state@.scanning,
        dialog.suggestions@ is NoneFound <==> !state@.scanning && state@.suggestions.len() == 0,
        dialog.suggestions@ matches SectionView::Found(rows) ==> rows.len()
            == state@.suggestions.len() && (0 <= i < rows.len() ==> rows[i] == row_of(
            state@.suggestions[i],
            state@.port,
        )),
{
    reveal_strlit("tunnels.creating");
    reveal_strlit("tunnels.create");
    assert("tunnels.creating"@.len() == 16);
    assert("tunnels.create"@.len() == 14);
}

/// The row of a service is drawn with what the dialog holds.
pub proof fn rows_are_drawn_with_the_entries(
    state: TunnelsState,
    suggestion: LocalServiceSuggestion,
    row: SuggestionRow,
)
    requires
        call_ensures(
            TunnelsState::view_local_service_suggestion_row,
            (&state, &suggestion),
            row,
        ),
    ensures
        row.label@ == suggestion.label@ && row.port == suggestion.port && row.http_badge
            == suggestion.is_http,
        row.port_label@ == ":"@ + text::decimal(suggestion.port as nat),
        row.selected <==> text::trimmed(state.share_service_port@) == text::decimal(
            suggestion.port as nat,
        ),
{
    assert(row@ == row_of(suggestion@, state@.port));
}

} // verus!
