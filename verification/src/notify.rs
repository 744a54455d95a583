//! What is told to the notification channel after an update, and in which
//! colour.

use crate::provider::{UpdateOutcome, UpdateOutcomeView};
use rand::seq::SliceRandom;
use vstd::prelude::*;
use vstd::string::*;

verus! {

/// The colours in which a notification can be shown.
#[derive(Clone, Copy, Debug, PartialEq, Eq, Structural)]
pub enum Accent {
    BlitzBlue,
    DarkPurple,
    Fooyoo,
    Red,
    Kerbal,
}

/// The colours among which one is drawn for a notification of success.
pub open spec fn palette() -> Seq<Accent> {
    seq![Accent::BlitzBlue, Accent::DarkPurple, Accent::Fooyoo, Accent::Red, Accent::Kerbal]
}

/// The colours among which one is drawn for a notification of success.
pub fn success_palette() -> (r: Vec<Accent>)
    ensures
        r@ == palette(),
{
    let r = vec![Accent::BlitzBlue, Accent::DarkPurple, Accent::Fooyoo, Accent::Red, Accent::Kerbal];
    assert(r@ =~= palette());
    r
}

/// Draws one colour of `colours` at random: `rand::seq::SliceRandom::choose`
/// on the slice, fed by `rand::thread_rng()`. Taken on trust: it yields
/// nothing for an empty slice and otherwise one element of the slice. Which
/// one is left open: two draws may differ. The generator is seeded from the
/// operating system on a thread's first draw and panics if that fails.
#[verifier::external_body]
fn draw_accent(colours: &Vec<Accent>) -> (r: Option<Accent>)
    ensures
        colours@.len() == 0 ==> r is None,
        colours@.len() > 0 ==> r is Some && colours@.contains(r->0),
{
    colours.choose(&mut rand::thread_rng()).copied()
}

/// The colour of a notification, given what was drawn for it: red for an
/// error, whatever was drawn; else the colour drawn, and the palette's first
/// where nothing was drawn.
pub open spec fn accent_spec(is_error: bool, drawn: Option<Accent>) -> Accent {
    if is_error {
        Accent::Red
    } else {
        match drawn {
            Some(colour) => colour,
            None => Accent::BlitzBlue,
        }
    }
}

/// The colour of a notification, given what was drawn for it.
pub fn accent_for(is_error: bool, drawn: Option<Accent>) -> (r: Accent)
    ensures
        r == accent_spec(is_error, drawn),
{
    if is_error {
        Accent::Red
    } else {
        match drawn {
            Some(colour) => colour,
            None => Accent::BlitzBlue,
        }
    }
}

/// The colour of a new notification: red for an error, else one of the
/// palette, drawn at random.
pub fn pick_accent(is_error: bool) -> (r: Accent)
    ensures
        is_error ==> r == Accent::Red,
        !is_error ==> palette().contains(r),
{
    if is_error {
        accent_for(true, None)
    } else {
        let colours = success_palette();
        let drawn = draw_accent(&colours);
        accent_for(false, drawn)
    }
}

/// The title that every notification carries.
pub fn notification_title() -> (r: &'static str)
    ensures
        r@ == "**New Call! - Webhook**"@,
{
    "**New Call! - Webhook**"
}

/// The author line that every notification carries.
pub fn notification_author() -> (r: &'static str)
    ensures
        r@ == "SkySync - Webhook"@,
{
    "SkySync - Webhook"
}

/// The text that reports a successful update of the record `name`.
pub open spec fn success_message(name: Seq<char>) -> Seq<char> {
    "O IP público do domínio "@ + name + " foi atualizado com sucesso!"@
}

/// The text that reports a failed update of the record `name`, with the
/// provider's `error` quoted below it.
pub open spec fn failure_message(name: Seq<char>, error: Seq<char>) -> Seq<char> {
    "Falha ao atualizar o IP público do domínio "@ + name + "!\n\n```"@ + error + "```"@
}

/// One message for the notification channel.
#[derive(Clone, Debug, PartialEq, Eq)]
pub struct Notification {
    pub body: String,
    pub is_error: bool,
    pub accent: Accent,
}

/// What a `Notification` holds, as plain values.
pub struct NotificationView {
    pub body: Seq<char>,
    pub is_error: bool,
    pub accent: Accent,
}

impl View for Notification {
    type V = NotificationView;

    open spec fn view(&self) -> NotificationView {
        NotificationView { body: self.body@, is_error: self.is_error, accent: self.accent }
    }
}

/// The notification that follows the provider's answer `outcome` to an update
/// of the record `name`, in the colour `accent` where the update succeeded:
/// no error and the text of success where the provider says so; else an
/// error, in red, with the text of failure and the first error reported.
pub open spec fn notification_spec(
    name: Seq<char>,
    outcome: UpdateOutcomeView,
    accent: Accent,
) -> NotificationView {
    if outcome.success {
        NotificationView { body: success_message(name), is_error: false, accent }
    } else {
        NotificationView {
            body: failure_message(name, outcome.first_error()),
            is_error: true,
            accent: Accent::Red,
        }
    }
}

/// The notification that follows `outcome`, given what was drawn for its
/// colour.
pub fn notification_for(name: &str, outcome: &UpdateOutcome, drawn: Option<Accent>) -> (r:
    Notification)
    ensures
        r@ == notification_spec(name@, outcome@, accent_spec(!outcome.success, drawn)),
{
    let accent = accent_for(!outcome.success, drawn);
    if outcome.success {
        let mut body = String::from_str("O IP público do domínio ");
        body.append(name);
        body.append(" foi atualizado com sucesso!");
        Notification { body, is_error: false, accent }
    } else {
        let mut body = String::from_str("Falha ao atualizar o IP público do domínio ");
        body.append(name);
        body.append("!\n\n```");
        body.append(outcome.first_error());
        body.append("```");
        Notification { body, is_error: true, accent }
    }
}

/// The notification that follows `outcome`, its colour drawn at random where
/// the update succeeded.
pub fn notify_update(name: &str, outcome: &UpdateOutcome) -> (r: Notification)
    ensures
        r@ == notification_spec(name@, outcome@, r.accent),
        outcome.success ==> palette().contains(r.accent),
{
    if outcome.success {
        let colours = success_palette();
        let drawn = draw_accent(&colours);
        notification_for(name, outcome, drawn)
    } else {
        notification_for(name, outcome, None)
    }
}

} // verus!
