//! Replies: the text and the buttons that the bot sends back.

use vstd::prelude::*;
use crate::error::Error;
use crate::message::Message;
use crate::route::Route;

verus! {

/// A button under a reply: what it shows and the payload that a press sends back.
#[derive(Debug, PartialEq, Eq)]
pub struct Button {
    pub label: String,
    pub route: String,
}

/// A button as a mathematical value.
#[verifier::ext_equal]
pub struct ButtonView {
    pub label: Seq<char>,
    pub route: Seq<char>,
}

impl View for Button {
    type V = ButtonView;

    open spec fn view(&self) -> ButtonView {
        ButtonView { label: self.label@, route: self.route@ }
    }
}

/// What the bot sends back: a text, and under it rows of buttons.
#[derive(Debug, PartialEq, Eq)]
pub struct Reply {
    pub text: String,
    pub buttons: Vec<Vec<Button>>,
}

/// A reply as a mathematical value.
#[verifier::ext_equal]
pub struct ReplyView {
    pub text: Seq<char>,
    pub buttons: Seq<Seq<ButtonView>>,
}

/// The buttons of a row, each as a mathematical value.
pub open spec fn button_views(row: Seq<Button>) -> Seq<ButtonView> {
    row.map_values(|b: Button| b@)
}

/// The rows of buttons, each as a mathematical value.
pub open spec fn row_views(rows: Seq<Vec<Button>>) -> Seq<Seq<ButtonView>> {
    rows.map_values(|row: Vec<Button>| button_views(row@))
}

impl View for Reply {
    type V = ReplyView;

    open spec fn view(&self) -> ReplyView {
        ReplyView { text: self.text@, buttons: row_views(self.buttons@) }
    }
}

/// The button that shows `label` and leads to `route`.
pub open spec fn button_to(label: Seq<char>, route: Route) -> ButtonView {
    ButtonView { label, route: route.token() }
}

/// The reply that holds a fixed text and no button.
pub open spec fn plain(message: Message) -> ReplyView {
    ReplyView { text: message.text(), buttons: Seq::empty() }
}

/// The reply that tells the user of the error `e`.
pub open spec fn failure(e: Error) -> ReplyView {
    plain(Message::of_error(e))
}

impl Button {
    /// Makes the button that shows `label` and leads to `route`.
    pub fn to(label: String, route: Route) -> (r: Button)
        ensures
            r@ == button_to(label@, route),
    {
        Button { label, route: route.payload() }
    }
}

impl Reply {
    /// Makes the reply that holds a fixed text and no button.
    pub fn plain(message: Message) -> (r: Reply)
        ensures
            r@ == plain(message),
    {
        let r = Reply { text: String::from_str(message.as_str()), buttons: Vec::new() };
        assert(row_views(r.buttons@) =~= Seq::empty());
        r
    }

    /// Makes the reply that tells the user of the error `e`.
    pub fn failure(e: Error) -> (r: Reply)
        ensures
            r@ == failure(e),
    {
        Reply::plain(Message::for_error(e))
    }

    /// Makes the reply that holds `text` and one row of buttons.
    pub fn with_row(text: String, row: Vec<Button>) -> (r: Reply)
        ensures
            r@ == (ReplyView { text: text@, buttons: seq![button_views(row@)] }),
    {
        let mut buttons: Vec<Vec<Button>> = Vec::new();
        let ghost views = button_views(row@);
        buttons.push(row);
        let r = Reply { text, buttons };
        assert(row_views(r.buttons@) =~= seq![views]);
        r
    }
}

} // verus!
