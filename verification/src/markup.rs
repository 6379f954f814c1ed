//! The keyboards of the transport, made from the labels and buttons of the bot.

use vstd::prelude::*;
use teloxide::types::{InlineKeyboardButton, InlineKeyboardMarkup, KeyboardButton, KeyboardMarkup, ReplyMarkup};
use crate::reply::{row_views, Button, ButtonView};

verus! {

#[verifier::external_type_specification]
#[verifier::external_body]
pub struct ExKeyboardButton(teloxide::types::KeyboardButton);

#[verifier::external_type_specification]
#[verifier::external_body]
pub struct ExKeyboardMarkup(teloxide::types::KeyboardMarkup);

#[verifier::external_type_specification]
#[verifier::external_body]
pub struct ExReplyMarkup(teloxide::types::ReplyMarkup);

#[verifier::external_type_specification]
#[verifier::external_body]
pub struct ExInlineKeyboardButton(teloxide::types::InlineKeyboardButton);

#[verifier::external_type_specification]
#[verifier::external_body]
pub struct ExInlineKeyboardMarkup(teloxide::types::InlineKeyboardMarkup);

/// The text on a button of a reply keyboard.
pub uninterp spec fn key_text(button: KeyboardButton) -> Seq<char>;

/// The texts on the buttons of a reply keyboard, row by row.
pub uninterp spec fn keyboard_texts(markup: KeyboardMarkup) -> Seq<Seq<Seq<char>>>;

/// Whether a reply keyboard asks to be resized, where it says so.
pub uninterp spec fn keyboard_resize(markup: KeyboardMarkup) -> Option<bool>;

/// The texts on the buttons of the reply keyboard that a markup holds, row by row.
pub uninterp spec fn reply_texts(markup: ReplyMarkup) -> Seq<Seq<Seq<char>>>;

/// Whether the reply keyboard that a markup holds asks to be resized, where it says so.
pub uninterp spec fn reply_resize(markup: ReplyMarkup) -> Option<bool>;

/// The label of an inline button and the data that a press of it sends back.
pub uninterp spec fn inline_button(button: InlineKeyboardButton) -> ButtonView;

/// The buttons of an inline keyboard, row by row.
pub uninterp spec fn inline_buttons(markup: InlineKeyboardMarkup) -> Seq<Seq<ButtonView>>;

/// The texts on a row of buttons of a reply keyboard.
pub open spec fn key_texts(row: Seq<KeyboardButton>) -> Seq<Seq<char>> {
    row.map_values(|button: KeyboardButton| key_text(button))
}

/// The texts on rows of buttons of a reply keyboard.
pub open spec fn key_rows(rows: Seq<Vec<KeyboardButton>>) -> Seq<Seq<Seq<char>>> {
    rows.map_values(|row: Vec<KeyboardButton>| key_texts(row@))
}

/// The labels of a row, each as a sequence of characters.
pub open spec fn label_views(row: Seq<String>) -> Seq<Seq<char>> {
    row.map_values(|label: String| label@)
}

/// The labels of rows, each as a sequence of characters.
pub open spec fn label_rows(rows: Seq<Vec<String>>) -> Seq<Seq<Seq<char>>> {
    rows.map_values(|row: Vec<String>| label_views(row@))
}

/// A row of inline buttons, each as label and data.
pub open spec fn inline_row(row: Seq<InlineKeyboardButton>) -> Seq<ButtonView> {
    row.map_values(|button: InlineKeyboardButton| inline_button(button))
}

/// Rows of inline buttons, each button as label and data.
pub open spec fn inline_rows(rows: Seq<Vec<InlineKeyboardButton>>) -> Seq<Seq<ButtonView>> {
    rows.map_values(|row: Vec<InlineKeyboardButton>| inline_row(row@))
}

/// `KeyboardButton::new` of teloxide: the button shows the text that was
/// given. Not proved here.
#[verifier::external_body]
fn key(text: &str) -> (button: KeyboardButton)
    ensures
        key_text(button) == text@,
{
    KeyboardButton::new(text)
}

/// `KeyboardMarkup::new` of teloxide: the keyboard holds the rows that were
/// given, in their order, and says nothing on resizing. Not proved here.
#[verifier::external_body]
fn keyboard(rows: Vec<Vec<KeyboardButton>>) -> (markup: KeyboardMarkup)
    ensures
        keyboard_texts(markup) == key_rows(rows@),
        keyboard_resize(markup) == None::<bool>,
{
    KeyboardMarkup::new(rows)
}

/// `KeyboardMarkup::resize_keyboard` of teloxide: the same buttons, and the
/// keyboard now says what was given on resizing. Not proved here.
#[verifier::external_body]
fn resized(markup: KeyboardMarkup, resize: bool) -> (r: KeyboardMarkup)
    ensures
        keyboard_texts(r) == keyboard_texts(markup),
        keyboard_resize(r) == Some(resize),
{
    markup.resize_keyboard(resize)
}

/// `ReplyMarkup::Keyboard` of teloxide: the markup holds the reply keyboard
/// that was given. Not proved here.
#[verifier::external_body]
fn reply_keyboard(markup: KeyboardMarkup) -> (r: ReplyMarkup)
    ensures
        reply_texts(r) == keyboard_texts(markup),
        reply_resize(r) == keyboard_resize(markup),
{
    ReplyMarkup::Keyboard(markup)
}

/// `InlineKeyboardButton::callback` of teloxide: the button shows the text
/// that was given, and a press sends back the data that was given. Not proved here.
#[verifier::external_body]
fn callback_button(label: &str, data: &str) -> (button: InlineKeyboardButton)
    ensures
        inline_button(button) == (ButtonView { label: label@, route: data@ }),
{
    InlineKeyboardButton::callback(label, data)
}

/// `InlineKeyboardMarkup::new` of teloxide: the keyboard holds the rows
/// that were given, in their order. Not proved here.
#[verifier::external_body]
fn inline(rows: Vec<Vec<InlineKeyboardButton>>) -> (markup: InlineKeyboardMarkup)
    ensures
        inline_buttons(markup) == inline_rows(rows@),
{
    InlineKeyboardMarkup::new(rows)
}

/// Makes a reply keyboard that shows the given labels, row by row, and asks
/// to be resized.
pub fn make_keyboard(keyboard: Vec<Vec<String>>) -> (r: ReplyMarkup)
    ensures
        reply_texts(r) == label_rows(keyboard@),
        reply_resize(r) == Some(true),
{
    let ghost labels = label_rows(keyboard@);
    let mut rows: Vec<Vec<KeyboardButton>> = Vec::new();
    let mut i: usize = 0;
    assert(key_rows(rows@) =~= labels.take(0));
    while i < keyboard.len()
        invariant
            0 <= i <= keyboard.len(),
            labels == label_rows(keyboard@),
            key_rows(rows@) == labels.take(i as int),
        decreases keyboard.len() - i,
    {
        let source = &keyboard[i];
        let ghost texts = label_views(source@);
        let mut row: Vec<KeyboardButton> = Vec::new();
        let mut j: usize = 0;
        assert(key_texts(row@) =~= texts.take(0));
        while j < source.len()
            invariant
                0 <= j <= source.len(),
                texts == label_views(source@),
                key_texts(row@) == texts.take(j as int),
            decreases source.len() - j,
        {
            let button = key(source[j].as_str());
            proof {
                assert(key_texts(row@.push(button)) =~= key_texts(row@).push(key_text(button)));
                assert(texts.take(j + 1) =~= texts.take(j as int).push(source@[j as int]@));
            }
            row.push(button);
            j += 1;
        }
        proof {
            assert(texts.take(j as int) =~= texts);
            assert(key_rows(rows@.push(row)) =~= key_rows(rows@).push(key_texts(row@)));
            assert(labels.take(i + 1) =~= labels.take(i as int).push(texts));
        }
        rows.push(row);
        i += 1;
    }
    assert(labels.take(i as int) =~= labels);
    reply_keyboard(resized(self::keyboard(rows), true))
}

/// The labels of the keyboard that offers to cancel.
pub open spec fn cancel_labels() -> Seq<Seq<Seq<char>>> {
    seq![seq!["/ "@]]
}

/// Makes the reply keyboard that offers to cancel: one button.
pub fn cancel_markup() -> (r: ReplyMarkup)
    ensures
        reply_texts(r) == cancel_labels(),
        reply_resize(r) == Some(true),
{
    let mut row: Vec<String> = Vec::new();
    row.push(String::from_str("/ "));
    let mut rows: Vec<Vec<String>> = Vec::new();
    assert(label_views(row@) =~= seq!["/ "@]);
    rows.push(row);
    assert(label_rows(rows@) =~= cancel_labels());
    make_keyboard(rows)
}

/// Makes the inline keyboard that holds the buttons of a reply, row by row.
pub fn inline_keyboard(buttons: &Vec<Vec<Button>>) -> (r: InlineKeyboardMarkup)
    ensures
        inline_buttons(r) == row_views(buttons@),
{
    let ghost views = row_views(buttons@);
    let mut rows: Vec<Vec<InlineKeyboardButton>> = Vec::new();
    let mut i: usize = 0;
    assert(inline_rows(rows@) =~= views.take(0));
    while i < buttons.len()
        invariant
            0 <= i <= buttons.len(),
            views == row_views(buttons@),
            inline_rows(rows@) == views.take(i as int),
        decreases buttons.len() - i,
    {
        let source = &buttons[i];
        let ghost wanted = crate::reply::button_views(source@);
        let mut row: Vec<InlineKeyboardButton> = Vec::new();
        let mut j: usize = 0;
        assert(inline_row(row@) =~= wanted.take(0));
        while j < source.len()
            invariant
                0 <= j <= source.len(),
                wanted == crate::reply::button_views(source@),
                inline_row(row@) == wanted.take(j as int),
            decreases source.len() - j,
        {
            let button = callback_button(source[j].label.as_str(), source[j].route.as_str());
            proof {
                assert(inline_row(row@.push(button)) =~= inline_row(row@).push(inline_button(button)));
                assert(wanted.take(j + 1) =~= wanted.take(j as int).push(source@[j as int]@));
            }
            row.push(button);
            j += 1;
        }
        proof {
            assert(wanted.take(j as int) =~= wanted);
            assert(inline_rows(rows@.push(row)) =~= inline_rows(rows@).push(inline_row(row@)));
            assert(views.take(i + 1) =~= views.take(i as int).push(wanted));
        }
        rows.push(row);
        i += 1;
    }
    assert(views.take(i as int) =~= views);
    inline(rows)
}

} // verus!
