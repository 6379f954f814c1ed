use catalog_bot::markup::{cancel_markup, inline_keyboard, make_keyboard};
use catalog_bot::reply::Button;
use teloxide::types::{
    InlineKeyboardButton, InlineKeyboardMarkup, KeyboardButton, KeyboardMarkup, ReplyMarkup,
};

#[test]
fn make_keyboard_shows_the_labels_row_by_row() {
    let made = make_keyboard(vec![
        vec!["a".to_string(), "b".to_string()],
        vec![],
        vec!["в".to_string()],
    ]);
    let expected = KeyboardMarkup::new(vec![
        vec![KeyboardButton::new("a"), KeyboardButton::new("b")],
        vec![],
        vec![KeyboardButton::new("в")],
    ])
    .resize_keyboard(true);
    assert_eq!(made, ReplyMarkup::Keyboard(expected));
}

#[test]
fn make_keyboard_of_nothing_is_an_empty_keyboard() {
    match make_keyboard(vec![]) {
        ReplyMarkup::Keyboard(markup) => {
            assert!(markup.keyboard.is_empty());
            assert_eq!(markup.resize_keyboard, Some(true));
            assert_eq!(markup.one_time_keyboard, None);
        }
        other => panic!("not a reply keyboard: {:?}", other),
    }
}

#[test]
fn cancel_markup_has_one_button() {
    match cancel_markup() {
        ReplyMarkup::Keyboard(markup) => {
            assert_eq!(markup.keyboard, vec![vec![KeyboardButton::new("/ ")]]);
            assert_eq!(markup.resize_keyboard, Some(true));
        }
        other => panic!("not a reply keyboard: {:?}", other),
    }
}

#[test]
fn inline_keyboard_holds_label_and_payload_of_each_button() {
    let buttons = vec![
        vec![
            Button { label: "One Piece".to_string(), route: "view-work:1".to_string() },
            Button { label: "Добавить".to_string(), route: "add-work".to_string() },
        ],
        vec![Button { label: "Назад".to_string(), route: "view-work:6".to_string() }],
    ];
    let expected = InlineKeyboardMarkup::new(vec![
        vec![
            InlineKeyboardButton::callback("One Piece", "view-work:1"),
            InlineKeyboardButton::callback("Добавить", "add-work"),
        ],
        vec![InlineKeyboardButton::callback("Назад", "view-work:6")],
    ]);
    assert_eq!(inline_keyboard(&buttons), expected);
    assert_eq!(inline_keyboard(&vec![]), InlineKeyboardMarkup::new(Vec::<Vec<InlineKeyboardButton>>::new()));
}
