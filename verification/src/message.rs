//! The fixed texts that the bot sends.

use vstd::prelude::*;
use crate::error::Error;

verus! {

/// A fixed text of the bot.
#[derive(Clone, Copy, Debug, PartialEq, Eq, Structural)]
pub enum Message {
    /// Asks for the title of a new work.
    AskTitle,
    /// Asks for the kind of a new work.
    AskKind,
    /// Asks for the description of a new work.
    AskDescription,
    /// Asks for the label of a new chapter.
    AskLabel,
    /// Asks for the link of a new chapter.
    AskLink,
    /// Lists the commands.
    Help,
    /// Greets a new user.
    Greeting,
    /// Answers a ping.
    Pong,
    /// Heads the list of works.
    Catalogue,
    /// Heads the list of chapters of a work.
    Chapters,
    /// Confirms that a work was added.
    WorkAdded,
    /// Confirms that a work was deleted.
    WorkDeleted,
    /// Labels the button that adds an entry.
    Add,
    /// Labels the button that leads back to the work.
    Back,
    /// Says that what was sent could not be read.
    Invalid,
    /// Says that nothing has the identifier that was asked for.
    NotFound,
    /// Apologises for a failure of the store.
    Apology,
    /// Says that the command or button was not understood.
    NotUnderstood,
}

impl Message {
    /// The text of the message.
    pub open spec fn text(self) -> Seq<char> {
        match self {
            Message::AskTitle => "Введите название произведения: "@,
            Message::AskKind => "Тип произведения (manga, ranobe):"@,
            Message::AskDescription => "Описание произведения:"@,
            Message::AskLabel => "Номер главы:"@,
            Message::AskLink => "Ссылка:"@,
            Message::Help => "These commands are supported:\n\n/help — :)\n/start — Start\n/ping — Ping-pong\n/bookadd — Добавить произведение\n/chapteradd — Добавить главу\n/menu — Главное меню"@,
            Message::Greeting => "Hi, send me /menu"@,
            Message::Pong => "pong"@,
            Message::Catalogue => "Каталог:"@,
            Message::Chapters => "Главы:"@,
            Message::WorkAdded => "Произведение добавлено"@,
            Message::WorkDeleted => "Произведение удалено"@,
            Message::Add => "Добавить"@,
            Message::Back => "Назад"@,
            Message::Invalid => "Не удалось разобрать ответ"@,
            Message::NotFound => "Не найдено"@,
            Message::Apology => "Что-то пошло не так, попробуйте позже"@,
            Message::NotUnderstood => "Команда не распознана"@,
        }
    }

    /// The message that tells the user of the error `e`.
    pub open spec fn of_error(e: Error) -> Message {
        match e {
            Error::Validation => Message::Invalid,
            Error::NotFound => Message::NotFound,
            Error::Storage => Message::Apology,
            Error::Routing => Message::NotUnderstood,
        }
    }

    /// Writes the text of the message.
    pub fn as_str(&self) -> (r: &'static str)
        ensures
            r@ == self.text(),
    {
        match self {
            Message::AskTitle => "Введите название произведения: ",
            Message::AskKind => "Тип произведения (manga, ranobe):",
            Message::AskDescription => "Описание произведения:",
            Message::AskLabel => "Номер главы:",
            Message::AskLink => "Ссылка:",
            Message::Help => "These commands are supported:\n\n/help — :)\n/start — Start\n/ping — Ping-pong\n/bookadd — Добавить произведение\n/chapteradd — Добавить главу\n/menu — Главное меню",
            Message::Greeting => "Hi, send me /menu",
            Message::Pong => "pong",
            Message::Catalogue => "Каталог:",
            Message::Chapters => "Главы:",
            Message::WorkAdded => "Произведение добавлено",
            Message::WorkDeleted => "Произведение удалено",
            Message::Add => "Добавить",
            Message::Back => "Назад",
            Message::Invalid => "Не удалось разобрать ответ",
            Message::NotFound => "Не найдено",
            Message::Apology => "Что-то пошло не так, попробуйте позже",
            Message::NotUnderstood => "Команда не распознана",
        }
    }

    /// Picks the message that tells the user of the error `e`.
    pub fn for_error(e: Error) -> (r: Message)
        ensures
            r == Message::of_error(e),
    {
        match e {
            Error::Validation => Message::Invalid,
            Error::NotFound => Message::NotFound,
            Error::Storage => Message::Apology,
            Error::Routing => Message::NotUnderstood,
        }
    }
}

} // verus!
