//! Chat components: text with its looks and what a click on it does.

use std::marker::PhantomData;
use vstd::prelude::*;

verus! {

/// A piece of chat text.
pub struct ChatComponent<'a> {
    pub text: String,
    pub bold: Option<bool>,
    pub italic: Option<bool>,
    pub underlined: Option<bool>,
    pub strikethrough: Option<bool>,
    pub obfuscated: Option<bool>,
    pub font: Option<String>,
    pub insertion: Option<String>,
    pub click_event: Option<ClickEvent>,
    pub hover_event: Option<HoverEvent<'a>>,
    pub extra: Option<Vec<ChatComponent<'a>>>,
}

/// What a click on a chat component does.
pub struct ClickEvent {
    pub open_url: Option<String>,
    pub run_command: Option<String>,
    pub suggest_command: Option<String>,
    pub change_page: Option<String>,
    pub copy_to_clipboard: Option<String>,
}

/// What shows while the pointer rests on a chat component.
pub struct HoverEvent<'a> {
    pub phantom: PhantomData<&'a str>,
}

/// A click event in the making.
pub struct ClickEventBuilder {
    pub open_url: Option<String>,
    pub run_command: Option<String>,
    pub suggest_command: Option<String>,
    pub change_page: Option<String>,
    pub copy_to_clipboard: Option<String>,
}

/// A hover event in the making.
pub struct HoverEventBuilder<'a> {
    pub phantom: PhantomData<&'a str>,
}

/// A chat component in the making. `T` is what stands for the text so far:
/// `()` before it is given, a `String` once it is. Only with a text can the
/// component be built.
pub struct ChatComponentBuilder<'a, T> {
    pub text: T,
    pub bold: Option<bool>,
    pub italic: Option<bool>,
    pub underlined: Option<bool>,
    pub strikethrough: Option<bool>,
    pub obfuscated: Option<bool>,
    pub font: Option<String>,
    pub insertion: Option<String>,
    pub click_event: Option<ClickEvent>,
    pub hover_event: Option<HoverEvent<'a>>,
    pub extra: Option<Vec<ChatComponent<'a>>>,
}

impl<'a> ChatComponent<'a> {
    /// A builder in which nothing is set.
    pub fn builder() -> (b: ChatComponentBuilder<'a, ()>)
        ensures
            b.bold is None,
            b.italic is None,
            b.underlined is None,
            b.strikethrough is None,
            b.obfuscated is None,
            b.font is None,
            b.insertion is None,
            b.click_event is None,
            b.hover_event is None,
            b.extra is None,
    {
        ChatComponentBuilder {
            text: (),
            bold: None,
            italic: None,
            underlined: None,
            strikethrough: None,
            obfuscated: None,
            font: None,
            insertion: None,
            click_event: None,
            hover_event: None,
            extra: None,
        }
    }
}

impl ClickEvent {
    /// A builder in which nothing is set.
    pub fn builder() -> (b: ClickEventBuilder)
        ensures
            b.open_url is None,
            b.run_command is None,
            b.suggest_command is None,
            b.change_page is None,
            b.copy_to_clipboard is None,
    {
        ClickEventBuilder {
            open_url: None,
            run_command: None,
            suggest_command: None,
            change_page: None,
            copy_to_clipboard: None,
        }
    }
}

impl ClickEventBuilder {
    pub fn open_url(self, open_url: Option<String>) -> (b: Self)
        ensures
            b == (ClickEventBuilder { open_url, ..self }),
    {
        ClickEventBuilder { open_url, ..self }
    }

    pub fn run_command(self, run_command: Option<String>) -> (b: Self)
        ensures
            b == (ClickEventBuilder { run_command, ..self }),
    {
        ClickEventBuilder { run_command, ..self }
    }

    pub fn suggest_command(self, suggest_command: Option<String>) -> (b: Self)
        ensures
            b == (ClickEventBuilder { suggest_command, ..self }),
    {
        ClickEventBuilder { suggest_command, ..self }
    }

    pub fn change_page(self, change_page: Option<String>) -> (b: Self)
        ensures
            b == (ClickEventBuilder { change_page, ..self }),
    {
        ClickEventBuilder { change_page, ..self }
    }

    pub fn copy_to_clipboard(self, copy_to_clipboard: Option<String>) -> (b: Self)
        ensures
            b == (ClickEventBuilder { copy_to_clipboard, ..self }),
    {
        ClickEventBuilder { copy_to_clipboard, ..self }
    }

    /// The event with what was set, and nothing where nothing was.
    pub fn build(self) -> (event: ClickEvent)
        ensures
            event.open_url == self.open_url,
            event.run_command == self.run_command,
            event.suggest_command == self.suggest_command,
            event.change_page == self.change_page,
            event.copy_to_clipboard == self.copy_to_clipboard,
    {
        ClickEvent {
            open_url: self.open_url,
            run_command: self.run_command,
            suggest_command: self.suggest_command,
            change_page: self.change_page,
            copy_to_clipboard: self.copy_to_clipboard,
        }
    }
}

impl<'a> HoverEvent<'a> {
    /// A builder of the one hover event there is.
    pub fn builder() -> HoverEventBuilder<'a> {
        HoverEventBuilder { phantom: PhantomData }
    }
}

impl<'a> HoverEventBuilder<'a> {
    pub fn build(self) -> HoverEvent<'a> {
        HoverEvent { phantom: self.phantom }
    }
}

impl<'a> ChatComponentBuilder<'a, ()> {
    /// Gives the component its text.
    pub fn text(self, text: String) -> (b: ChatComponentBuilder<'a, String>)
        ensures
            b.text == text,
            b.bold == self.bold,
            b.italic == self.italic,
            b.underlined == self.underlined,
            b.strikethrough == self.strikethrough,
            b.obfuscated == self.obfuscated,
            b.font == self.font,
            b.insertion == self.insertion,
            b.click_event == self.click_event,
            b.hover_event == self.hover_event,
            b.extra == self.extra,
    {
        ChatComponentBuilder {
            text,
            bold: self.bold,
            italic: self.italic,
            underlined: self.underlined,
            strikethrough: self.strikethrough,
            obfuscated: self.obfuscated,
            font: self.font,
            insertion: self.insertion,
            click_event: self.click_event,
            hover_event: self.hover_event,
            extra: self.extra,
        }
    }
}

impl<'a, T> ChatComponentBuilder<'a, T> {
    pub fn bold(self, bold: Option<bool>) -> (b: Self)
        ensures
            b == (ChatComponentBuilder { bold, ..self }),
    {
        ChatComponentBuilder { bold, ..self }
    }

    pub fn italic(self, italic: Option<bool>) -> (b: Self)
        ensures
            b == (ChatComponentBuilder { italic, ..self }),
    {
        ChatComponentBuilder { italic, ..self }
    }

    pub fn underlined(self, underlined: Option<bool>) -> (b: Self)
        ensures
            b == (ChatComponentBuilder { underlined, ..self }),
    {
        ChatComponentBuilder { underlined, ..self }
    }

    pub fn strikethrough(self, strikethrough: Option<bool>) -> (b: Self)
        ensures
            b == (ChatComponentBuilder { strikethrough, ..self }),
    {
        ChatComponentBuilder { strikethrough, ..self }
    }

    pub fn obfuscated(self, obfuscated: Option<bool>) -> (b: Self)
        ensures
            b == (ChatComponentBuilder { obfuscated, ..self }),
    {
        ChatComponentBuilder { obfuscated, ..self }
    }

    pub fn font(self, font: Option<String>) -> (b: Self)
        ensures
            b == (ChatComponentBuilder { font, ..self }),
    {
        ChatComponentBuilder { font, ..self }
    }

    pub fn insertion(self, insertion: Option<String>) -> (b: Self)
        ensures
            b == (ChatComponentBuilder { insertion, ..self }),
    {
        ChatComponentBuilder { insertion, ..self }
    }

    pub fn click_event(self, click_event: Option<ClickEvent>) -> (b: Self)
        ensures
            b == (ChatComponentBuilder { click_event, ..self }),
    {
        ChatComponentBuilder { click_event, ..self }
    }

    pub fn hover_event(self, hover_event: Option<HoverEvent<'a>>) -> (b: Self)
        ensures
            b == (ChatComponentBuilder { hover_event, ..self }),
    {
        ChatComponentBuilder { hover_event, ..self }
    }

    pub fn extra(self, extra: Option<Vec<ChatComponent<'a>>>) -> (b: Self)
        ensures
            b == (ChatComponentBuilder { extra, ..self }),
    {
        ChatComponentBuilder { extra, ..self }
    }
}

impl<'a> ChatComponentBuilder<'a, String> {
    /// The component with what was set, and nothing where nothing was.
    pub fn build(self) -> (c: ChatComponent<'a>)
        ensures
            c.text == self.text,
            c.bold == self.bold,
            c.italic == self.italic,
            c.underlined == self.underlined,
            c.strikethrough == self.strikethrough,
            c.obfuscated == self.obfuscated,
            c.font == self.font,
            c.insertion == self.insertion,
            c.click_event == self.click_event,
            c.hover_event == self.hover_event,
            c.extra == self.extra,
    {
        ChatComponent {
            text: self.text,
            bold: self.bold,
            italic: self.italic,
            underlined: self.underlined,
            strikethrough: self.strikethrough,
            obfuscated: self.obfuscated,
            font: self.font,
            insertion: self.insertion,
            click_event: self.click_event,
            hover_event: self.hover_event,
            extra: self.extra,
        }
    }
}

} // verus!
