//! The custom emoji the bot writes into its HTML messages.
use vstd::prelude::*;
use vstd::string::*;

verus! {

/// A custom emoji: each has a Telegram custom-emoji identifier and a fallback character.
#[derive(Debug, Clone, Copy, PartialEq, Eq, Structural)]
pub enum Emoji {
    PingPong,
    Rocket,
    Car,
    Runner,
    Turtle,
    Bot,
    Balloon,
    Warning,
    Bangbang,
    ArrowDown,
    FacingUp,
    Megaphone,
    RadioButton,
    Exclamation,
    Human,
    ArrowRight,
    Information,
}

impl Emoji {
    /// The custom-emoji identifier of this emoji.
    pub open spec fn id_spec(self) -> Seq<char> {
        match self {
            Emoji::PingPong => "5269563867305879894"@,
            Emoji::Rocket => "5188481279963715781"@,
            Emoji::Car => "5418176697889466758"@,
            Emoji::Runner => "5312079370611860224"@,
            Emoji::Turtle => "5393142059370559102"@,
            Emoji::Bot => "5372981976804366741"@,
            Emoji::Balloon => "5465300082628763143"@,
            Emoji::Warning => "5447644880824181073"@,
            Emoji::Bangbang => "5440660757194744323"@,
            Emoji::ArrowDown => "5406745015365943482"@,
            Emoji::FacingUp => "5199750217586459631"@,
            Emoji::Megaphone => "5215344475039084599"@,
            Emoji::RadioButton => "5366231379136763743"@,
            Emoji::Exclamation => "5274099962655816924"@,
            Emoji::Human => "5458789419014182183"@,
            Emoji::ArrowRight => "5436276364384677952"@,
            Emoji::Information => "5334544901428229844"@,
        }
    }

    /// The fallback character of this emoji.
    pub open spec fn glyph_spec(self) -> Seq<char> {
        match self {
            Emoji::PingPong => "🏓"@,
            Emoji::Rocket => "🚀"@,
            Emoji::Car => "🏎"@,
            Emoji::Runner => "🏃"@,
            Emoji::Turtle => "🐢"@,
            Emoji::Bot => "🤖"@,
            Emoji::Balloon => "💬"@,
            Emoji::Warning => "⚠️"@,
            Emoji::Bangbang => "‼️"@,
            Emoji::ArrowDown => "⬇️"@,
            Emoji::FacingUp => "📄"@,
            Emoji::Megaphone => "📣"@,
            Emoji::RadioButton => "🔘"@,
            Emoji::Exclamation => "❗"@,
            Emoji::Human => "️👤"@,
            Emoji::ArrowRight => "➡️"@,
            Emoji::Information => "ℹ️"@,
        }
    }

    /// The HTML element that shows this emoji.
    pub open spec fn html_spec(self) -> Seq<char> {
        "<tg-emoji emoji-id='"@ + self.id_spec() + "'>"@ + self.glyph_spec() + "</tg-emoji>"@
    }

    /// The custom-emoji identifier of this emoji.
    pub fn id(&self) -> (r: &'static str)
        ensures
            r@ == self.id_spec(),
    {
        match self {
            Emoji::PingPong => "5269563867305879894",
            Emoji::Rocket => "5188481279963715781",
            Emoji::Car => "5418176697889466758",
            Emoji::Runner => "5312079370611860224",
            Emoji::Turtle => "5393142059370559102",
            Emoji::Bot => "5372981976804366741",
            Emoji::Balloon => "5465300082628763143",
            Emoji::Warning => "5447644880824181073",
            Emoji::Bangbang => "5440660757194744323",
            Emoji::ArrowDown => "5406745015365943482",
            Emoji::FacingUp => "5199750217586459631",
            Emoji::Megaphone => "5215344475039084599",
            Emoji::RadioButton => "5366231379136763743",
            Emoji::Exclamation => "5274099962655816924",
            Emoji::Human => "5458789419014182183",
            Emoji::ArrowRight => "5436276364384677952",
            Emoji::Information => "5334544901428229844",
        }
    }

    /// The fallback character of this emoji.
    pub fn glyph(&self) -> (r: &'static str)
        ensures
            r@ == self.glyph_spec(),
    {
        match self {
            Emoji::PingPong => "🏓",
            Emoji::Rocket => "🚀",
            Emoji::Car => "🏎",
            Emoji::Runner => "🏃",
            Emoji::Turtle => "🐢",
            Emoji::Bot => "🤖",
            Emoji::Balloon => "💬",
            Emoji::Warning => "⚠️",
            Emoji::Bangbang => "‼️",
            Emoji::ArrowDown => "⬇️",
            Emoji::FacingUp => "📄",
            Emoji::Megaphone => "📣",
            Emoji::RadioButton => "🔘",
            Emoji::Exclamation => "❗",
            Emoji::Human => "️👤",
            Emoji::ArrowRight => "➡️",
            Emoji::Information => "ℹ️",
        }
    }

    /// `<tg-emoji emoji-id='ID'>CHAR</tg-emoji>`, the text this emoji is written as.
    pub fn to_html(&self) -> (r: String)
        ensures
            r@ == self.html_spec(),
    {
        let mut r = String::new();
        r.append("<tg-emoji emoji-id='");
        r.append(self.id());
        r.append("'>");
        r.append(self.glyph());
        r.append("</tg-emoji>");
        r
    }
}

} // verus!
