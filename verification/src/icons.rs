use vstd::prelude::*;
use egui_phosphor::regular as phosphor;

verus! {

/// Glyphs of the regular Phosphor icon font that key, button and scroll
/// labels are drawn with.
#[derive(Debug, Clone, Copy, PartialEq, Eq, Structural)]
pub enum Icon {
    ArrowLineRight,
    ArrowUp,
    Printer,
    LockSimple,
    Pause,
    Lock,
    Minus,
    Equals,
    ArrowUDownLeft,
    Plus,
    Warning,
    OptionKey,
    Backspace,
    ArrowFatLineUp,
    ArrowDown,
    House,
    ArrowLeft,
    ArrowRight,
    ArrowFatUp,
    MouseLeftClick,
    MouseRightClick,
    MouseMiddleClick,
    ArrowsHorizontal,
}

/// The text of each glyph: one private-use character of the icon font.
pub open spec fn icon_glyph(icon: Icon) -> Seq<char> {
    match icon {
        Icon::ArrowLineRight => seq!['\u{E064}'],
        Icon::ArrowUp => seq!['\u{E08E}'],
        Icon::Printer => seq!['\u{E3DC}'],
        Icon::LockSimple => seq!['\u{E308}'],
        Icon::Pause => seq!['\u{E39E}'],
        Icon::Lock => seq!['\u{E2FA}'],
        Icon::Minus => seq!['\u{E32A}'],
        Icon::Equals => seq!['\u{E21C}'],
        Icon::ArrowUDownLeft => seq!['\u{E07E}'],
        Icon::Plus => seq!['\u{E3D4}'],
        Icon::Warning => seq!['\u{E4E0}'],
        Icon::OptionKey => seq!['\u{E8A8}'],
        Icon::Backspace => seq!['\u{E0AE}'],
        Icon::ArrowFatLineUp => seq!['\u{E522}'],
        Icon::ArrowDown => seq!['\u{E03E}'],
        Icon::House => seq!['\u{E2C2}'],
        Icon::ArrowLeft => seq!['\u{E058}'],
        Icon::ArrowRight => seq!['\u{E06C}'],
        Icon::ArrowFatUp => seq!['\u{E52E}'],
        Icon::MouseLeftClick => seq!['\u{E334}'],
        Icon::MouseRightClick => seq!['\u{E336}'],
        Icon::MouseMiddleClick => seq!['\u{E338}'],
        Icon::ArrowsHorizontal => seq!['\u{EB06}'],
    }
}

/// Reads the constants of `egui_phosphor::regular` that the labels use, in
/// the order of the variants of `Icon`. The contract claims the value each
/// constant has in the crate's source: one character each.
#[verifier::external_body]
fn phosphor_glyphs() -> (glyphs: [&'static str; 23])
    ensures
        glyphs@[0]@ == seq!['\u{E064}'],
        glyphs@[1]@ == seq!['\u{E08E}'],
        glyphs@[2]@ == seq!['\u{E3DC}'],
        glyphs@[3]@ == seq!['\u{E308}'],
        glyphs@[4]@ == seq!['\u{E39E}'],
        glyphs@[5]@ == seq!['\u{E2FA}'],
        glyphs@[6]@ == seq!['\u{E32A}'],
        glyphs@[7]@ == seq!['\u{E21C}'],
        glyphs@[8]@ == seq!['\u{E07E}'],
        glyphs@[9]@ == seq!['\u{E3D4}'],
        glyphs@[10]@ == seq!['\u{E4E0}'],
        glyphs@[11]@ == seq!['\u{E8A8}'],
        glyphs@[12]@ == seq!['\u{E0AE}'],
        glyphs@[13]@ == seq!['\u{E522}'],
        glyphs@[14]@ == seq!['\u{E03E}'],
        glyphs@[15]@ == seq!['\u{E2C2}'],
        glyphs@[16]@ == seq!['\u{E058}'],
        glyphs@[17]@ == seq!['\u{E06C}'],
        glyphs@[18]@ == seq!['\u{E52E}'],
        glyphs@[19]@ == seq!['\u{E334}'],
        glyphs@[20]@ == seq!['\u{E336}'],
        glyphs@[21]@ == seq!['\u{E338}'],
        glyphs@[22]@ == seq!['\u{EB06}'],
{
    [
        phosphor::ARROW_LINE_RIGHT, phosphor::ARROW_UP, phosphor::PRINTER,
        phosphor::LOCK_SIMPLE, phosphor::PAUSE, phosphor::LOCK, phosphor::MINUS,
        phosphor::EQUALS, phosphor::ARROW_U_DOWN_LEFT, phosphor::PLUS, phosphor::WARNING,
        phosphor::OPTION, phosphor::BACKSPACE, phosphor::ARROW_FAT_LINE_UP,
        phosphor::ARROW_DOWN, phosphor::HOUSE, phosphor::ARROW_LEFT, phosphor::ARROW_RIGHT,
        phosphor::ARROW_FAT_UP, phosphor::MOUSE_LEFT_CLICK, phosphor::MOUSE_RIGHT_CLICK,
        phosphor::MOUSE_MIDDLE_CLICK, phosphor::ARROWS_HORIZONTAL,
    ]
}

/// The text of an icon's glyph.
pub fn icon_text(icon: Icon) -> (text: String)
    ensures
        text@ == icon_glyph(icon),
{
    let glyphs = phosphor_glyphs();
    let glyph: &str = match icon {
        Icon::ArrowLineRight => glyphs[0],
        Icon::ArrowUp => glyphs[1],
        Icon::Printer => glyphs[2],
        Icon::LockSimple => glyphs[3],
        Icon::Pause => glyphs[4],
        Icon::Lock => glyphs[5],
        Icon::Minus => glyphs[6],
        Icon::Equals => glyphs[7],
        Icon::ArrowUDownLeft => glyphs[8],
        Icon::Plus => glyphs[9],
        Icon::Warning => glyphs[10],
        Icon::OptionKey => glyphs[11],
        Icon::Backspace => glyphs[12],
        Icon::ArrowFatLineUp => glyphs[13],
        Icon::ArrowDown => glyphs[14],
        Icon::House => glyphs[15],
        Icon::ArrowLeft => glyphs[16],
        Icon::ArrowRight => glyphs[17],
        Icon::ArrowFatUp => glyphs[18],
        Icon::MouseLeftClick => glyphs[19],
        Icon::MouseRightClick => glyphs[20],
        Icon::MouseMiddleClick => glyphs[21],
        Icon::ArrowsHorizontal => glyphs[22],
    };
    String::from_str(glyph)
}

} // verus!
