//! Terminal Colors Architecture (TCA): base24 theme parsing, the TCA theme
//! model derived from base24 slots, and cycling cursors over themes.
use vstd::prelude::*;

pub mod base24;
pub mod builtin;
pub mod config;
pub mod cursor;
pub mod export;
pub mod hex;
pub mod loader;
pub mod lookup;
pub mod order;
pub mod round_trip;
pub mod text;
pub mod theme;
pub mod theme_order;
pub mod tui;
pub mod util;
pub mod validate;

pub use builtin::{BuiltinTheme, ThemeMode};
pub use base24::{parse_base24, strip_inline_comment, Base24Error, RawSlots};
pub use cursor::ThemeCursor;
pub use hex::{hex_to_rgb, is_dark, normalize_hex, HexColorError};
pub use theme::{
    Ansi, Base24Slots, Meta, Semantic, Theme, ThemeError, Ui, UiBg, UiBorder, UiCursor, UiFg,
    UiSelection,
};

verus! {

} // verus!
