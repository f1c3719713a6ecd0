//! The mailing-list picker and the bookmarked-patchsets screen of a
//! terminal client for kernel mailing lists, with their behaviour
//! stated as contracts and proved.
pub mod bookmarked;
pub mod layout;
pub mod mail_list;
pub mod mailing_list;
pub mod selection_laws;
mod text;

pub use bookmarked::{
    bookmarked_rows, keys_hint, mode_footer_text, patchset_row_text, BookmarkedPatch,
    BookmarkedPatchsets, StyledText, TextColor,
};
pub use mail_list::MailingListSelection;
pub use mailing_list::MailingList;
