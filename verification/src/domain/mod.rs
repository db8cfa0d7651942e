pub mod note;
pub mod secret;
pub mod note_content;
pub mod note_title;
pub mod tag;
pub mod text;
pub mod user;
pub mod user_email;
pub mod user_password;

pub use note::{NewNote, UpdateNote};
pub use note_content::NoteContent;
pub use note_title::NoteTitle;
pub use secret::SecretText;
pub use tag::{NewTag, TagName};
pub use user::NewUser;
pub use user_email::UserEmail;
pub use user_password::{compute_password_hash, verify_password_hash, UserPassWord};
