//! The EPLStudents home page as a verified library.
//!
//! The page is a fixed piece of HTML around two assets, a stylesheet and an
//! icon. The functions here render it, say which response each route of the
//! site gives, and state both in contracts over plain sequences of
//! characters. Listening on a socket and reading files is left to the
//! program that uses the library.

pub mod markup;
pub mod response;
pub mod site;
pub mod stylesheet;
pub mod template;
pub mod text;
