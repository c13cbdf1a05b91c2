//! The calls into `teloxide` that the library makes.
//!
//! Nothing in this file is proved. Each function here makes one call and states, as its
//! contract, what the rest of the library takes that call to do; the doc comment says
//! the same in words.

use teloxide::types::{InputFile, InputMedia, InputMediaPhoto};
use teloxide::utils::command::parse_command;
use vstd::prelude::*;

verus! {

/// `teloxide::types::InputFile`: a file to upload. Nothing is known of its contents.
#[verifier::external_type_specification]
#[verifier::external_body]
pub struct ExInputFile(InputFile);

/// `teloxide::types::InputMedia`: one item of a media group. Nothing is known of its
/// contents.
#[verifier::external_type_specification]
#[verifier::external_body]
pub struct ExInputMedia(InputMedia);

/// The upload that `InputFile::memory` makes of a file name and the file's bytes.
pub uninterp spec fn memory_file(file_name: Seq<char>, data: Seq<u8>) -> InputFile;

/// The media item that `InputMediaPhoto::new` makes of an upload, taken as a photo.
pub uninterp spec fn photo_of(file: InputFile) -> InputMedia;

/// The command word that `parse_command` finds in a message, read for the bot
/// `bot_name`; `None` where it finds no command for that bot.
pub uninterp spec fn command_word(text: Seq<char>, bot_name: Seq<char>) -> Option<Seq<char>>;

/// Calls `teloxide::types::InputFile::memory` on a copy of the name and of the bytes.
///
/// Taken on trust: the upload is a function of the name and the bytes alone.
/// `InputFile::memory` stores both as they are given and reads nothing else.
#[verifier::external_body]
pub(crate) fn upload(file_name: &String, data: &Vec<u8>) -> (file: InputFile)
    ensures
        file == memory_file(file_name@, data@),
{
    InputFile::memory(file_name.clone(), data.clone())
}

/// Calls `teloxide::types::InputMediaPhoto::new` and hands the result on as the `Photo`
/// variant of `InputMedia`.
///
/// Taken on trust: the media item is a function of the upload alone.
/// `InputMediaPhoto::new` keeps the upload and leaves caption and formatting unset.
#[verifier::external_body]
pub(crate) fn photo(file: InputFile) -> (media: InputMedia)
    ensures
        media == photo_of(file),
{
    InputMedia::Photo(InputMediaPhoto::new(file))
}

/// Calls `teloxide::utils::command::parse_command` and keeps the command word of its
/// result, dropping the words after it.
///
/// Taken on trust: whether a word is found, and which, is a function of the text and
/// the bot's name alone. Nothing is claimed here of what the word is.
#[verifier::external_body]
pub(crate) fn find_command_word(text: &str, bot_name: &str) -> (word: Option<String>)
    ensures
        match command_word(text@, bot_name@) {
            Some(found) => word is Some && word->Some_0@ == found,
            None => word is None,
        },
{
    match parse_command(text, bot_name) {
        Some((word, _)) => Some(String::from(word)),
        None => None,
    }
}

} // verus!
