//! A diary: entries with a title and a message, kept by their owner.

use vstd::prelude::*;
use vstd::utf8::encode_utf8;
use anchor_lang::solana_program::program_error::ProgramError;
use crate::account::{Account, AccountInfo};
use crate::address::Address;
use crate::clock::unix_timestamp;

verus! {

/// The most bytes a title may take.
pub const TITLE_LENGTH: usize = 30;

/// The most bytes a message may take.
pub const MESSAGE_LENGTH: usize = 840;

/// Why a diary operation is refused.
#[derive(Clone, Copy, Debug, PartialEq, Eq, Structural)]
pub enum DiaryError {
    /// A title or a message is longer than an entry has room for.
    ConstraintRaw,
    /// The runtime gave no time.
    ClockUnavailable,
}

/// One entry of a diary.
#[derive(Clone, Debug, PartialEq, Eq)]
pub struct DiaryEntryState {
    pub owner: Address,
    pub title: String,
    pub message: String,
    /// When the entry was written, in seconds since the Unix epoch.
    pub created_at: i64,
    /// When the message was last replaced, if it ever was.
    pub updated_at: Option<i64>,
}

/// The accounts of the creation of an entry.
#[derive(Clone, Debug, PartialEq, Eq)]
pub struct CreateEntry {
    /// The entry to fill in.
    pub diary_entry: Account<DiaryEntryState>,
    /// The writer, who has signed.
    pub owner: AccountInfo,
}

/// The accounts of an update of an entry.
#[derive(Clone, Debug, PartialEq, Eq)]
pub struct UpdateEntry {
    /// The entry whose message is replaced.
    pub diary_entry: Account<DiaryEntryState>,
    /// The writer, who has signed.
    pub owner: AccountInfo,
}

/// The accounts of the deletion of an entry.
#[derive(Clone, Debug, PartialEq, Eq)]
pub struct DeleteEntry {
    /// The entry to delete.
    pub diary_entry: Account<DiaryEntryState>,
    /// The writer, who has signed.
    pub owner: AccountInfo,
}

/// The number of bytes that a text takes, encoded as UTF-8.
pub open spec fn byte_len(text: Seq<char>) -> nat {
    encode_utf8(text).len()
}

/// Whether a title fits an entry.
pub open spec fn title_fits(title: Seq<char>) -> bool {
    byte_len(title) <= TITLE_LENGTH
}

/// Whether a message fits an entry.
pub open spec fn message_fits(message: Seq<char>) -> bool {
    byte_len(message) <= MESSAGE_LENGTH
}

/// Fills in a new entry with the owner, the title, the message and the time
/// `now` as the time of writing.
///
/// The entry is refused with `ConstraintRaw` where the title takes more than 30
/// bytes or the message more than 840, else with `ClockUnavailable` where
/// `now` is an error; a refused entry is left as it was.
pub fn create_diary_entry_at(
    ctx: &mut CreateEntry,
    title: String,
    message: String,
    now: Result<i64, ProgramError>,
) -> (r: Result<(), DiaryError>)
    ensures
        final(ctx).owner == old(ctx).owner,
        final(ctx).diary_entry.key == old(ctx).diary_entry.key,
        !title_fits(title@) || !message_fits(message@) ==> r == Err::<(), DiaryError>(
            DiaryError::ConstraintRaw,
        ) && *final(ctx) == *old(ctx),
        title_fits(title@) && message_fits(message@) ==> match now {
            Err(_) => r == Err::<(), DiaryError>(DiaryError::ClockUnavailable) && *final(ctx)
                == *old(ctx),
            Ok(time) => r == Ok::<(), DiaryError>(()) && final(ctx).diary_entry.data == (
                DiaryEntryState {
                    owner: old(ctx).owner.key,
                    title: title,
                    message: message,
                    created_at: time,
                    updated_at: old(ctx).diary_entry.data.updated_at,
                }
            ),
        },
{
    if title.as_str().as_bytes().len() > TITLE_LENGTH {
        return Err(DiaryError::ConstraintRaw);
    }
    if message.as_str().as_bytes().len() > MESSAGE_LENGTH {
        return Err(DiaryError::ConstraintRaw);
    }
    match now {
        Err(_) => Err(DiaryError::ClockUnavailable),
        Ok(time) => {
            ctx.diary_entry.data.owner = ctx.owner.key;
            ctx.diary_entry.data.title = title;
            ctx.diary_entry.data.message = message;
            ctx.diary_entry.data.created_at = time;
            Ok(())
        },
    }
}

/// Fills in a new entry with the owner, the title, the message and the
/// clock's time as the time of writing.
///
/// The entry is refused with `ConstraintRaw` where the title takes more than 30
/// bytes or the message more than 840, and left as it was. Otherwise it is
/// filled in, unless the runtime gives no time.
pub fn create_diary_entry(ctx: &mut CreateEntry, title: String, message: String) -> (r: Result<
    (),
    DiaryError,
>)
    ensures
        final(ctx).owner == old(ctx).owner,
        final(ctx).diary_entry.key == old(ctx).diary_entry.key,
        !title_fits(title@) || !message_fits(message@) ==> r == Err::<(), DiaryError>(
            DiaryError::ConstraintRaw,
        ),
        title_fits(title@) && message_fits(message@) ==> r == Ok::<(), DiaryError>(()) || r
            == Err::<(), DiaryError>(DiaryError::ClockUnavailable),
        r is Err ==> *final(ctx) == *old(ctx),
        r is Ok ==> {
            &&& final(ctx).diary_entry.data.owner == old(ctx).owner.key
            &&& final(ctx).diary_entry.data.title == title
            &&& final(ctx).diary_entry.data.message == message
            &&& final(ctx).diary_entry.data.updated_at == old(ctx).diary_entry.data.updated_at
        },
{
    let now = unix_timestamp();
    create_diary_entry_at(ctx, title, message, now)
}

/// Replaces the message of an entry and records `now` as the time of the
/// update.
///
/// The update is refused with `ConstraintRaw` where the message takes more
/// than 840 bytes, else with `ClockUnavailable` where `now` is an error; a
/// refused update leaves the entry as it was.
pub fn update_diary_entry_at(
    ctx: &mut UpdateEntry,
    message: String,
    now: Result<i64, ProgramError>,
) -> (r: Result<(), DiaryError>)
    ensures
        final(ctx).owner == old(ctx).owner,
        final(ctx).diary_entry.key == old(ctx).diary_entry.key,
        !message_fits(message@) ==> r == Err::<(), DiaryError>(DiaryError::ConstraintRaw)
            && *final(ctx) == *old(ctx),
        message_fits(message@) ==> match now {
            Err(_) => r == Err::<(), DiaryError>(DiaryError::ClockUnavailable) && *final(ctx)
                == *old(ctx),
            Ok(time) => r == Ok::<(), DiaryError>(()) && final(ctx).diary_entry.data == (
                DiaryEntryState {
                    owner: old(ctx).diary_entry.data.owner,
                    title: old(ctx).diary_entry.data.title,
                    message: message,
                    created_at: old(ctx).diary_entry.data.created_at,
                    updated_at: Some(time),
                }
            ),
        },
{
    if message.as_str().as_bytes().len() > MESSAGE_LENGTH {
        return Err(DiaryError::ConstraintRaw);
    }
    match now {
        Err(_) => Err(DiaryError::ClockUnavailable),
        Ok(time) => {
            ctx.diary_entry.data.message = message;
            ctx.diary_entry.data.updated_at = Some(time);
            Ok(())
        },
    }
}

/// Replaces the message of an entry and records the clock's time as the time
/// of the update.
///
/// The update is refused with `ConstraintRaw` where the message takes more
/// than 840 bytes, and the entry left as it was. Otherwise the message is
/// replaced, unless the runtime gives no time.
pub fn update_diary_entry(ctx: &mut UpdateEntry, message: String) -> (r: Result<(), DiaryError>)
    ensures
        final(ctx).owner == old(ctx).owner,
        final(ctx).diary_entry.key == old(ctx).diary_entry.key,
        !message_fits(message@) ==> r == Err::<(), DiaryError>(DiaryError::ConstraintRaw),
        message_fits(message@) ==> r == Ok::<(), DiaryError>(()) || r == Err::<(), DiaryError>(
            DiaryError::ClockUnavailable,
        ),
        r is Err ==> *final(ctx) == *old(ctx),
        r is Ok ==> {
            &&& final(ctx).diary_entry.data.owner == old(ctx).diary_entry.data.owner
            &&& final(ctx).diary_entry.data.title == old(ctx).diary_entry.data.title
            &&& final(ctx).diary_entry.data.message == message
            &&& final(ctx).diary_entry.data.created_at == old(ctx).diary_entry.data.created_at
            &&& final(ctx).diary_entry.data.updated_at is Some
        },
{
    let now = unix_timestamp();
    update_diary_entry_at(ctx, message, now)
}

/// Admits the deletion of the entry with the given title: the title must fit
/// an entry, or the deletion is refused with `ConstraintRaw`. The accounts are
/// not touched; closing the entry is the runtime's part.
#[allow(unused_variables)]
pub fn delete_diary_entry(ctx: &DeleteEntry, title: String) -> (r: Result<(), DiaryError>)
    ensures
        title_fits(title@) ==> r == Ok::<(), DiaryError>(()),
        !title_fits(title@) ==> r == Err::<(), DiaryError>(DiaryError::ConstraintRaw),
{
    if title.as_str().as_bytes().len() > TITLE_LENGTH {
        return Err(DiaryError::ConstraintRaw);
    }
    Ok(())
}

} // verus!
