use anchor_lang::prelude::ProgramError;
use on_chain_vault::account::{Account, AccountInfo};
use on_chain_vault::address::Address;
use on_chain_vault::diary::{
    create_diary_entry, create_diary_entry_at, delete_diary_entry, update_diary_entry,
    update_diary_entry_at, CreateEntry, DeleteEntry, DiaryEntryState, DiaryError, UpdateEntry,
    MESSAGE_LENGTH, TITLE_LENGTH,
};

fn owner() -> AccountInfo {
    AccountInfo { key: Address::new([3; 32]), lamports: 1_000 }
}

fn blank_entry() -> Account<DiaryEntryState> {
    Account {
        key: Address::new([4; 32]),
        data: DiaryEntryState {
            owner: Address::new([0; 32]),
            title: String::new(),
            message: String::new(),
            created_at: 0,
            updated_at: None,
        },
    }
}

fn written_entry() -> Account<DiaryEntryState> {
    Account {
        key: Address::new([4; 32]),
        data: DiaryEntryState {
            owner: owner().key,
            title: "monday".to_string(),
            message: "rain".to_string(),
            created_at: 1_700_000_000,
            updated_at: None,
        },
    }
}

#[test]
fn limits_of_an_entry() {
    assert_eq!(TITLE_LENGTH, 30);
    assert_eq!(MESSAGE_LENGTH, 840);
}

#[test]
fn create_fills_in_the_entry() {
    let mut ctx = CreateEntry { diary_entry: blank_entry(), owner: owner() };
    let r = create_diary_entry_at(
        &mut ctx,
        "monday".to_string(),
        "rain".to_string(),
        Ok(1_700_000_000),
    );
    assert_eq!(r, Ok(()));
    assert_eq!(ctx.diary_entry, written_entry());
    assert_eq!(ctx.owner, owner());
}

#[test]
fn create_keeps_the_time_of_update() {
    let mut ctx = CreateEntry { diary_entry: blank_entry(), owner: owner() };
    ctx.diary_entry.data.updated_at = Some(5);
    let r = create_diary_entry_at(&mut ctx, "t".to_string(), "m".to_string(), Ok(-1));
    assert_eq!(r, Ok(()));
    assert_eq!(ctx.diary_entry.data.updated_at, Some(5));
    assert_eq!(ctx.diary_entry.data.created_at, -1);
}

#[test]
fn create_takes_a_title_of_thirty_bytes_and_no_more() {
    let mut ctx = CreateEntry { diary_entry: blank_entry(), owner: owner() };
    let r = create_diary_entry_at(&mut ctx, "a".repeat(31), "m".to_string(), Ok(1));
    assert_eq!(r, Err(DiaryError::ConstraintRaw));
    assert_eq!(ctx.diary_entry, blank_entry());

    let r = create_diary_entry_at(&mut ctx, "a".repeat(30), "m".to_string(), Ok(1));
    assert_eq!(r, Ok(()));
    assert_eq!(ctx.diary_entry.data.title, "a".repeat(30));
}

#[test]
fn create_takes_a_message_of_840_bytes_and_no_more() {
    let mut ctx = CreateEntry { diary_entry: blank_entry(), owner: owner() };
    let r = create_diary_entry_at(&mut ctx, "t".to_string(), "m".repeat(841), Ok(1));
    assert_eq!(r, Err(DiaryError::ConstraintRaw));
    assert_eq!(ctx.diary_entry, blank_entry());

    let r = create_diary_entry_at(&mut ctx, "t".to_string(), "m".repeat(840), Ok(1));
    assert_eq!(r, Ok(()));
    assert_eq!(ctx.diary_entry.data.message.len(), 840);
}

#[test]
fn lengths_are_counted_in_bytes() {
    // Eleven letters of three bytes each: 33 bytes.
    let title = "\u{20ac}".repeat(11);
    assert_eq!(title.chars().count(), 11);
    let mut ctx = CreateEntry { diary_entry: blank_entry(), owner: owner() };
    let r = create_diary_entry_at(&mut ctx, title, "m".to_string(), Ok(1));
    assert_eq!(r, Err(DiaryError::ConstraintRaw));

    // Ten of them: 30 bytes.
    let r = create_diary_entry_at(&mut ctx, "\u{20ac}".repeat(10), "m".to_string(), Ok(1));
    assert_eq!(r, Ok(()));

    let ctx = DeleteEntry { diary_entry: written_entry(), owner: owner() };
    assert_eq!(delete_diary_entry(&ctx, "\u{e9}".repeat(16)), Err(DiaryError::ConstraintRaw));
    assert_eq!(delete_diary_entry(&ctx, "\u{e9}".repeat(15)), Ok(()));
}

#[test]
fn create_without_a_clock_is_refused() {
    let mut ctx = CreateEntry { diary_entry: blank_entry(), owner: owner() };
    let r = create_diary_entry_at(
        &mut ctx,
        "monday".to_string(),
        "rain".to_string(),
        Err(ProgramError::UnsupportedSysvar),
    );
    assert_eq!(r, Err(DiaryError::ClockUnavailable));
    assert_eq!(ctx.diary_entry, blank_entry());
}

#[test]
fn a_title_too_long_is_reported_before_a_missing_clock() {
    let mut ctx = CreateEntry { diary_entry: blank_entry(), owner: owner() };
    let r = create_diary_entry_at(
        &mut ctx,
        "a".repeat(31),
        "rain".to_string(),
        Err(ProgramError::UnsupportedSysvar),
    );
    assert_eq!(r, Err(DiaryError::ConstraintRaw));
    let mut ctx = UpdateEntry { diary_entry: written_entry(), owner: owner() };
    let r = update_diary_entry_at(&mut ctx, "m".repeat(841), Err(ProgramError::InvalidArgument));
    assert_eq!(r, Err(DiaryError::ConstraintRaw));
}

#[test]
fn create_asks_the_runtime_for_the_time() {
    // No runtime is here to give one: the entry is refused, unless its fields
    // are too long, which is found out first.
    let mut ctx = CreateEntry { diary_entry: blank_entry(), owner: owner() };
    let r = create_diary_entry(&mut ctx, "monday".to_string(), "rain".to_string());
    assert_eq!(r, Err(DiaryError::ClockUnavailable));
    assert_eq!(ctx.diary_entry, blank_entry());

    let r = create_diary_entry(&mut ctx, "a".repeat(31), "rain".to_string());
    assert_eq!(r, Err(DiaryError::ConstraintRaw));
    let r = create_diary_entry(&mut ctx, "monday".to_string(), "m".repeat(841));
    assert_eq!(r, Err(DiaryError::ConstraintRaw));
    assert_eq!(ctx.diary_entry, blank_entry());
}

#[test]
fn update_replaces_the_message() {
    let mut ctx = UpdateEntry { diary_entry: written_entry(), owner: owner() };
    let r = update_diary_entry_at(&mut ctx, "sun".to_string(), Ok(1_700_000_100));
    assert_eq!(r, Ok(()));
    let mut expected = written_entry();
    expected.data.message = "sun".to_string();
    expected.data.updated_at = Some(1_700_000_100);
    assert_eq!(ctx.diary_entry, expected);
    assert_eq!(ctx.owner, owner());

    let r = update_diary_entry_at(&mut ctx, String::new(), Ok(1_700_000_200));
    assert_eq!(r, Ok(()));
    assert_eq!(ctx.diary_entry.data.message, "");
    assert_eq!(ctx.diary_entry.data.updated_at, Some(1_700_000_200));
    assert_eq!(ctx.diary_entry.data.created_at, 1_700_000_000);
    assert_eq!(ctx.diary_entry.data.title, "monday");
}

#[test]
fn update_takes_a_message_of_840_bytes_and_no_more() {
    let mut ctx = UpdateEntry { diary_entry: written_entry(), owner: owner() };
    let r = update_diary_entry_at(&mut ctx, "m".repeat(841), Ok(9));
    assert_eq!(r, Err(DiaryError::ConstraintRaw));
    assert_eq!(ctx.diary_entry, written_entry());
    let r = update_diary_entry_at(&mut ctx, "m".repeat(840), Ok(9));
    assert_eq!(r, Ok(()));
    assert_eq!(ctx.diary_entry.data.message, "m".repeat(840));
}

#[test]
fn update_without_a_clock_is_refused() {
    let mut ctx = UpdateEntry { diary_entry: written_entry(), owner: owner() };
    let no_clock = Err(ProgramError::UnsupportedSysvar);
    let r = update_diary_entry_at(&mut ctx, "sun".to_string(), no_clock);
    assert_eq!(r, Err(DiaryError::ClockUnavailable));
    assert_eq!(ctx.diary_entry, written_entry());

    let r = update_diary_entry(&mut ctx, "sun".to_string());
    assert_eq!(r, Err(DiaryError::ClockUnavailable));
    assert_eq!(ctx.diary_entry, written_entry());
    let r = update_diary_entry(&mut ctx, "m".repeat(841));
    assert_eq!(r, Err(DiaryError::ConstraintRaw));
}

#[test]
fn delete_checks_the_title() {
    let ctx = DeleteEntry { diary_entry: written_entry(), owner: owner() };
    assert_eq!(delete_diary_entry(&ctx, "monday".to_string()), Ok(()));
    assert_eq!(delete_diary_entry(&ctx, String::new()), Ok(()));
    assert_eq!(delete_diary_entry(&ctx, "a".repeat(30)), Ok(()));
    assert_eq!(delete_diary_entry(&ctx, "a".repeat(31)), Err(DiaryError::ConstraintRaw));
    assert_eq!(ctx.diary_entry, written_entry());
}
