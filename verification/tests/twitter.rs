use anchor_lang::prelude::Pubkey;
use on_chain_vault::account::{Account, AccountInfo};
use on_chain_vault::address::Address;
use on_chain_vault::twitter::{
    add_comment, add_comment_at, find_comment_address, remove_comment, remove_reaction,
    AddCommentContext, Comment, Reaction, ReactionType, RemoveCommentContext,
    RemoveReactionContext, Tweet, TwitterError, COMMENT_LENGTH, COMMENT_SEED,
};

fn program() -> Address {
    Address::new([7; 32])
}

fn author() -> AccountInfo {
    AccountInfo { key: Address::new([5; 32]), lamports: 1_000 }
}

fn tweet() -> Account<Tweet> {
    Account { key: Address::new([6; 32]), data: Tweet { likes: 2, dislikes: 1 } }
}

fn blank_comment(key: Address) -> Account<Comment> {
    Account {
        key,
        data: Comment {
            comment_author: Address::new([0; 32]),
            parent_tweet: Address::new([0; 32]),
            content: String::new(),
            bump: 0,
        },
    }
}

fn runtime_comment_address(content: &str) -> (Address, u8) {
    let digest = anchor_lang::solana_program::hash::hash(content.as_bytes());
    let (key, bump) = Pubkey::find_program_address(
        &[b"COMMENT_SEED", &[5u8; 32], digest.to_bytes().as_ref(), &[6u8; 32]],
        &Pubkey::new_from_array([7; 32]),
    );
    (Address::new(key.to_bytes()), bump)
}

fn reaction_ctx(reaction: ReactionType, likes: u64, dislikes: u64) -> RemoveReactionContext {
    RemoveReactionContext {
        reaction_author: author(),
        tweet_reaction: Account {
            key: Address::new([8; 32]),
            data: Reaction { reaction_author: author().key, reaction, bump: 254 },
        },
        tweet: Account { key: Address::new([6; 32]), data: Tweet { likes, dislikes } },
    }
}

#[test]
fn limits_of_a_comment() {
    assert_eq!(COMMENT_LENGTH, 500);
    assert_eq!(COMMENT_SEED, "COMMENT_SEED");
}

#[test]
fn comment_address_is_the_runtime_derivation() {
    let found = find_comment_address(&program(), &author().key, "well said", &tweet().key);
    assert_eq!(found, Some(runtime_comment_address("well said")));
    assert_ne!(found, Some(runtime_comment_address("well said!")));
}

#[test]
fn comment_address_is_seeded_with_the_sha256_digest() {
    // SHA-256 of "abc".
    let digest: [u8; 32] = [
        0xba, 0x78, 0x16, 0xbf, 0x8f, 0x01, 0xcf, 0xea, 0x41, 0x41, 0x40, 0xde, 0x5d, 0xae, 0x22,
        0x23, 0xb0, 0x03, 0x61, 0xa3, 0x96, 0x17, 0x7a, 0x9c, 0xb4, 0x10, 0xff, 0x61, 0xf2, 0x00,
        0x15, 0xad,
    ];
    let (key, bump) = Pubkey::find_program_address(
        &[b"COMMENT_SEED", &[5u8; 32], &digest, &[6u8; 32]],
        &Pubkey::new_from_array([7; 32]),
    );
    let found = find_comment_address(&program(), &author().key, "abc", &tweet().key);
    assert_eq!(found, Some((Address::new(key.to_bytes()), bump)));
}

#[test]
fn comment_address_depends_on_each_seed() {
    let base = find_comment_address(&program(), &author().key, "abc", &tweet().key);
    let elsewhere = Address::new([9; 32]);
    assert_ne!(base, find_comment_address(&elsewhere, &author().key, "abc", &tweet().key));
    assert_ne!(base, find_comment_address(&program(), &tweet().key, "abc", &tweet().key));
    assert_ne!(base, find_comment_address(&program(), &author().key, "abd", &tweet().key));
    assert_ne!(base, find_comment_address(&program(), &author().key, "abc", &author().key));
}

#[test]
fn add_comment_fills_in_the_comment() {
    let (key, bump) = runtime_comment_address("well said");
    let mut ctx = AddCommentContext {
        program_id: program(),
        comment_author: author(),
        comment: blank_comment(key),
        tweet: tweet(),
    };
    assert_eq!(add_comment(&mut ctx, "well said".to_string()), Ok(()));
    assert_eq!(
        ctx.comment,
        Account {
            key,
            data: Comment {
                comment_author: author().key,
                parent_tweet: tweet().key,
                content: "well said".to_string(),
                bump,
            },
        }
    );
    assert_eq!(ctx.tweet, tweet());
    assert_eq!(ctx.comment_author, author());
    assert_eq!(ctx.program_id, program());
}

#[test]
fn add_comment_at_another_address_is_refused() {
    let (key, _) = runtime_comment_address("well said");
    let mut ctx = AddCommentContext {
        program_id: program(),
        comment_author: author(),
        comment: blank_comment(key),
        tweet: tweet(),
    };
    let before = ctx.clone();
    // The account is at the address of another content.
    let r = add_comment(&mut ctx, "well put".to_string());
    assert_eq!(r, Err(TwitterError::InvalidAccountData));
    assert_eq!(ctx, before);
    ctx.comment.key = Address::new([1; 32]);
    let r = add_comment(&mut ctx, "well said".to_string());
    assert_eq!(r, Err(TwitterError::InvalidAccountData));
    assert_eq!(ctx.comment.data, before.comment.data);
}

#[test]
fn add_comment_takes_500_bytes_and_no_more() {
    let long = "c".repeat(501);
    let (key, _) = runtime_comment_address(&long);
    let mut ctx = AddCommentContext {
        program_id: program(),
        comment_author: author(),
        comment: blank_comment(key),
        tweet: tweet(),
    };
    let before = ctx.clone();
    assert_eq!(add_comment(&mut ctx, long), Err(TwitterError::CommentTooLong));
    assert_eq!(ctx, before);

    let full = "c".repeat(500);
    let (key, bump) = runtime_comment_address(&full);
    ctx.comment.key = key;
    assert_eq!(add_comment(&mut ctx, full.clone()), Ok(()));
    assert_eq!(ctx.comment.data.content, full);
    assert_eq!(ctx.comment.data.bump, bump);

    // 167 letters of three bytes each: 501 bytes.
    let wide = "\u{20ac}".repeat(167);
    let (key, _) = runtime_comment_address(&wide);
    ctx.comment.key = key;
    assert_eq!(add_comment(&mut ctx, wide), Err(TwitterError::CommentTooLong));
}

#[test]
fn add_comment_reports_the_length_before_the_address() {
    let mut ctx = AddCommentContext {
        program_id: program(),
        comment_author: author(),
        comment: blank_comment(Address::new([1; 32])),
        tweet: tweet(),
    };
    assert_eq!(add_comment(&mut ctx, "c".repeat(501)), Err(TwitterError::CommentTooLong));
    assert_eq!(
        add_comment_at(&mut ctx, "c".repeat(501), None),
        Err(TwitterError::CommentTooLong)
    );
}

#[test]
fn add_comment_at_goes_by_the_address_it_is_given() {
    let mut ctx = AddCommentContext {
        program_id: program(),
        comment_author: author(),
        comment: blank_comment(Address::new([1; 32])),
        tweet: tweet(),
    };
    let before = ctx.clone();
    let r = add_comment_at(&mut ctx, "hi".to_string(), None);
    assert_eq!(r, Err(TwitterError::InvalidAccountData));
    assert_eq!(
        add_comment_at(&mut ctx, "hi".to_string(), Some((Address::new([2; 32]), 255))),
        Err(TwitterError::InvalidAccountData)
    );
    assert_eq!(ctx, before);
    assert_eq!(
        add_comment_at(&mut ctx, "hi".to_string(), Some((Address::new([1; 32]), 251))),
        Ok(())
    );
    assert_eq!(
        ctx.comment.data,
        Comment {
            comment_author: author().key,
            parent_tweet: tweet().key,
            content: "hi".to_string(),
            bump: 251,
        }
    );
    assert_eq!(ctx.comment.key, Address::new([1; 32]));
}

#[test]
fn add_comment_takes_an_empty_comment() {
    let (key, bump) = runtime_comment_address("");
    let mut ctx = AddCommentContext {
        program_id: program(),
        comment_author: author(),
        comment: blank_comment(key),
        tweet: tweet(),
    };
    assert_eq!(add_comment(&mut ctx, String::new()), Ok(()));
    assert_eq!(ctx.comment.data.bump, bump);
    assert_eq!(ctx.comment.data.content, "");
}

#[test]
fn remove_comment_is_admitted() {
    let ctx = RemoveCommentContext {
        comment_author: author(),
        comment: blank_comment(Address::new([1; 32])),
    };
    assert_eq!(remove_comment(&ctx), Ok(()));
}

#[test]
fn remove_like_lowers_the_likes() {
    let mut ctx = reaction_ctx(ReactionType::Like, 2, 1);
    assert_eq!(remove_reaction(&mut ctx), Ok(()));
    assert_eq!(ctx.tweet.data, Tweet { likes: 1, dislikes: 1 });
    assert_eq!(remove_reaction(&mut ctx), Ok(()));
    assert_eq!(ctx.tweet.data, Tweet { likes: 0, dislikes: 1 });
    assert_eq!(ctx.tweet_reaction, reaction_ctx(ReactionType::Like, 2, 1).tweet_reaction);
    assert_eq!(ctx.reaction_author, author());
}

#[test]
fn remove_dislike_lowers_the_dislikes() {
    let mut ctx = reaction_ctx(ReactionType::Dislike, 2, u64::MAX);
    assert_eq!(remove_reaction(&mut ctx), Ok(()));
    assert_eq!(ctx.tweet.data, Tweet { likes: 2, dislikes: u64::MAX - 1 });
    assert_eq!(ctx.tweet.key, Address::new([6; 32]));
}

#[test]
fn remove_like_at_zero_is_refused() {
    let mut ctx = reaction_ctx(ReactionType::Like, 0, 3);
    let before = ctx;
    assert_eq!(remove_reaction(&mut ctx), Err(TwitterError::MinLikesReached));
    assert_eq!(ctx, before);
}

#[test]
fn remove_dislike_at_zero_is_refused() {
    let mut ctx = reaction_ctx(ReactionType::Dislike, 3, 0);
    let before = ctx;
    assert_eq!(remove_reaction(&mut ctx), Err(TwitterError::MinDislikesReached));
    assert_eq!(ctx, before);
}
