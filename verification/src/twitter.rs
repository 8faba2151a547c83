//! A board of tweets: comments on a tweet, and the removal of comments and
//! reactions.

use vstd::prelude::*;
use vstd::slice::slice_to_vec;
use vstd::string::StringSliceAdditionalSpecFns;
use vstd::utf8::encode_utf8;
use crate::account::{Account, AccountInfo};
use crate::address::Address;
use crate::hash::{hash, sha256};
use crate::pda::{found_view, is_derived, program_address, seeds_view, try_find_program_address};

verus! {

/// The most bytes a comment may take.
pub const COMMENT_LENGTH: usize = 500;

/// The tag under which comments are addressed.
pub const COMMENT_SEED: &'static str = "COMMENT_SEED";

/// Why an operation on the board is refused.
#[derive(Clone, Copy, Debug, PartialEq, Eq, Structural)]
pub enum TwitterError {
    /// The comment takes more bytes than a comment may.
    CommentTooLong,
    /// The tweet has no like left to take back.
    MinLikesReached,
    /// The tweet has no dislike left to take back.
    MinDislikesReached,
    /// The comment's account is not at the address derived for the comment.
    InvalidAccountData,
}

/// How a reader reacted to a tweet.
#[derive(Clone, Copy, Debug, PartialEq, Eq, Structural)]
pub enum ReactionType {
    Like,
    Dislike,
}

/// The counters of a tweet.
#[derive(Clone, Copy, Debug, PartialEq, Eq)]
pub struct Tweet {
    pub likes: u64,
    pub dislikes: u64,
}

/// One reader's reaction to a tweet.
#[derive(Clone, Copy, Debug, PartialEq, Eq)]
pub struct Reaction {
    pub reaction_author: Address,
    pub reaction: ReactionType,
    pub bump: u8,
}

/// A comment on a tweet.
#[derive(Clone, Debug, PartialEq, Eq)]
pub struct Comment {
    pub comment_author: Address,
    pub parent_tweet: Address,
    pub content: String,
    /// The bump seed of the comment's address.
    pub bump: u8,
}

/// The accounts of a new comment.
#[derive(Clone, Debug, PartialEq, Eq)]
pub struct AddCommentContext {
    /// The program that runs the board.
    pub program_id: Address,
    /// The writer of the comment, who has signed.
    pub comment_author: AccountInfo,
    /// The comment to fill in.
    pub comment: Account<Comment>,
    /// The tweet that is commented on.
    pub tweet: Account<Tweet>,
}

/// The accounts of the removal of a comment.
#[derive(Clone, Debug, PartialEq, Eq)]
pub struct RemoveCommentContext {
    /// The writer of the comment, who has signed.
    pub comment_author: AccountInfo,
    /// The comment to remove.
    pub comment: Account<Comment>,
}

/// The accounts of the removal of a reaction.
#[derive(Clone, Copy, Debug, PartialEq, Eq)]
pub struct RemoveReactionContext {
    /// The reader who reacted, and who has signed.
    pub reaction_author: AccountInfo,
    /// The reaction to remove.
    pub tweet_reaction: Account<Reaction>,
    /// The tweet that was reacted to.
    pub tweet: Account<Tweet>,
}

/// Whether a comment's content fits a comment.
pub open spec fn comment_fits(content: Seq<char>) -> bool {
    encode_utf8(content).len() <= COMMENT_LENGTH
}

/// The seeds of a comment's address: the tag, the writer, the SHA-256 digest
/// of the content, and the tweet.
pub open spec fn comment_seeds(author: Address, content: Seq<char>, tweet: Address) -> Seq<
    Seq<u8>,
> {
    seq![COMMENT_SEED.spec_bytes(), author@, sha256(encode_utf8(content)), tweet@]
}

/// The address of the comment with the given content that `author` writes on
/// `tweet`, with its bump seed.
pub open spec fn comment_pda(
    program_id: Address,
    author: Address,
    content: Seq<char>,
    tweet: Address,
) -> Option<(Seq<u8>, u8)> {
    program_address(comment_seeds(author, content, tweet), program_id@)
}

impl AddCommentContext {
    /// The error with which a comment is refused, given the address derived
    /// for it: `None` where it is taken. The length is checked first, then the
    /// address of the comment's account.
    pub open spec fn refusal(&self, content: Seq<char>, found: Option<(Seq<u8>, u8)>) -> Option<
        TwitterError,
    > {
        if !comment_fits(content) {
            Some(TwitterError::CommentTooLong)
        } else if !is_derived(self.comment.key, found) {
            Some(TwitterError::InvalidAccountData)
        } else {
            None
        }
    }

    /// Whether these accounts and what the addition of a comment returned are
    /// the outcome of that addition on the accounts `before`.
    pub open spec fn is_outcome(
        &self,
        r: Result<(), TwitterError>,
        before: AddCommentContext,
        content: String,
        found: Option<(Seq<u8>, u8)>,
    ) -> bool {
        match before.refusal(content@, found) {
            Some(error) => r == Err::<(), TwitterError>(error) && *self == before,
            None => {
                &&& r == Ok::<(), TwitterError>(())
                &&& self.program_id == before.program_id
                &&& self.comment_author == before.comment_author
                &&& self.tweet == before.tweet
                &&& self.comment.key == before.comment.key
                &&& self.comment.data == (Comment {
                    comment_author: before.comment_author.key,
                    parent_tweet: before.tweet.key,
                    content: content,
                    bump: found->Some_0.1,
                })
            },
        }
    }
}

/// Fills in a comment on a tweet, given the address that was derived for the
/// comment.
///
/// The comment is refused with `CommentTooLong` where its content takes more
/// than 500 bytes, else with `InvalidAccountData` where the comment's account
/// is not at the derived address; a refused comment changes nothing. Otherwise
/// the comment records its writer, the tweet, the content and the bump seed of
/// its address.
pub fn add_comment_at(
    ctx: &mut AddCommentContext,
    comment_content: String,
    found: Option<(Address, u8)>,
) -> (r: Result<(), TwitterError>)
    ensures
        final(ctx).is_outcome(r, *old(ctx), comment_content, found_view(found)),
{
    if comment_content.as_str().as_bytes().len() > COMMENT_LENGTH {
        return Err(TwitterError::CommentTooLong);
    }
    match found {
        None => Err(TwitterError::InvalidAccountData),
        Some((address, bump)) => {
            proof {
                ctx.comment.key.lemma_view_injective(address);
            }
            if ctx.comment.key != address {
                return Err(TwitterError::InvalidAccountData);
            }
            ctx.comment.data.comment_author = ctx.comment_author.key;
            ctx.comment.data.parent_tweet = ctx.tweet.key;
            ctx.comment.data.content = comment_content;
            ctx.comment.data.bump = bump;
            Ok(())
        },
    }
}

/// Derives the address of the comment with the given content that `author`
/// writes on `tweet`.
pub fn find_comment_address(
    program_id: &Address,
    author: &Address,
    comment_content: &str,
    tweet: &Address,
) -> (found: Option<(Address, u8)>)
    ensures
        found_view(found) == comment_pda(*program_id, *author, comment_content@, *tweet),
{
    let digest = hash(comment_content.as_bytes());
    let mut seeds: Vec<Vec<u8>> = Vec::new();
    seeds.push(slice_to_vec(COMMENT_SEED.as_bytes()));
    seeds.push(author.to_vec());
    seeds.push(Address::new(digest).to_vec());
    seeds.push(tweet.to_vec());
    assert(seeds_view(seeds) =~= comment_seeds(*author, comment_content@, *tweet));
    try_find_program_address(&seeds, program_id)
}

/// Fills in a comment on a tweet. The comment's address is derived from its
/// writer, the digest of its content and the tweet; the rest is as in
/// [`add_comment_at`].
pub fn add_comment(ctx: &mut AddCommentContext, comment_content: String) -> (r: Result<
    (),
    TwitterError,
>)
    ensures
        final(ctx).is_outcome(
            r,
            *old(ctx),
            comment_content,
            comment_pda(
                old(ctx).program_id,
                old(ctx).comment_author.key,
                comment_content@,
                old(ctx).tweet.key,
            ),
        ),
{
    let found = find_comment_address(
        &ctx.program_id,
        &ctx.comment_author.key,
        comment_content.as_str(),
        &ctx.tweet.key,
    );
    add_comment_at(ctx, comment_content, found)
}

/// Admits the removal of a comment. Nothing is checked here and nothing
/// changes: closing the comment's account is the runtime's part.
#[allow(unused_variables)]
pub fn remove_comment(ctx: &RemoveCommentContext) -> (r: Result<(), TwitterError>)
    ensures
        r == Ok::<(), TwitterError>(()),
{
    Ok(())
}

impl RemoveReactionContext {
    /// The error with which the removal of the reaction is refused: the
    /// counter that the reaction once raised is already at zero. `None` where
    /// the removal goes through.
    pub open spec fn refusal(&self) -> Option<TwitterError> {
        match self.tweet_reaction.data.reaction {
            ReactionType::Like => if self.tweet.data.likes == 0 {
                Some(TwitterError::MinLikesReached)
            } else {
                None
            },
            ReactionType::Dislike => if self.tweet.data.dislikes == 0 {
                Some(TwitterError::MinDislikesReached)
            } else {
                None
            },
        }
    }

    /// The tweet's counters after the reaction is removed: the counter of the
    /// reaction's kind is one lower, the other as it was.
    pub open spec fn settled_tweet(&self) -> Tweet {
        match self.tweet_reaction.data.reaction {
            ReactionType::Like => Tweet {
                likes: (self.tweet.data.likes - 1) as u64,
                dislikes: self.tweet.data.dislikes,
            },
            ReactionType::Dislike => Tweet {
                likes: self.tweet.data.likes,
                dislikes: (self.tweet.data.dislikes - 1) as u64,
            },
        }
    }
}

/// Takes a reaction back from its tweet: a like lowers the tweet's likes by
/// one, a dislike its dislikes.
///
/// The removal is refused with `MinLikesReached` or `MinDislikesReached` where
/// that counter is already at zero, and then changes nothing. Otherwise only
/// that counter changes.
pub fn remove_reaction(ctx: &mut RemoveReactionContext) -> (r: Result<(), TwitterError>)
    ensures
        final(ctx).reaction_author == old(ctx).reaction_author,
        final(ctx).tweet_reaction == old(ctx).tweet_reaction,
        final(ctx).tweet.key == old(ctx).tweet.key,
        match old(ctx).refusal() {
            Some(error) => r == Err::<(), TwitterError>(error) && *final(ctx) == *old(ctx),
            None => r == Ok::<(), TwitterError>(()) && final(ctx).tweet.data == old(
                ctx,
            ).settled_tweet(),
        },
{
    match ctx.tweet_reaction.data.reaction {
        ReactionType::Like => {
            if ctx.tweet.data.likes == 0 {
                return Err(TwitterError::MinLikesReached);
            }
            ctx.tweet.data.likes = ctx.tweet.data.likes - 1;
        },
        ReactionType::Dislike => {
            if ctx.tweet.data.dislikes == 0 {
                return Err(TwitterError::MinDislikesReached);
            }
            ctx.tweet.data.dislikes = ctx.tweet.data.dislikes - 1;
        },
    }
    Ok(())
}

} // verus!
