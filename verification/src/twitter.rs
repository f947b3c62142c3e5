use vstd::prelude::*;

use vstd::string::StrSliceExecFns;

use crate::account::AccountId;

verus! {

/// The longest topic a tweet may carry, in characters.
pub const TOPIC_LENGTH: usize = 32;

/// The longest body a tweet or a comment may carry, in characters.
pub const COMMENT_LENGTH: usize = 500;

/// The ways a post can be refused or a counter change rejected.
#[derive(Clone, Copy, PartialEq, Eq, Structural, Debug)]
pub enum TwitterError {
    /// A tweet's topic exceeds `TOPIC_LENGTH`.
    TopicTooLong,
    /// A tweet's content exceeds `COMMENT_LENGTH`.
    ContentTooLong,
    /// A comment's content exceeds `COMMENT_LENGTH`.
    CommentTooLong,
    /// A like was removed from a tweet with no likes.
    MinLikesReached,
    /// A dislike was removed from a tweet with no dislikes.
    MinDislikesReached,
    /// The signer does not own the comment it asked to remove.
    NotCommentAuthor,
    /// The signer does not own the reaction it asked to remove.
    NotReactionAuthor,
}

/// The two reactions a tweet can collect.
#[derive(Clone, Copy, PartialEq, Eq, Structural, Debug)]
pub enum ReactionType {
    Like,
    Dislike,
}

/// One post: its author, its texts, and its two reaction counters.
#[derive(Debug)]
pub struct Tweet {
    pub tweet_author: AccountId,
    pub topic: String,
    pub content: String,
    pub likes: u64,
    pub dislikes: u64,
}

/// One comment under a tweet. The parent tweet is named by its author's
/// identity, since each author has exactly one tweet account.
#[derive(Debug)]
pub struct Comment {
    pub comment_author: AccountId,
    pub content: String,
    pub parent_tweet: AccountId,
}

/// One reaction to a tweet, owned by whoever placed it.
#[derive(Clone, Copy, PartialEq, Eq, Structural, Debug)]
pub struct Reaction {
    pub reaction_author: AccountId,
    pub reaction: ReactionType,
    pub parent_tweet: AccountId,
}

/// Start a tweet: both texts must fit their limits, the topic being checked
/// first. A fresh tweet has both counters at zero.
pub fn initialize_tweet(tweet_author: AccountId, topic: String, content: String) -> (r: Result<
    Tweet,
    TwitterError,
>)
    ensures
        r is Ok <==> topic@.len() <= TOPIC_LENGTH && content@.len() <= COMMENT_LENGTH,
        r matches Ok(t) ==> t == (Tweet { tweet_author, topic, content, likes: 0u64, dislikes: 0u64 }),
        topic@.len() > TOPIC_LENGTH ==> r == Err::<Tweet, TwitterError>(TwitterError::TopicTooLong),
        topic@.len() <= TOPIC_LENGTH && content@.len() > COMMENT_LENGTH ==> r == Err::<
            Tweet,
            TwitterError,
        >(TwitterError::ContentTooLong),
{
    if topic.as_str().unicode_len() > TOPIC_LENGTH {
        return Err(TwitterError::TopicTooLong);
    }
    if content.as_str().unicode_len() > COMMENT_LENGTH {
        return Err(TwitterError::ContentTooLong);
    }
    Ok(Tweet { tweet_author, topic, content, likes: 0, dislikes: 0 })
}

/// Attach a comment to a tweet, provided its content fits the limit.
pub fn add_comment(
    comment_author: AccountId,
    comment_content: String,
    parent_tweet: AccountId,
) -> (r: Result<Comment, TwitterError>)
    ensures
        r is Ok <==> comment_content@.len() <= COMMENT_LENGTH,
        r matches Ok(c) ==> c == (Comment {
            comment_author,
            content: comment_content,
            parent_tweet,
        }),
        r is Err ==> r == Err::<Comment, TwitterError>(TwitterError::CommentTooLong),
{
    if comment_content.as_str().unicode_len() > COMMENT_LENGTH {
        return Err(TwitterError::CommentTooLong);
    }
    Ok(Comment { comment_author, content: comment_content, parent_tweet })
}

/// Removing a comment only asks that the signer owns it; the account itself
/// is simply dropped by the caller.
pub fn remove_comment(comment: &Comment, signer: AccountId) -> (r: Result<(), TwitterError>)
    ensures
        r is Ok <==> comment.comment_author == signer,
        r is Err ==> r == Err::<(), TwitterError>(TwitterError::NotCommentAuthor),
{
    if comment.comment_author.id == signer.id {
        Ok(())
    } else {
        Err(TwitterError::NotCommentAuthor)
    }
}

/// Place a reaction: the matching counter on the tweet rises by one, and the
/// created reaction records its owner and kind. The caller keeps each counter
/// below its width, so the increment can never wrap.
pub fn add_reaction(tweet: &mut Tweet, reaction_author: AccountId, reaction: ReactionType) -> (r:
    Reaction)
    requires
        reaction == ReactionType::Like ==> old(tweet).likes < u64::MAX,
        reaction == ReactionType::Dislike ==> old(tweet).dislikes < u64::MAX,
    ensures
        reaction == ReactionType::Like ==> final(tweet).likes == old(tweet).likes + 1
            && final(tweet).dislikes == old(tweet).dislikes,
        reaction == ReactionType::Dislike ==> final(tweet).dislikes == old(tweet).dislikes + 1
            && final(tweet).likes == old(tweet).likes,
        final(tweet).tweet_author == old(tweet).tweet_author,
        final(tweet).topic == old(tweet).topic,
        final(tweet).content == old(tweet).content,
        r == (Reaction { reaction_author, reaction, parent_tweet: old(tweet).tweet_author }),
{
    let created = Reaction { reaction_author, reaction, parent_tweet: tweet.tweet_author };
    match reaction {
        ReactionType::Like => {
            tweet.likes = tweet.likes + 1;
        },
        ReactionType::Dislike => {
            tweet.dislikes = tweet.dislikes + 1;
        },
    }
    created
}

/// When taking `reaction` off `tweet` is allowed: the signer owns it and the
/// matching counter has something to give back.
pub open spec fn remove_reaction_allowed(
    tweet: Tweet,
    signer: AccountId,
    tweet_reaction: Reaction,
) -> bool {
    &&& tweet_reaction.reaction_author == signer
    &&& (tweet_reaction.reaction == ReactionType::Like ==> tweet.likes > 0)
    &&& (tweet_reaction.reaction == ReactionType::Dislike ==> tweet.dislikes > 0)
}

/// The error a refused removal reports: ownership is checked before the
/// counters.
pub open spec fn remove_reaction_error(
    tweet: Tweet,
    signer: AccountId,
    tweet_reaction: Reaction,
) -> TwitterError {
    if tweet_reaction.reaction_author != signer {
        TwitterError::NotReactionAuthor
    } else if tweet_reaction.reaction == ReactionType::Like {
        TwitterError::MinLikesReached
    } else {
        TwitterError::MinDislikesReached
    }
}

/// Take a reaction off its tweet: the matching counter falls by one. A
/// signer that does not own the reaction, or a counter already at zero, is
/// refused and the tweet is unchanged.
pub fn remove_reaction(tweet: &mut Tweet, signer: AccountId, tweet_reaction: &Reaction) -> (r:
    Result<(), TwitterError>)
    ensures
        r is Ok <==> remove_reaction_allowed(*old(tweet), signer, *tweet_reaction),
        r is Ok ==> ({
            &&& (tweet_reaction.reaction == ReactionType::Like ==> final(tweet).likes == old(
                tweet,
            ).likes - 1 && final(tweet).dislikes == old(tweet).dislikes)
            &&& (tweet_reaction.reaction == ReactionType::Dislike ==> final(tweet).dislikes == old(
                tweet,
            ).dislikes - 1 && final(tweet).likes == old(tweet).likes)
            &&& final(tweet).tweet_author == old(tweet).tweet_author
            &&& final(tweet).topic == old(tweet).topic
            &&& final(tweet).content == old(tweet).content
        }),
        r matches Err(e) ==> e == remove_reaction_error(*old(tweet), signer, *tweet_reaction)
            && *final(tweet) == *old(tweet),
{
    if tweet_reaction.reaction_author.id != signer.id {
        return Err(TwitterError::NotReactionAuthor);
    }
    match tweet_reaction.reaction {
        ReactionType::Like => {
            if tweet.likes == 0 {
                return Err(TwitterError::MinLikesReached);
            }
            tweet.likes = tweet.likes - 1;
        },
        ReactionType::Dislike => {
            if tweet.dislikes == 0 {
                return Err(TwitterError::MinDislikesReached);
            }
            tweet.dislikes = tweet.dislikes - 1;
        },
    }
    Ok(())
}

} // verus!
