use vstd::prelude::*;

use crate::errors::SolFightError;
use crate::events::ProfileCreated;
use crate::rating::INITIAL_RATING;
use crate::state::{PlayerProfile, Pubkey};

verus! {

/// Longest display name accepted, in UTF-8 bytes.
pub const MAX_GAMER_TAG_BYTES: usize = 16;

/// Registers a player: a fresh profile with the initial rating and every
/// counter at zero.
///
/// Succeeds exactly when the display name encodes to 1 to 16 UTF-8
/// bytes.  That a player registers only once is the storage layer's
/// charge: it must refuse to store a second profile for the same owner.
pub fn handler(player: Pubkey, gamer_tag: String, now: i64) -> (r: Result<
    (PlayerProfile, ProfileCreated),
    SolFightError,
>)
    requires
        vstd::utf8::encode_utf8(gamer_tag@).len() <= usize::MAX,
    ensures
        r is Ok <==> 1 <= vstd::utf8::encode_utf8(gamer_tag@).len() <= MAX_GAMER_TAG_BYTES,
        r matches Ok((p, ev)) ==> {
            &&& p.authority == player
            &&& p.gamer_tag@ == gamer_tag@
            &&& p.elo_rating == INITIAL_RATING
            &&& p.wins == 0
            &&& p.losses == 0
            &&& p.total_pnl == 0
            &&& p.current_streak == 0
            &&& p.games_played == 0
            &&& p.created_at == now
            &&& p.wf()
            &&& ev.player == player
            &&& ev.gamer_tag@ == gamer_tag@
            &&& ev.timestamp == now
        },
        r matches Err(e) ==> e == if vstd::utf8::encode_utf8(gamer_tag@).len() == 0 {
            SolFightError::GamerTagEmpty
        } else {
            SolFightError::GamerTagTooLong
        },
{
    let tag_bytes: usize = gamer_tag.as_str().len();
    if tag_bytes == 0 {
        return Err(SolFightError::GamerTagEmpty);
    }
    if tag_bytes > MAX_GAMER_TAG_BYTES {
        return Err(SolFightError::GamerTagTooLong);
    }
    let event_tag: String = gamer_tag.clone();
    let profile = PlayerProfile {
        authority: player,
        gamer_tag,
        elo_rating: INITIAL_RATING,
        wins: 0,
        losses: 0,
        total_pnl: 0,
        current_streak: 0,
        games_played: 0,
        created_at: now,
    };
    Ok((profile, ProfileCreated { player, gamer_tag: event_tag, timestamp: now }))
}

} // verus!
