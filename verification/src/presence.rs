//! The status tracker: a single slot holding the last known player count,
//! and the presence and status texts derived from it.

use vstd::prelude::*;
use vstd::string::*;

use crate::decimal::dec_digits;
use crate::decimal::u64_to_string;

verus! {

/// The presence text the platform shows: the fixed absent phrasing when the
/// server is considered offline, else the player count with correct number.
pub open spec fn presence_text(count: Option<usize>) -> Seq<char> {
    match count {
        None => "nothing"@,
        Some(n) => if n == 1 {
            "1 player"@
        } else {
            dec_digits(n as nat) + " players"@
        },
    }
}

/// The reply of the status command: an offline notice, or the online notice
/// with the player count and correct number.
pub open spec fn check_status_text(count: Option<usize>) -> Seq<char> {
    match count {
        None => "The server is currently **offline** :no_entry:"@,
        Some(n) => if n == 1 {
            "The server is currently **online** :white_check_mark: with **"@ + dec_digits(n as nat)
                + "** player"@
        } else {
            "The server is currently **online** :white_check_mark: with **"@ + dec_digits(n as nat)
                + "** players"@
        },
    }
}

/// Presence text uses the singular exactly for a count of one, and the fixed
/// absent phrasing exactly when no count is known.
pub proof fn lemma_presence_number(count: Option<usize>)
    ensures
        count is None <==> presence_text(count) == "nothing"@,
        count matches Some(n) ==> (presence_text(count) == dec_digits(n as nat) + " player"@ <==> n
            == 1),
        count matches Some(n) ==> (presence_text(count) == dec_digits(n as nat) + " players"@ <==> n
            != 1),
{
    reveal_strlit("nothing");
    reveal_strlit("1 player");
    reveal_strlit("1");
    reveal_strlit(" player");
    reveal_strlit(" players");
    match count {
        None => {
            assert(presence_text(count) == "nothing"@);
        },
        Some(n) => {
            if n == 1 {
                assert(dec_digits(1) =~= "1"@);
                assert(dec_digits(1) + " player"@ =~= "1 player"@);
                assert(("1 player"@).len() == 8);
                assert((dec_digits(1) + " players"@).len() == 9);
            } else {
                crate::decimal::lemma_dec_digits_wf(n as nat);
                let p = dec_digits(n as nat);
                assert((p + " players"@).len() == p.len() + 8);
                assert((p + " player"@).len() == p.len() + 7);
                assert(presence_text(count) == p + " players"@);
                assert((p + " players"@).len() >= 9);
                assert(("nothing"@).len() == 7);
            }
        },
    }
}

/// The last known player count; absent means the server is considered
/// offline or disconnected. Only the status tracker writes it.
pub struct PresenceState {
    /// Player count from the most recent update, absent after a disconnect.
    pub last_player_count: Option<usize>,
}

impl PresenceState {
    /// A fresh tracker: no count is known yet.
    pub fn new() -> (s: Self)
        ensures
            s.last_player_count is None,
    {
        PresenceState { last_player_count: None }
    }

    /// Overwrites the slot with the given count and returns the presence
    /// text to show for it. The caller must hold the slot exclusively for
    /// the whole write-then-show sequence.
    pub fn update(&mut self, count: Option<usize>) -> (text: String)
        ensures
            final(self).last_player_count == count,
            text@ == presence_text(count),
    {
        self.last_player_count = count;
        match count {
            None => {
                let t = String::from_str("nothing");
                t
            },
            Some(n) => {
                if n == 1 {
                    let t = String::from_str("1 player");
                    t
                } else {
                    let mut t = u64_to_string(n as u64);
                    t.append(" players");
                    proof {
                        assert(t@ =~= presence_text(count));
                    }
                    t
                }
            },
        }
    }

    /// Reads the current count for the status command.
    pub fn query(&self) -> (c: Option<usize>)
        ensures
            c == self.last_player_count,
    {
        self.last_player_count
    }

    /// The status command's reply text for the current count.
    pub fn check_message(&self) -> (text: String)
        ensures
            text@ == check_status_text(self.last_player_count),
    {
        match self.last_player_count {
            None => {
                let t = String::from_str("The server is currently **offline** :no_entry:");
                t
            },
            Some(n) => {
                let mut t = String::from_str(
                    "The server is currently **online** :white_check_mark: with **",
                );
                let num = u64_to_string(n as u64);
                t.append(num.as_str());
                if n == 1 {
                    t.append("** player");
                } else {
                    t.append("** players");
                }
                proof {
                    assert(t@ =~= check_status_text(self.last_player_count));
                }
                t
            },
        }
    }
}

} // verus!
