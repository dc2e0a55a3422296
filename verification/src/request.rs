//! Name-change requests: rendering a request as an actionable chat message,
//! and recovering the request from that rendered text.
//!
//! The rendered line `Name request from Player <uid>: **<name>**` is the only
//! record of a pending request; no side table maps messages to requests. The
//! recovery parser is therefore the exact inverse of the renderer, and its
//! grammar is part of the wire contract.

use vstd::prelude::*;
use vstd::string::*;

use crate::decimal::{
    dec_digits, digits_to_u64, digits_value, is_dec_digit, is_dec_digit_exec,
    lemma_dec_digits_wf, lemma_digits_value_dec_digits, u64_to_string,
};

verus! {

/// A pending player name-change request. Two requests are the same request
/// exactly when both fields agree; there is no further identifier.
#[derive(Clone, Debug)]
pub struct NameRequest {
    /// Unique integer identifier of the requesting player.
    pub player_uid: u64,
    /// The requested display name; untrusted free text.
    pub requested_name: String,
}

/// Why recovery of a request from rendered text failed.
#[derive(Clone, Copy, Debug, PartialEq, Eq, Structural)]
pub enum ParseError {
    /// The text does not match the fixed rendered shape.
    Malformed,
    /// The captured digits do not fit an unsigned 64-bit identifier.
    InvalidIdentifier,
}

/// The fixed leading text of a rendered request.
pub open spec fn prefix_text() -> Seq<char> {
    "Name request from Player "@
}

/// The fixed separator between the identifier digits and the name.
pub open spec fn mid_text() -> Seq<char> {
    ": **"@
}

/// The fixed trailing delimiter after the name.
pub open spec fn stars_text() -> Seq<char> {
    "**"@
}

/// A captured identifier: one or more decimal digit characters.
pub open spec fn valid_digits(d: Seq<char>) -> bool {
    d.len() >= 1 && forall|i: int| 0 <= i < d.len() ==> is_dec_digit(#[trigger] d[i])
}

/// A name as the rendered shape admits it: nonempty, and free of newlines
/// (the pattern's any-character class does not cross a line).
pub open spec fn valid_name(n: Seq<char>) -> bool {
    n.len() >= 1 && forall|i: int| 0 <= i < n.len() ==> #[trigger] n[i] != '\n'
}

/// `t` splits as `Name request from Player <d>: **<n>**`, with the name taken
/// greedily to the closing delimiter at the very end of the text.
pub open spec fn is_decomposition(t: Seq<char>, d: Seq<char>, n: Seq<char>) -> bool {
    &&& valid_digits(d)
    &&& valid_name(n)
    &&& t == prefix_text() + d + mid_text() + n + stars_text()
}

/// `t` matches the fixed rendered shape of a name-request message.
pub open spec fn matches_shape(t: Seq<char>) -> bool {
    exists|d: Seq<char>, n: Seq<char>| is_decomposition(t, d, n)
}

/// The rendered text of a request with the given fields.
pub open spec fn render_text(player_uid: u64, requested_name: Seq<char>) -> Seq<char> {
    prefix_text() + dec_digits(player_uid as nat) + mid_text() + requested_name + stars_text()
}

/// `req` is the request that text `t` denotes: some decomposition of `t`
/// yields exactly its identifier and name.
pub open spec fn recovers_to(t: Seq<char>, req: NameRequest) -> bool {
    exists|d: Seq<char>, n: Seq<char>|
        is_decomposition(t, d, n) && digits_value(d) == req.player_uid && req.requested_name@ == n
}

/// What recovery returns for text `t`: the denoted request, `Malformed` for
/// text of the wrong shape, `InvalidIdentifier` for an identifier too large.
pub open spec fn recover_post(t: Seq<char>, r: Result<NameRequest, ParseError>) -> bool {
    match r {
        Ok(req) => recovers_to(t, req),
        Err(ParseError::Malformed) => !matches_shape(t),
        Err(ParseError::InvalidIdentifier) => exists|d: Seq<char>, n: Seq<char>|
            is_decomposition(t, d, n) && digits_value(d) > u64::MAX,
    }
}

/// How a control is styled: affirmative for approval, destructive for denial.
#[derive(Clone, Copy, Debug, PartialEq, Eq, Structural)]
pub enum ControlStyle {
    Affirmative,
    Destructive,
}

/// An interactive control attached to a rendered request message.
pub struct Control {
    /// The identifier the platform hands back when the control is pressed.
    pub custom_id: String,
    /// The text shown on the control.
    pub label: String,
    pub style: ControlStyle,
}

/// The ghost shape of a control.
pub struct ControlSpec {
    pub custom_id: Seq<char>,
    pub label: Seq<char>,
    pub style: ControlStyle,
}

impl View for Control {
    type V = ControlSpec;

    open spec fn view(&self) -> ControlSpec {
        ControlSpec { custom_id: self.custom_id@, label: self.label@, style: self.style }
    }
}

/// The identifier of the approval control.
pub open spec fn approve_id() -> Seq<char> {
    "namereq_approve"@
}

/// The identifier of the denial control.
pub open spec fn deny_id() -> Seq<char> {
    "namereq_deny"@
}

/// The fixed pair of controls on a rendered request: approve, then deny.
pub open spec fn approval_controls_spec() -> Seq<ControlSpec> {
    seq![
        ControlSpec { custom_id: approve_id(), label: "Approve"@, style: ControlStyle::Affirmative },
        ControlSpec { custom_id: deny_id(), label: "Deny"@, style: ControlStyle::Destructive },
    ]
}

/// Builds the fixed pair of controls attached to every rendered request.
pub fn approval_controls() -> (c: Vec<Control>)
    ensures
        c@.map_values(|x: Control| x@) == approval_controls_spec(),
{
    let approve = Control {
        custom_id: String::from_str("namereq_approve"),
        label: String::from_str("Approve"),
        style: ControlStyle::Affirmative,
    };
    let deny = Control {
        custom_id: String::from_str("namereq_deny"),
        label: String::from_str("Deny"),
        style: ControlStyle::Destructive,
    };
    let mut c: Vec<Control> = Vec::new();
    c.push(approve);
    c.push(deny);
    proof {
        assert(c@.map_values(|x: Control| x@) =~~= approval_controls_spec());
    }
    c
}

/// Structural consequences of a decomposition: where each region of the text
/// lies and what its characters are.
pub proof fn lemma_decomposition_facts(t: Seq<char>, d: Seq<char>, n: Seq<char>)
    requires
        is_decomposition(t, d, n),
    ensures
        t.len() == 31 + d.len() + n.len(),
        t.len() >= 33,
        forall|i: int| 0 <= i < 25 ==> t[i] == prefix_text()[i],
        forall|i: int| 25 <= i < 25 + d.len() ==> is_dec_digit(#[trigger] t[i]),
        t[25 + d.len() as int] == ':',
        t[25 + d.len() + 1 as int] == ' ',
        t[25 + d.len() + 2 as int] == '*',
        t[25 + d.len() + 3 as int] == '*',
        forall|i: int| 25 + d.len() + 4 <= i < t.len() - 2 ==> #[trigger] t[i] != '\n',
        t[t.len() - 2] == '*',
        t[t.len() - 1] == '*',
        !is_dec_digit(t[25 + d.len() as int]),
        d =~= t.subrange(25, 25 + d.len() as int),
        n =~= t.subrange(25 + d.len() + 4 as int, t.len() - 2),
{
    reveal_strlit("Name request from Player ");
    reveal_strlit(": **");
    reveal_strlit("**");
    assert(prefix_text().len() == 25);
    assert(mid_text().len() == 4);
    assert(stars_text().len() == 2);
    let full = prefix_text() + d + mid_text() + n + stars_text();
    assert(t == full);
    assert(full.len() == 31 + d.len() + n.len());
    assert(mid_text()[0] == ':');
    assert(mid_text()[1] == ' ');
    assert(mid_text()[2] == '*');
    assert(mid_text()[3] == '*');
    assert(stars_text()[0] == '*');
    assert(stars_text()[1] == '*');
    assert(':' as u32 == 58);
}

/// In a decomposition, the digit region is the maximal digit run after the
/// prefix: any scan that stops at the first non-digit stops exactly there.
pub proof fn lemma_digit_run(t: Seq<char>, d: Seq<char>, n: Seq<char>, e: int)
    requires
        is_decomposition(t, d, n),
        25 <= e <= t.len(),
        forall|i: int| 25 <= i < e ==> is_dec_digit(#[trigger] t[i]),
        e == t.len() || !is_dec_digit(t[e]),
    ensures
        e == 25 + d.len(),
{
    lemma_decomposition_facts(t, d, n);
    if e < 25 + d.len() {
        assert(is_dec_digit(t[e]));
        assert(e < t.len());
        assert(false);
    }
    if e > 25 + d.len() {
        assert(is_dec_digit(t[25 + d.len() as int]));
        assert(false);
    }
}

/// A text decomposes in at most one way: the digit and name regions are
/// determined by the text alone.
pub proof fn lemma_decomposition_unique(
    t: Seq<char>,
    d1: Seq<char>,
    n1: Seq<char>,
    d2: Seq<char>,
    n2: Seq<char>,
)
    requires
        is_decomposition(t, d1, n1),
        is_decomposition(t, d2, n2),
    ensures
        d1 == d2,
        n1 == n2,
{
    lemma_decomposition_facts(t, d1, n1);
    lemma_decomposition_facts(t, d2, n2);
    lemma_digit_run(t, d2, n2, 25 + d1.len() as int);
    assert(d1 =~= d2);
    assert(n1 =~= n2);
}

/// The rendered text of any admissible request decomposes into exactly the
/// fields it was rendered from; recovery is the inverse of rendering.
pub proof fn lemma_render_recover(player_uid: u64, name: Seq<char>)
    requires
        valid_name(name),
    ensures
        is_decomposition(render_text(player_uid, name), dec_digits(player_uid as nat), name),
        digits_value(dec_digits(player_uid as nat)) == player_uid,
        matches_shape(render_text(player_uid, name)),
{
    lemma_dec_digits_wf(player_uid as nat);
    lemma_digits_value_dec_digits(player_uid as nat);
    let t = render_text(player_uid, name);
    let d = dec_digits(player_uid as nat);
    assert(is_decomposition(t, d, name));
}

/// Round trip: whatever request recovery reads out of rendered text carries
/// the identifier and name the text was rendered from.
pub proof fn lemma_round_trip(player_uid: u64, name: Seq<char>, out: NameRequest)
    requires
        valid_name(name),
        recovers_to(render_text(player_uid, name), out),
    ensures
        out.player_uid == player_uid,
        out.requested_name@ == name,
{
    lemma_render_recover(player_uid, name);
    let t = render_text(player_uid, name);
    let (d2, n2) = choose|d2: Seq<char>, n2: Seq<char>|
        is_decomposition(t, d2, n2) && digits_value(d2) == out.player_uid
            && out.requested_name@ == n2;
    lemma_decomposition_unique(t, dec_digits(player_uid as nat), name, d2, n2);
}

/// Text outside the fixed shape always recovers to `Malformed`: never a
/// request, never the identifier error, and (being verified) never a panic.
pub proof fn lemma_unmatched_malformed(t: Seq<char>, r: Result<NameRequest, ParseError>)
    requires
        recover_post(t, r),
        !matches_shape(t),
    ensures
        r == Err::<NameRequest, ParseError>(ParseError::Malformed),
{
    match r {
        Ok(req) => {
            let (d, n) = choose|d: Seq<char>, n: Seq<char>|
                is_decomposition(t, d, n) && digits_value(d) == req.player_uid
                    && req.requested_name@ == n;
            assert(matches_shape(t));
        },
        Err(e) => {
            if e is InvalidIdentifier {
                let (d, n) = choose|d: Seq<char>, n: Seq<char>|
                    is_decomposition(t, d, n) && digits_value(d) > u64::MAX;
                assert(matches_shape(t));
            }
        },
    }
}

/// Recovery is a function of the text alone: one text denotes at most one
/// request identity (the identifier and name pair).
pub proof fn lemma_recovery_unique(t: Seq<char>, a: NameRequest, b: NameRequest)
    requires
        recovers_to(t, a),
        recovers_to(t, b),
    ensures
        a.player_uid == b.player_uid,
        a.requested_name@ == b.requested_name@,
{
    let (da, na) = choose|d: Seq<char>, n: Seq<char>|
        is_decomposition(t, d, n) && digits_value(d) == a.player_uid && a.requested_name@ == n;
    let (db, nb) = choose|d: Seq<char>, n: Seq<char>|
        is_decomposition(t, d, n) && digits_value(d) == b.player_uid && b.requested_name@ == n;
    lemma_decomposition_unique(t, da, na, db, nb);
}

impl NameRequest {
    /// Renders this request as the fixed single-line message shape.
    pub fn render_message(&self) -> (s: String)
        ensures
            s@ == render_text(self.player_uid, self.requested_name@),
    {
        let mut s = String::from_str("Name request from Player ");
        let num = u64_to_string(self.player_uid);
        s.append(num.as_str());
        s.append(": **");
        s.append(self.requested_name.as_str());
        s.append("**");
        proof {
            assert(s@ =~= render_text(self.player_uid, self.requested_name@));
        }
        s
    }

    /// Reconstructs the request from the text of a previously sent
    /// notification message; there is no stored state to rely on.
    pub fn parse_from_notification_message(msg: &str) -> (r: Result<NameRequest, ParseError>)
        ensures
            recover_post(msg@, r),
    {
        proof {
            reveal_strlit("Name request from Player ");
            reveal_strlit(": **");
            reveal_strlit("**");
        }
        let p = "Name request from Player ";
        assert(p@ == prefix_text());
        let len = msg.unicode_len();
        if len < 33 {
            proof {
                assert(!matches_shape(msg@)) by {
                    if matches_shape(msg@) {
                        let (d, n) = choose|d: Seq<char>, n: Seq<char>|
                            is_decomposition(msg@, d, n);
                        lemma_decomposition_facts(msg@, d, n);
                    }
                }
            }
            return Err(ParseError::Malformed);
        }
        let mut i: usize = 0;
        while i < 25
            invariant
                25 <= len == msg@.len(),
                i <= 25,
                p@ == prefix_text(),
                forall|j: int| 0 <= j < i ==> msg@[j] == prefix_text()[j],
            decreases 25 - i,
        {
            proof {
                reveal_strlit("Name request from Player ");
            }
            assert(p@.len() == 25);
            if msg.get_char(i) != p.get_char(i) {
                proof {
                    assert(!matches_shape(msg@)) by {
                        if matches_shape(msg@) {
                            let (d, n) = choose|d: Seq<char>, n: Seq<char>|
                                is_decomposition(msg@, d, n);
                            lemma_decomposition_facts(msg@, d, n);
                        }
                    }
                }
                return Err(ParseError::Malformed);
            }
            i = i + 1;
        }
        // Scan the maximal run of digit characters after the prefix.
        let mut e: usize = 25;
        loop
            invariant
                25 <= e <= len,
                len == msg@.len(),
                33 <= len,
                forall|j: int| 25 <= j < e ==> is_dec_digit(#[trigger] msg@[j]),
            ensures
                25 <= e <= len,
                forall|j: int| 25 <= j < e ==> is_dec_digit(#[trigger] msg@[j]),
                e == len || !is_dec_digit(msg@[e as int]),
            decreases len - e,
        {
            if e >= len {
                break ;
            }
            if !is_dec_digit_exec(msg.get_char(e)) {
                break ;
            }
            e = e + 1;
        }
        if e == 25 || e >= len - 6 {
            proof {
                assert(!matches_shape(msg@)) by {
                    if matches_shape(msg@) {
                        let (d, n) = choose|d: Seq<char>, n: Seq<char>|
                            is_decomposition(msg@, d, n);
                        lemma_decomposition_facts(msg@, d, n);
                        lemma_digit_run(msg@, d, n, e as int);
                    }
                }
            }
            return Err(ParseError::Malformed);
        }
        // The four-character separator, then the closing delimiter at the end.
        let sep_ok = msg.get_char(e) == ':' && msg.get_char(e + 1) == ' ' && msg.get_char(e + 2)
            == '*' && msg.get_char(e + 3) == '*';
        let end_ok = msg.get_char(len - 2) == '*' && msg.get_char(len - 1) == '*';
        if !sep_ok || !end_ok {
            proof {
                assert(!matches_shape(msg@)) by {
                    if matches_shape(msg@) {
                        let (d, n) = choose|d: Seq<char>, n: Seq<char>|
                            is_decomposition(msg@, d, n);
                        lemma_decomposition_facts(msg@, d, n);
                        lemma_digit_run(msg@, d, n, e as int);
                    }
                }
            }
            return Err(ParseError::Malformed);
        }
        // The name region: nonempty, and must not cross a line.
        let ns = e + 4;
        let ne = len - 2;
        let mut k: usize = ns;
        while k < ne
            invariant
                25 <= e,
                e + 7 <= len,
                ns == e + 4,
                ne == len - 2,
                ns <= k <= ne,
                len == msg@.len(),
                forall|j: int| ns <= j < k ==> #[trigger] msg@[j] != '\n',
            decreases ne - k,
        {
            if msg.get_char(k) == '\n' {
                proof {
                    assert(!matches_shape(msg@)) by {
                        if matches_shape(msg@) {
                            let (d, n) = choose|d: Seq<char>, n: Seq<char>|
                                is_decomposition(msg@, d, n);
                            lemma_decomposition_facts(msg@, d, n);
                            lemma_digit_run(msg@, d, n, e as int);
                        }
                    }
                }
                return Err(ParseError::Malformed);
            }
            k = k + 1;
        }
        let ghost dd = msg@.subrange(25, e as int);
        let ghost nn = msg@.subrange(ns as int, ne as int);
        proof {
            assert(valid_digits(dd));
            assert(valid_name(nn));
            assert(msg@ =~= prefix_text() + dd + mid_text() + nn + stars_text());
            assert(is_decomposition(msg@, dd, nn));
        }
        let player_uid = match digits_to_u64(msg, 25, e) {
            Some(v) => v,
            None => {
                return Err(ParseError::InvalidIdentifier);
            },
        };
        let name_slice = msg.substring_char(ns, ne);
        let requested_name = String::from_str(name_slice);
        let req = NameRequest { player_uid, requested_name };
        proof {
            assert(recovers_to(msg@, req));
        }
        Ok(req)
    }
}

} // verus!
