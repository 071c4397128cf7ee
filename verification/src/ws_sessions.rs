use vstd::prelude::*;

use std::collections::HashMap;
use std::sync::Arc;

use crate::digits::{lemma_padded_hex_chars, padded_digits_of};
use crate::rpc::{
    lemma_subscription_id_upper_roundtrip, parse_subscription_id, subscription_id_upper_text, upper_hex_digit,
    SubscriptionId,
};
use crate::text::{chars_between, chars_equal, chars_of, find_char_from, first_char_from, string_from_chars};

verus! {

broadcast use {
    vstd::std_specs::hash::group_hash_axioms,
    vstd::hash_map::group_hash_map_axioms,
};

/// Whether `c` is white space in Unicode's sense (what `char::is_whitespace` tests).
pub open spec fn is_white_space(c: char) -> bool {
    let x: u32 = c as u32;
    (0x09 <= x <= 0x0d) || x == 0x20 || x == 0x85 || x == 0xa0 || x == 0x1680 || (0x2000 <= x
        <= 0x200a) || x == 0x2028 || x == 0x2029 || x == 0x202f || x == 0x205f || x == 0x3000
}

/// The first index at or after `from` that holds no white space (`s.len()` if none does).
pub open spec fn first_non_white_from(s: Seq<char>, from: int) -> int
    decreases s.len() - from,
{
    if from < 0 || from >= s.len() {
        s.len() as int
    } else if !is_white_space(s[from]) {
        from
    } else {
        first_non_white_from(s, from + 1)
    }
}

/// The length of the first `to` characters of `s` without their trailing white space.
pub open spec fn end_without_white(s: Seq<char>, to: int) -> int
    decreases to,
{
    if to <= 0 || to > s.len() {
        0
    } else if !is_white_space(s[to - 1]) {
        to
    } else {
        end_without_white(s, to - 1)
    }
}

/// `s` without leading and trailing white space (what `str::trim` gives).
pub open spec fn trimmed(s: Seq<char>) -> Seq<char> {
    let a = first_non_white_from(s, 0);
    let b = end_without_white(s, s.len() as int);
    if a < b {
        s.subrange(a, b)
    } else {
        Seq::empty()
    }
}

/// Whether `pat` occurs in `s` as a run of consecutive characters.
pub open spec fn contains_run(s: Seq<char>, pat: Seq<char>) -> bool {
    exists|i: int| 0 <= i && i + pat.len() <= s.len() && #[trigger] s.subrange(i, i + pat.len()) == pat
}

/// The second of the pieces that `s` splits into at single spaces, if there is one
/// (what `s.split(" ").nth(1)` gives).
pub open spec fn second_field(s: Seq<char>) -> Option<Seq<char>> {
    let p = first_char_from(s, ' ', 0);
    if p >= s.len() {
        None
    } else {
        Some(s.subrange(p + 1, first_char_from(s, ' ', p + 1)))
    }
}

/// Whether the character `c` is white space, by the same table as `is_white_space`.
fn white_space(c: char) -> (r: bool)
    ensures
        r == is_white_space(c),
{
    let x: u32 = c as u32;
    (0x09 <= x && x <= 0x0d) || x == 0x20 || x == 0x85 || x == 0xa0 || x == 0x1680 || (0x2000 <= x
        && x <= 0x200a) || x == 0x2028 || x == 0x2029 || x == 0x202f || x == 0x205f || x == 0x3000
}

/// The characters of `s` without leading and trailing white space.
pub fn trim_chars(s: &Vec<char>) -> (r: Vec<char>)
    ensures
        r@ == trimmed(s@),
{
    let mut a: usize = 0;
    while a < s.len() && white_space(s[a])
        invariant
            a <= s.len(),
            first_non_white_from(s@, 0) == first_non_white_from(s@, a as int),
        decreases s.len() - a,
    {
        a = a + 1;
    }
    let mut b: usize = s.len();
    while b > 0 && white_space(s[b - 1])
        invariant
            b <= s.len(),
            end_without_white(s@, s@.len() as int) == end_without_white(s@, b as int),
        decreases b,
    {
        b = b - 1;
    }
    let r = if a < b {
        chars_between(s, a, b)
    } else {
        Vec::new()
    };
    assert(r@ =~= trimmed(s@));
    r
}

/// Whether `pat` occurs in `s` as a run of consecutive characters.
pub fn chars_contain(s: &Vec<char>, pat: &Vec<char>) -> (r: bool)
    ensures
        r == contains_run(s@, pat@),
{
    if pat.len() > s.len() {
        return false;
    }
    let mut i: usize = 0;
    while i <= s.len() - pat.len()
        invariant
            pat.len() <= s.len(),
            i <= s.len() - pat.len() + 1,
            forall|k: int| 0 <= k < i ==> #[trigger] s@.subrange(k, k + pat@.len()) != pat@,
        decreases s.len() - i,
    {
        let mut j: usize = 0;
        let mut same = true;
        while j < pat.len()
            invariant
                i + pat.len() <= s.len(),
                j <= pat.len(),
                same == (forall|m: int| 0 <= m < j ==> s@[i + m] == pat@[m]),
            decreases pat.len() - j,
        {
            if s[i + j] != pat[j] {
                same = false;
            }
            j = j + 1;
        }
        if same {
            assert(s@.subrange(i as int, i + pat@.len()) =~= pat@);
            return true;
        }
        assert(s@.subrange(i as int, i + pat@.len()) != pat@) by {
            let m = choose|m: int| 0 <= m < pat.len() && s@[i + m] != pat@[m];
            assert(s@.subrange(i as int, i + pat@.len())[m] == s@[i + m]);
        }
        i = i + 1;
    }
    assert(!contains_run(s@, pat@)) by {
        if contains_run(s@, pat@) {
            let k = choose|k: int| 0 <= k && k + pat@.len() <= s@.len() && #[trigger] s@.subrange(k, k + pat@.len()) == pat@;
            assert(k < i);
        }
    }
    false
}

/// The second of the pieces that `s` splits into at single spaces, if there is one.
pub fn second_field_chars(s: &Vec<char>) -> (r: Option<Vec<char>>)
    ensures
        match r {
            Some(f) => second_field(s@) == Some(f@),
            None => second_field(s@) is None,
        },
{
    let p = find_char_from(s, ' ', 0);
    if p >= s.len() {
        return None;
    }
    let q = find_char_from(s, ' ', p + 1);
    Some(chars_between(s, p + 1, q))
}

/// The subscriptions a client of the demo WebSocket server can ask for.
#[derive(Debug, PartialEq, Eq, Structural, Hash, Clone, Copy)]
pub enum SubscriptionKind {
    NewHeads,
    PendingTransactions,
}

impl SubscriptionKind {
    /// A small number that tells the kinds apart (used as a map key).
    pub fn code(&self) -> (r: u8)
        ensures
            r == kind_code(*self),
    {
        match self {
            SubscriptionKind::NewHeads => 0,
            SubscriptionKind::PendingTransactions => 1,
        }
    }
}

/// The map key of a subscription kind.
pub open spec fn kind_code(k: SubscriptionKind) -> u8 {
    match k {
        SubscriptionKind::NewHeads => 0,
        SubscriptionKind::PendingTransactions => 1,
    }
}

/// What a text message of a client asks for.
#[derive(PartialEq, Eq, Structural, Clone, Copy)]
pub enum ClientCommand {
    /// `new_heads` or `pending_transactions`: open a subscription of that kind.
    Subscribe(SubscriptionKind),
    /// `unsub <id>`: close the subscription with that id.
    Unsubscribe(SubscriptionId),
    /// A message mentioning `unsub` with no second word.
    UnsubscribeWithoutId,
    /// A message mentioning `unsub` whose second word is no subscription id.
    UnsubscribeWithBadId,
    /// Anything else.
    Unknown,
}

/// What the (trimmed) text message `m` of a client asks for.
pub open spec fn client_command(m: Seq<char>) -> ClientCommand {
    let t = trimmed(m);
    if t == "new_heads"@ {
        ClientCommand::Subscribe(SubscriptionKind::NewHeads)
    } else if t == "pending_transactions"@ {
        ClientCommand::Subscribe(SubscriptionKind::PendingTransactions)
    } else if contains_run(t, "unsub"@) {
        match second_field(t) {
            None => ClientCommand::UnsubscribeWithoutId,
            Some(f) => match parse_subscription_id(f) {
                Ok(n) => ClientCommand::Unsubscribe(SubscriptionId(n)),
                Err(_) => ClientCommand::UnsubscribeWithBadId,
            },
        }
    } else {
        ClientCommand::Unknown
    }
}

/// Reads a text message of a client: the message is trimmed, then `new_heads` and
/// `pending_transactions` subscribe, and a message containing `unsub` closes the subscription
/// whose id is its second space-separated word.
pub fn parse_client_message(m: &str) -> (r: ClientCommand)
    ensures
        r == client_command(m@),
{
    let t = trim_chars(&chars_of(m));
    if chars_equal(&t, &chars_of("new_heads")) {
        return ClientCommand::Subscribe(SubscriptionKind::NewHeads);
    }
    if chars_equal(&t, &chars_of("pending_transactions")) {
        return ClientCommand::Subscribe(SubscriptionKind::PendingTransactions);
    }
    if !chars_contain(&t, &chars_of("unsub")) {
        return ClientCommand::Unknown;
    }
    match second_field_chars(&t) {
        None => ClientCommand::UnsubscribeWithoutId,
        Some(f) => {
            let text = string_from_chars(&f);
            match SubscriptionId::try_from_str(text.as_str()) {
                Ok(id) => ClientCommand::Unsubscribe(id),
                Err(_) => ClientCommand::UnsubscribeWithBadId,
            }
        },
    }
}


#[verifier::external_type_specification]
#[verifier::external_body]
pub struct ExCancellationToken(tokio_util::sync::CancellationToken);

/// Cancels a token and the tokens made from it (tokio-util's `CancellationToken::cancel`).
/// Nothing is stated of it: its effect is on the tasks that wait for the token.
#[verifier::external_body]
fn cancel_token(token: &tokio_util::sync::CancellationToken) {
    token.cancel();
}

/// The subscriptions one client connection holds, each with the token that stops it.
pub struct WebSocketContext {
    pub inbound_subscriptions: HashMap<u128, tokio_util::sync::CancellationToken>,
}

impl WebSocketContext {
    /// A connection without subscriptions.
    pub fn new() -> (r: Self)
        ensures
            r.inbound_subscriptions@ == Map::<u128, tokio_util::sync::CancellationToken>::empty(),
    {
        WebSocketContext { inbound_subscriptions: HashMap::new() }
    }

    /// Whether no subscription of this connection has the id `id`.
    pub fn is_unused(&self, id: &SubscriptionId) -> (r: bool)
        ensures
            r == !self.inbound_subscriptions@.contains_key(id.0),
    {
        !self.inbound_subscriptions.contains_key(&id.0)
    }

    /// Draws a random id and gives it where no subscription of this connection has it; on
    /// `None` the draw hit an id in use and the caller draws again.
    pub fn try_unused_id(&self) -> (r: Option<SubscriptionId>)
        ensures
            r matches Some(id) ==> !self.inbound_subscriptions@.contains_key(id.0) && id.0 < u128::MAX,
            r is None ==> exists|k: u128| #[trigger] self.inbound_subscriptions@.contains_key(k),
    {
        let candidate = SubscriptionId::rand();
        if self.is_unused(&candidate) {
            Some(candidate)
        } else {
            None
        }
    }

    /// Records the subscription `id`, stopped by `token`.
    pub fn register(&mut self, id: SubscriptionId, token: tokio_util::sync::CancellationToken)
        ensures
            final(self).inbound_subscriptions@ == old(self).inbound_subscriptions@.insert(id.0, token),
    {
        self.inbound_subscriptions.insert(id.0, token);
    }

    /// Closes the subscription `id`: its token is cancelled and it is forgotten.
    /// Tells whether the connection had such a subscription.
    pub fn unsubscribe(&mut self, id: &SubscriptionId) -> (r: bool)
        ensures
            r == old(self).inbound_subscriptions@.contains_key(id.0),
            final(self).inbound_subscriptions@ == old(self).inbound_subscriptions@.remove(id.0),
    {
        match self.inbound_subscriptions.remove(&id.0) {
            Some(token) => {
                cancel_token(&token);
                true
            },
            None => false,
        }
    }
}

/// Registering a subscription and then unsubscribing it leaves the connection's other
/// subscriptions as they were, and the id unused: a second unsubscribe finds nothing.
pub proof fn lemma_register_then_unsubscribe(
    subscriptions: Map<u128, tokio_util::sync::CancellationToken>,
    id: u128,
    token: tokio_util::sync::CancellationToken,
)
    ensures
        subscriptions.insert(id, token).contains_key(id),
        subscriptions.insert(id, token).remove(id) == subscriptions.remove(id),
        !subscriptions.insert(id, token).remove(id).contains_key(id),
{
    assert(subscriptions.insert(id, token).remove(id) =~= subscriptions.remove(id));
}

/// Past the index `from`, `s` does not hold `c`: the search finds nothing.
proof fn lemma_char_absent_from(s: Seq<char>, c: char, from: int)
    requires
        0 <= from <= s.len(),
        forall|k: int| from <= k < s.len() ==> s[k] != c,
    ensures
        first_char_from(s, c, from) == s.len(),
    decreases s.len() - from,
{
    if from < s.len() {
        lemma_char_absent_from(s, c, from + 1);
    }
}

/// The shown text of an id is 34 characters, none of them a space or other white space.
proof fn lemma_shown_id_chars(id: u128)
    ensures
        subscription_id_upper_text(id).len() == 34,
        forall|k: int|
            0 <= k < 34 ==> !is_white_space(#[trigger] subscription_id_upper_text(id)[k])
                && subscription_id_upper_text(id)[k] != ' ',
{
    let t = subscription_id_upper_text(id);
    let p = padded_digits_of(id as nat, 16, 32);
    lemma_padded_hex_chars(id as nat, 32);
    assert forall|k: int| 0 <= k < 34 implies !is_white_space(#[trigger] t[k]) && t[k] != ' ' by {
        if k >= 2 {
            assert(t[k] == upper_hex_digit(p[k - 2]));
            let y = p[k - 2] as int;
            assert((48 <= y <= 57) || (97 <= y <= 102));
        }
    }
}

/// A client that sends `unsub` and an id as the server shows it (in a reply or a notification)
/// closes the subscription with that id.
pub proof fn lemma_unsubscribe_with_shown_id(id: u128)
    ensures
        client_command("unsub "@ + subscription_id_upper_text(id)) == ClientCommand::Unsubscribe(SubscriptionId(id)),
{
    reveal_strlit("unsub ");
    reveal_strlit("unsub");
    reveal_strlit("new_heads");
    reveal_strlit("pending_transactions");
    let t = subscription_id_upper_text(id);
    let m = "unsub "@ + t;
    lemma_shown_id_chars(id);
    assert(m.len() == 40);
    assert(m[39] == t[33]);
    assert(trimmed(m) =~= m);
    assert(m.subrange(0, 0int + "unsub"@.len()) =~= "unsub"@);
    assert(first_char_from(m, ' ', 0) == 5) by {
        reveal_with_fuel(first_char_from, 7);
    }
    assert forall|k: int| 6 <= k < m.len() implies m[k] != ' ' by {
        assert(m[k] == t[k - 6]);
    }
    lemma_char_absent_from(m, ' ', 6);
    assert(m.subrange(6, 40) =~= t);
    lemma_subscription_id_upper_roundtrip(id);
}

/// The reply to `unsub <id>`: `Successfully removed: <id>` or `Not Found: <id>`, the id in
/// upper-case hex.
pub open spec fn unsubscribe_reply_text(id: u128, removed: bool) -> Seq<char> {
    (if removed {
        "Successfully removed: "@
    } else {
        "Not Found: "@
    }) + subscription_id_upper_text(id)
}

/// The text sent back to a client after it asked to close the subscription `id`.
pub fn unsubscribe_reply(id: &SubscriptionId, removed: bool) -> (r: String)
    ensures
        r@ == unsubscribe_reply_text(id.0, removed),
{
    let mut v = if removed {
        chars_of("Successfully removed: ")
    } else {
        chars_of("Not Found: ")
    };
    let text = id.to_upper_hex_string();
    let mut tail = chars_of(text.as_str());
    v.append(&mut tail);
    string_from_chars(&v)
}

/// One broadcast of the demo server's upstream subscriptions.
#[derive(Debug, Clone, Copy, PartialEq, Eq, Structural)]
pub struct OutboundSubscriptionMessage {
    pub outbound_id: i32,
    pub iteration: i32,
}

/// The upstream subscriptions of the demo server: at most one channel per kind.
pub struct OutboundSubscriptions<T> {
    pub outbounds: HashMap<u8, Arc<T>>,
}

impl<T> OutboundSubscriptions<T> {
    /// No upstream subscription yet.
    pub fn new() -> (r: Self)
        ensures
            r.outbounds@ == Map::<u8, Arc<T>>::empty(),
    {
        OutboundSubscriptions { outbounds: HashMap::new() }
    }

    /// The channel of `kind`, and whether it is new: the one already there, else `fresh`, which
    /// is then kept for the kind.
    pub fn add(&mut self, kind: SubscriptionKind, fresh: Arc<T>) -> (r: (Arc<T>, bool))
        ensures
            old(self).outbounds@.contains_key(kind_code(kind)) ==> {
                &&& r.0 == old(self).outbounds@[kind_code(kind)]
                &&& !r.1
                &&& final(self).outbounds@ == old(self).outbounds@
            },
            !old(self).outbounds@.contains_key(kind_code(kind)) ==> {
                &&& r.0 == fresh
                &&& r.1
                &&& final(self).outbounds@ == old(self).outbounds@.insert(kind_code(kind), fresh)
            },
    {
        let key = kind.code();
        match self.outbounds.get(&key) {
            Some(sender) => (sender.clone(), false),
            None => {
                let kept = fresh.clone();
                self.outbounds.insert(key, kept);
                (fresh, true)
            },
        }
    }

    /// Forgets the channel of `kind`; tells whether there was one.
    pub fn remove(&mut self, kind: SubscriptionKind) -> (r: bool)
        ensures
            r == old(self).outbounds@.contains_key(kind_code(kind)),
            final(self).outbounds@ == old(self).outbounds@.remove(kind_code(kind)),
    {
        let key = kind.code();
        match self.outbounds.remove(&key) {
            Some(_) => true,
            None => false,
        }
    }
}

} // verus!
