//! The session issuer: it owns the account→tokens relation and mints an
//! opaque bearer token for each completed login. A token is the base64 form
//! of the account identifier, a dot, and a 64-character random payload.

use vstd::prelude::*;
use crate::text::str_eq;

verus! {

/// The standard base64 encoding, without padding, of a string's bytes, as
/// base64's STANDARD_NO_PAD engine computes it.
pub uninterp spec fn base64_of(s: Seq<char>) -> Seq<char>;

/// Every character is an ASCII letter or digit.
pub open spec fn alphanumeric(s: Seq<char>) -> bool {
    forall|i: int|
        0 <= i < s.len() ==> (48 <= #[trigger] s[i] as u32 <= 57 || 65 <= s[i] as u32 <= 90 || 97
            <= s[i] as u32 <= 122)
}

/// Relies on base64::engine::general_purpose::STANDARD_NO_PAD: a function of
/// the input alone, and without `'='` padding.
#[verifier::external_body]
pub(crate) fn string_to_base64(input: &str) -> (r: String)
    ensures
        r@ == base64_of(input@),
        !r@.contains('='),
{
    base64::Engine::encode(&base64::engine::general_purpose::STANDARD_NO_PAD, input)
}

/// Relies on rand's Alphanumeric distribution over the thread's CSPRNG:
/// `length` characters, each an ASCII letter or digit. The payload is
/// random, so only its length and alphabet are stated.
#[verifier::external_body]
pub(crate) fn generate_random_string(length: usize) -> (s: String)
    ensures
        s@.len() == length,
        alphanumeric(s@),
{
    let mut rng = rand::rng();
    let random_string: String = rand::distr::Distribution::sample_iter(rand::distr::Alphanumeric, &mut rng)
        .take(length)
        .map(char::from)
        .collect();
    random_string
}

/// The tokens of one account.
pub struct SessionEntry {
    pub user_id: String,
    pub tokens: Vec<String>,
}

/// At most one entry per account identifier.
pub open spec fn sessions_wf(entries: Seq<SessionEntry>) -> bool {
    forall|i: int, j: int|
        0 <= i < j < entries.len() ==> entries[i].user_id@ != entries[j].user_id@
}

/// Whether some entry belongs to `uid`.
pub open spec fn has_entry(entries: Seq<SessionEntry>, uid: Seq<char>) -> bool {
    exists|i: int| 0 <= i < entries.len() && entries[i].user_id@ == uid
}

/// The index of the entry for `uid` (meaningful only when one exists).
pub open spec fn entry_index(entries: Seq<SessionEntry>, uid: Seq<char>) -> int {
    choose|i: int| 0 <= i < entries.len() && entries[i].user_id@ == uid
}

/// The views of a token list.
pub open spec fn token_views(tokens: Seq<String>) -> Seq<Seq<char>> {
    tokens.map_values(|t: String| t@)
}

/// The account→tokens relation: the tokens issued to `uid`, oldest first;
/// empty when no entry exists.
pub open spec fn tokens_of(entries: Seq<SessionEntry>, uid: Seq<char>) -> Seq<Seq<char>> {
    if has_entry(entries, uid) {
        token_views(entries[entry_index(entries, uid)].tokens@)
    } else {
        Seq::empty()
    }
}

/// In a well-formed session list, the entry holding `uid` at `i` is the one
/// `entry_index` names.
pub proof fn lemma_entry_index_is(entries: Seq<SessionEntry>, uid: Seq<char>, i: int)
    requires
        sessions_wf(entries),
        0 <= i < entries.len(),
        entries[i].user_id@ == uid,
    ensures
        has_entry(entries, uid),
        entry_index(entries, uid) == i,
{
    assert(has_entry(entries, uid));
    let k = entry_index(entries, uid);
    assert(0 <= k < entries.len() && entries[k].user_id@ == uid);
    if k != i {
        if k < i {
            assert(entries[k].user_id@ != entries[i].user_id@);
        } else {
            assert(entries[i].user_id@ != entries[k].user_id@);
        }
    }
}

proof fn lemma_token_views_push(tokens: Seq<String>, t: String)
    ensures
        token_views(tokens.push(t)) == token_views(tokens).push(t@),
{
    assert(token_views(tokens.push(t)) =~= token_views(tokens).push(t@));
}

fn find_session_entry(entries: &Vec<SessionEntry>, uid: &String) -> (r: Option<usize>)
    ensures
        match r {
            Some(i) => i < entries@.len() && entries@[i as int].user_id@ == uid@,
            None => forall|j: int| 0 <= j < entries@.len() ==> entries@[j].user_id@ != uid@,
        },
{
    let n = entries.len();
    let mut i: usize = 0;
    while i < n
        invariant
            0 <= i <= n,
            n == entries@.len(),
            forall|j: int| 0 <= j < i ==> entries@[j].user_id@ != uid@,
        decreases n - i,
    {
        if str_eq(entries[i].user_id.as_str(), uid.as_str()) {
            return Some(i);
        }
        i = i + 1;
    }
    None
}

/// Appends a fresh token for `user_id`, creating its entry if absent. The
/// token is the base64 form of the identifier, a dot, and `payload`; it is
/// appended to that account's tokens and no other account's tokens change.
pub fn issue_session(
    entries: &mut Vec<SessionEntry>,
    user_id: &String,
    payload: String,
) -> (token: String)
    requires
        sessions_wf(old(entries)@),
    ensures
        sessions_wf(final(entries)@),
        token@ == base64_of(user_id@) + seq!['.'] + payload@,
        tokens_of(final(entries)@, user_id@) == tokens_of(old(entries)@, user_id@).push(token@),
        forall|uid: Seq<char>|
            uid != user_id@ ==> tokens_of(final(entries)@, uid) == tokens_of(old(entries)@, uid),
{
    let mut token = string_to_base64(user_id.as_str());
    token.append(".");
    token.append(payload.as_str());
    proof {
        reveal_strlit(".");
        assert((".")@ =~= seq!['.']);
        assert(token@ =~= base64_of(user_id@) + seq!['.'] + payload@);
    }
    let ghost old_entries = entries@;
    match find_session_entry(entries, user_id) {
        Some(i) => {
            let ghost old_tokens = entries@[i as int].tokens@;
            entries[i].tokens.push(token.clone());
            proof {
                lemma_entry_index_is(old_entries, user_id@, i as int);
                assert(entries@ =~= old_entries.update(
                    i as int,
                    SessionEntry {
                        tokens: entries@[i as int].tokens,
                        ..old_entries[i as int]
                    },
                ));
                assert(entries@[i as int].tokens@ == old_tokens.push(token));
                assert(sessions_wf(entries@));
                lemma_entry_index_is(entries@, user_id@, i as int);
                lemma_token_views_push(old_tokens, token);
                assert forall|uid: Seq<char>| uid != user_id@ implies tokens_of(entries@, uid)
                    == tokens_of(old_entries, uid) by {
                    lemma_other_entries_unchanged(old_entries, entries@, user_id@, uid);
                }
            }
            token
        },
        None => {
            let mut tokens: Vec<String> = Vec::new();
            tokens.push(token.clone());
            entries.push(SessionEntry { user_id: user_id.clone(), tokens });
            proof {
                let n = old_entries.len() as int;
                assert(entries@[n].user_id@ == user_id@);
                assert(sessions_wf(entries@));
                lemma_entry_index_is(entries@, user_id@, n);
                assert(!has_entry(old_entries, user_id@));
                assert(token_views(entries@[n].tokens@) =~= tokens_of(
                    old_entries,
                    user_id@,
                ).push(token@));
                assert forall|uid: Seq<char>| uid != user_id@ implies tokens_of(entries@, uid)
                    == tokens_of(old_entries, uid) by {
                    lemma_other_entries_unchanged(old_entries, entries@, user_id@, uid);
                }
            }
            token
        },
    }
}

/// When two well-formed session lists agree on every entry that does not
/// belong to `changed`, every other account's tokens agree.
proof fn lemma_other_entries_unchanged(
    before: Seq<SessionEntry>,
    after: Seq<SessionEntry>,
    changed: Seq<char>,
    uid: Seq<char>,
)
    requires
        sessions_wf(before),
        sessions_wf(after),
        uid != changed,
        forall|j: int|
            0 <= j < after.len() && after[j].user_id@ != changed ==> 0 <= j < before.len()
                && after[j] == before[j],
        forall|j: int|
            0 <= j < before.len() && before[j].user_id@ != changed ==> 0 <= j < after.len()
                && after[j] == before[j],
    ensures
        tokens_of(after, uid) == tokens_of(before, uid),
{
    if has_entry(before, uid) {
        let i = entry_index(before, uid);
        assert(0 <= i < before.len() && before[i].user_id@ == uid);
        assert(after[i] == before[i]);
        lemma_entry_index_is(after, uid, i);
    } else if has_entry(after, uid) {
        let i = entry_index(after, uid);
        assert(0 <= i < after.len() && after[i].user_id@ == uid);
        assert(before[i] == after[i]);
        assert(has_entry(before, uid));
    }
}

} // verus!
