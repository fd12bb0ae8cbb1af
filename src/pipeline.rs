//! The paste flows: submit renders the text once, builds the record and
//! stores it under a fresh random identifier, retrying once on a
//! collision; fetch reads an identifier text and looks the paste up.

use vstd::prelude::*;
use vstd::string::{StrSliceExecFns, StringSliceAdditionalSpecFns};
use crate::highlight::{rendering, HighlightError, Highlighter};
pub use crate::highlight::DEFAULT_THEME;
use crate::ident::{id_text, is_id_text, lemma_id_text_round_trip, new_random_id, parse_id, parsed_id};
use crate::paste::{PasteError, PasteStore, Post, Timestamp};

verus! {

/// Relies on chrono's `Local::now`, `NaiveDateTime::and_utc`,
/// `DateTime::timestamp` and `DateTime::timestamp_subsec_nanos`: the local
/// wall-clock time; the nanoseconds exceed a second only within a leap
/// second.
#[verifier::external_body]
fn local_now() -> (r: Timestamp)
    ensures
        r.nanos < 2_000_000_000,
{
    let t = chrono::Local::now().naive_local().and_utc();
    Timestamp { secs: t.timestamp(), nanos: t.timestamp_subsec_nanos() }
}

pub open spec fn render_failure(e: HighlightError) -> PasteError {
    match e {
        HighlightError::Highlighting => PasteError::Highlighting,
    }
}

/// The highlighter's failure as a failure of the paste flows.
pub fn render_error(e: HighlightError) -> (r: PasteError)
    ensures
        r == render_failure(e),
{
    match e {
        HighlightError::Highlighting => PasteError::Highlighting,
    }
}

/// What submit does after a store insert.
#[derive(Clone, Copy, Debug, PartialEq, Eq, Structural)]
pub enum SubmitStep {
    /// The paste is stored: hand its identifier back.
    Done,
    /// The identifier was taken: draw a new one and insert again.
    Retry,
    /// Give up with this error; nothing was stored.
    Fail(PasteError),
}

/// The decision after insert number `attempt` (from zero) came back with
/// `result`: a collision is retried once, a second one is fatal; any other
/// failure is handed on at once.
pub open spec fn next_step(attempt: u8, result: Result<(), PasteError>) -> SubmitStep {
    match result {
        Ok(()) => SubmitStep::Done,
        Err(PasteError::Conflict) => if attempt == 0 {
            SubmitStep::Retry
        } else {
            SubmitStep::Fail(PasteError::Conflict)
        },
        Err(e) => SubmitStep::Fail(e),
    }
}

/// What submit does after insert number `attempt` came back with `result`.
pub fn after_insert(attempt: u8, result: Result<(), PasteError>) -> (r: SubmitStep)
    ensures
        r == next_step(attempt, result),
{
    match result {
        Ok(()) => SubmitStep::Done,
        Err(PasteError::Conflict) => if attempt == 0 {
            SubmitStep::Retry
        } else {
            SubmitStep::Fail(PasteError::Conflict)
        },
        Err(e) => SubmitStep::Fail(e),
    }
}

/// `p` is the anonymous, non-expiring record of `contents` under `language`,
/// rendered as `rendered`, created at `created` with identifier `id` and
/// deletion token `token`.
pub open spec fn is_new_post(
    p: Post,
    id: u128,
    token: u128,
    language: Seq<char>,
    contents: Seq<u8>,
    rendered: Seq<char>,
    created: Timestamp,
) -> bool {
    &&& p.post_id == id
    &&& p.deletion_token == token
    &&& p.user_id is None
    &&& p.created_date == created
    &&& p.expires_date is None
    &&& p.language@ == language
    &&& p.contents@ == contents
    &&& p.rendered@ == rendered
}

/// A new paste record: anonymous, with no expiry.
pub fn build_post(
    id: u128,
    token: u128,
    language: &str,
    contents: &str,
    rendered: &String,
    created: Timestamp,
) -> (r: Post)
    ensures
        is_new_post(r, id, token, language@, contents.spec_bytes(), rendered@, created),
{
    Post {
        post_id: id,
        user_id: None,
        created_date: created,
        expires_date: None,
        language: language.to_string(),
        contents: contents.as_bytes_vec(),
        rendered: rendered.clone(),
        deletion_token: token,
    }
}

/// Renders `contents` under `language` with the default theme and stores
/// the record under a fresh identifier, which it returns.
pub fn submit(store: &mut PasteStore, hl: &Highlighter, language: &str, contents: &str) -> (r:
    Result<u128, PasteError>)
    requires
        old(store).wf(),
        hl.languages().contains("Plain Text"@),
        hl.themes().contains(DEFAULT_THEME@),
    ensures
        final(store).wf(),
        rendering(hl.languages(), hl.backgrounds(), contents@, language@, DEFAULT_THEME@) is Err
            ==> r == Err::<u128, PasteError>(render_failure(
            rendering(hl.languages(), hl.backgrounds(), contents@, language@, DEFAULT_THEME@)->Err_0,
        )),
        rendering(hl.languages(), hl.backgrounds(), contents@, language@, DEFAULT_THEME@) is Ok
            ==> r is Ok || r == Err::<u128, PasteError>(PasteError::Conflict),
        old(store)@ == Map::<u128, Post>::empty() ==> r != Err::<u128, PasteError>(PasteError::Conflict),
        r is Ok ==> !old(store)@.contains_key(r->Ok_0) && exists|p: Post, token: u128, created: Timestamp|
            is_new_post(
                p,
                r->Ok_0,
                token,
                language@,
                contents.spec_bytes(),
                rendering(hl.languages(), hl.backgrounds(), contents@, language@, DEFAULT_THEME@)->Ok_0,
                created,
            ) && final(store)@ == old(store)@.insert(r->Ok_0, p),
        r is Err ==> final(store)@ == old(store)@,
{
    let rendered = match hl.highlighted(contents, language, DEFAULT_THEME) {
        Ok(html) => html,
        Err(e) => return Err(render_error(e)),
    };
    let token = new_random_id();
    let created = local_now();
    let mut attempt: u8 = 0;
    loop
        invariant
            attempt <= 1,
            store.wf(),
            store@ == old(store)@,
            hl.themes().contains(DEFAULT_THEME@),
            rendered@ == rendering(hl.languages(), hl.backgrounds(), contents@, language@, DEFAULT_THEME@)->Ok_0,
            rendering(hl.languages(), hl.backgrounds(), contents@, language@, DEFAULT_THEME@) is Ok,
            attempt == 1 ==> old(store)@ != Map::<u128, Post>::empty(),
        decreases 2 - attempt,
    {
        let id = new_random_id();
        let post = build_post(id, token, language, contents, &rendered, created);
        let ghost p = post;
        let ghost before = store@;
        let result = store.insert_paste(post);
        match after_insert(attempt, result) {
            SubmitStep::Done => {
                assert(store@ == before.insert(id, p));
                return Ok(id);
            },
            SubmitStep::Retry => {
                attempt = attempt + 1;
            },
            SubmitStep::Fail(e) => {
                return Err(e);
            },
        }
    }
}

/// The identifier that `text` names, or `InvalidIdentifier`.
pub fn parse_paste_id(text: &str) -> (r: Result<u128, PasteError>)
    ensures
        match parsed_id(text@) {
            Some(id) => r == Ok::<u128, PasteError>(id),
            None => r == Err::<u128, PasteError>(PasteError::InvalidIdentifier),
        },
{
    match parse_id(text) {
        Some(id) => Ok(id),
        None => Err(PasteError::InvalidIdentifier),
    }
}

/// What fetching `text` from a store holding `m` gives.
pub open spec fn fetched(m: Map<u128, Post>, text: Seq<char>) -> Result<Post, PasteError> {
    match parsed_id(text) {
        None => Err(PasteError::InvalidIdentifier),
        Some(id) => if m.contains_key(id) {
            Ok(m[id])
        } else {
            Err(PasteError::NotFound)
        },
    }
}

/// The paste that the identifier text `text` names; its `rendered` field is
/// the HTML made at submission.
pub fn fetch<'a>(store: &'a PasteStore, text: &str) -> (r: Result<&'a Post, PasteError>)
    requires
        store.wf(),
    ensures
        r is Ok ==> fetched(store@, text@) == Ok::<Post, PasteError>(*r->Ok_0) && parsed_id(text@)
            == Some(r->Ok_0.post_id),
        r is Err ==> fetched(store@, text@) == Err::<Post, PasteError>(r->Err_0),
{
    let id = match parse_paste_id(text) {
        Ok(id) => id,
        Err(e) => return Err(e),
    };
    store.get_paste(id)
}

/// A paste just stored under `p.post_id` is what fetching the canonical text
/// of that identifier gives.
pub proof fn lemma_fetch_after_insert(m: Map<u128, Post>, p: Post)
    requires
        !m.contains_key(p.post_id),
    ensures
        fetched(m.insert(p.post_id, p), id_text(p.post_id)) == Ok::<Post, PasteError>(p),
{
    lemma_id_text_round_trip(p.post_id);
}

/// Fetching the canonical text of an identifier that nothing was stored
/// under gives `NotFound`.
pub proof fn lemma_fetch_unknown(m: Map<u128, Post>, id: u128)
    requires
        !m.contains_key(id),
    ensures
        fetched(m, id_text(id)) == Err::<Post, PasteError>(PasteError::NotFound),
{
    lemma_id_text_round_trip(id);
}

/// Fetching a text that is no identifier, among them every text whose length
/// is not 32, 36, 38 or 45, gives `InvalidIdentifier`.
pub proof fn lemma_fetch_malformed(m: Map<u128, Post>, text: Seq<char>)
    requires
        !is_id_text(text) || (text.len() != 32 && text.len() != 36 && text.len() != 38
            && text.len() != 45),
    ensures
        fetched(m, text) == Err::<Post, PasteError>(PasteError::InvalidIdentifier),
{
}

} // verus!
