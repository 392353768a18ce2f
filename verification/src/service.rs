//! The link service: creation (validate, choose a code, persist, map a
//! uniqueness conflict) and resolution (look up, check liveness, record a
//! click, hand out the redirect target), over the link store.

use vstd::prelude::*;
use crate::errors::AppError;
use crate::models::CreateShortUrlResponse;
use crate::store::{
    ClickEvent, InsertOutcome, LinkModel, LinkStore, codes_unique, find_active, has_code,
};
use crate::text::{contains_seq, contains_str, trim, trim_spec};
use crate::{CODE_LEN, is_code_char};

verus! {

/// The URL begins with an HTTP scheme prefix.
pub open spec fn has_http_prefix(s: Seq<char>) -> bool {
    s.len() >= 4 && s[0] == 'h' && s[1] == 't' && s[2] == 't' && s[3] == 'p'
}

/// The syntactic acceptance rule for a submitted URL: once trimmed it has
/// at least eight characters and begins with `http`.
pub open spec fn url_valid(s: Seq<char>) -> bool {
    trim_spec(s).len() >= 8 && has_http_prefix(trim_spec(s))
}

/// Check a submitted URL and hand back its trimmed form, or the
/// validation error.
pub fn validate_url(url: &str) -> (r: Result<String, AppError>)
    ensures
        r matches Ok(t) ==> url_valid(url@) && t@ == trim_spec(url@),
        r matches Err(e) ==> !url_valid(url@) && (e matches AppError::Validation(m) && m@
            == "invalid URL"@),
{
    let t = trim(url);
    let n = t.as_str().unicode_len();
    if n < 8 {
        return Err(AppError::Validation(String::from_str("invalid URL")));
    }
    let s = t.as_str();
    if s.get_char(0) == 'h' && s.get_char(1) == 't' && s.get_char(2) == 't' && s.get_char(3)
        == 'p' {
        Ok(t)
    } else {
        Err(AppError::Validation(String::from_str("invalid URL")))
    }
}

/// Relies on `nanoid::format` with `nanoid::alphabet::SAFE`: the result
/// holds exactly the requested number of characters, each drawn from that
/// URL-safe alphabet. The draw is random, so nothing relates two calls.
#[verifier::external_body]
fn generate_code() -> (r: String)
    ensures
        r@.len() == CODE_LEN,
        forall|i: int| 0 <= i < r@.len() ==> is_code_char(r@[i]),
{
    nanoid::format(nanoid::rngs::default, &nanoid::alphabet::SAFE, CODE_LEN)
}

/// The base under which short codes are published.
pub open spec fn short_url_spec(code: Seq<char>) -> Seq<char> {
    "http://localhost:8080/"@ + code
}

/// The fully-qualified short URL for a code.
pub fn format_short_url(code: &str) -> (r: String)
    ensures
        r@ == short_url_spec(code@),
{
    let base = String::from_str("http://localhost:8080/");
    base.concat(code)
}

/// Map the store's insertion outcome for `code` to the creation result:
/// the response on success, `Conflict` on a duplicate code, and an
/// opaque `Database` error carrying the cause for any other failure.
pub fn complete_create(code: String, outcome: InsertOutcome) -> (r: Result<
    CreateShortUrlResponse,
    AppError,
>)
    ensures
        outcome is Inserted ==> (r matches Ok(resp) && resp.short_code@ == code@ && resp.url@
            == short_url_spec(code@)),
        outcome is DuplicateCode ==> (r matches Err(e) && e is Conflict),
        outcome matches InsertOutcome::Failed(cause) ==> (r matches Err(e) && e matches
            AppError::Database(c) && c@ == cause@),
{
    match outcome {
        InsertOutcome::Inserted(_) => {
            let url = format_short_url(code.as_str());
            Ok(CreateShortUrlResponse { url, short_code: code })
        },
        InsertOutcome::DuplicateCode => Err(AppError::Conflict),
        InsertOutcome::Failed(cause) => Err(AppError::Database(cause)),
    }
}

/// The store signalled a duplicate short code: either the violated
/// constraint's name speaks of the code or of uniqueness, or the message
/// text does.
pub fn is_unique_violation(constraint: Option<&str>, message: &str) -> (r: bool)
    ensures
        r == ((constraint matches Some(c) && (contains_seq(c@, "short_code"@) || contains_seq(
            c@,
            "unique"@,
        ))) || contains_seq(message@, "unique constraint"@)),
{
    if let Some(c) = constraint {
        if contains_str(c, "short_code") || contains_str(c, "unique") {
            return true;
        }
    }
    contains_str(message, "unique constraint")
}

/// Create a link: validate the URL, take the caller's code or draw a
/// fresh one, and persist, reporting a duplicate code as a conflict.
pub fn create(store: &mut LinkStore, url: &str, custom_code: Option<String>, now: i64) -> (r:
    Result<CreateShortUrlResponse, AppError>)
    requires
        old(store).wf(),
    ensures
        final(store).wf(),
        final(store).clicks() == old(store).clicks(),
        final(store).click_log_available() == old(store).click_log_available(),
        r is Err ==> final(store).links() == old(store).links(),
        !url_valid(url@) ==> (r matches Err(e) && e matches AppError::Validation(m) && m@
            == "invalid URL"@),
        url_valid(url@) ==> (custom_code matches Some(c) ==> (if has_code(
            old(store).links(),
            c@,
        ) {
            r matches Err(e) && e is Conflict
        } else {
            r matches Ok(resp) && resp.short_code@ == c@
        })),
        url_valid(url@) && custom_code is None ==> (r is Ok || (r matches Err(e) && e
            is Conflict)),
        url_valid(url@) && custom_code is None && r is Err ==> (exists|c: Seq<char>|
            c.len() == CODE_LEN && has_code(old(store).links(), c)),
        r matches Ok(resp) ==> ({
            &&& url_valid(url@)
            &&& resp.url@ == short_url_spec(resp.short_code@)
            &&& !has_code(old(store).links(), resp.short_code@)
            &&& final(store).links() == old(store).links().push(
                LinkModel {
                    id: old(store).links().len() as u64,
                    code: resp.short_code@,
                    url: trim_spec(url@),
                    active: true,
                    expires: None,
                    created: now,
                },
            )
        }),
        custom_code is None ==> (r matches Ok(resp) ==> resp.short_code@.len() == CODE_LEN && (
        forall|i: int| 0 <= i < resp.short_code@.len() ==> is_code_char(resp.short_code@[i]))),
{
    let trimmed = match validate_url(url) {
        Ok(t) => t,
        Err(e) => {
            return Err(e);
        },
    };
    let code = match custom_code {
        Some(c) => c,
        None => generate_code(),
    };
    let outcome = store.insert_link(code.clone(), trimmed, now);
    complete_create(code, outcome)
}

/// A link is gone once its expiry lies strictly in the past; a link
/// without an expiry never is.
pub open spec fn expired(expires: Option<i64>, now: i64) -> bool {
    expires matches Some(t) && t < now
}

/// The liveness rule as a check: `Gone` for an expired link.
pub fn check_liveness(expires_at: Option<i64>, now: i64) -> (r: Result<(), AppError>)
    ensures
        expired(expires_at, now) ==> (r matches Err(e) && e is Gone),
        !expired(expires_at, now) ==> r is Ok,
{
    match expires_at {
        Some(t) => {
            if t < now {
                Err(AppError::Gone)
            } else {
                Ok(())
            }
        },
        None => Ok(()),
    }
}

/// What resolution must come to, as a function of the stored links, the
/// requested code and the current time — and of nothing else.
pub enum ResolveModel {
    /// No active link carries the code.
    Missing,
    /// The link exists but its expiry lies in the past.
    Expired,
    /// Redirect to this URL, recording a click against this link.
    Redirect(Seq<char>, u64),
}

/// The resolution rule: absent or inactive is `Missing`, expired is
/// `Expired`, otherwise the stored URL and the link's identifier.
pub open spec fn resolve_spec(links: Seq<LinkModel>, code: Seq<char>, now: i64) -> ResolveModel {
    match find_active(links, code) {
        None => ResolveModel::Missing,
        Some(l) => if expired(l.expires, now) {
            ResolveModel::Expired
        } else {
            ResolveModel::Redirect(l.url, l.id)
        },
    }
}

/// Resolve a code: look up the active link, check liveness, record one
/// click (best effort — a failed write changes nothing observable), and
/// hand back the redirect target.
pub fn resolve(store: &mut LinkStore, code: &str, now: i64) -> (r: Result<String, AppError>)
    requires
        old(store).wf(),
    ensures
        final(store).wf(),
        final(store).links() == old(store).links(),
        final(store).click_log_available() == old(store).click_log_available(),
        resolve_spec(old(store).links(), code@, now) is Missing ==> (r matches Err(e) && e
            is NotFound && final(store).clicks() == old(store).clicks()),
        resolve_spec(old(store).links(), code@, now) is Expired ==> (r matches Err(e) && e is Gone
            && final(store).clicks() == old(store).clicks()),
        resolve_spec(old(store).links(), code@, now) matches ResolveModel::Redirect(u, id) ==> ({
            &&& r matches Ok(target) && target@ == u
            &&& old(store).click_log_available() ==> final(store).clicks() == old(
                store,
            ).clicks().push(ClickEvent { link_id: id, occurred_at: now })
            &&& !old(store).click_log_available() ==> final(store).clicks() == old(store).clicks()
        }),
{
    let found = store.find_active_link(code);
    match found {
        None => Err(AppError::NotFound),
        Some(link) => {
            match check_liveness(link.expires_at, now) {
                Err(e) => Err(e),
                Ok(_) => {
                    let _ = store.record_click(link.id, now);
                    Ok(link.original_url)
                },
            }
        },
    }
}

/// A creation that succeeded put its code into the store, so — by
/// `create`'s contract — a second creation with the same custom code
/// meets the conflict condition.
pub proof fn lemma_created_code_conflicts(links: Seq<LinkModel>, l: LinkModel)
    ensures
        has_code(links.push(l), l.code),
{
    assert(links.push(l)[links.len() as int] == l);
}

/// A code that no link carries resolves to `Missing`, whatever the time.
pub proof fn lemma_absent_not_found(links: Seq<LinkModel>, code: Seq<char>, now: i64)
    requires
        !has_code(links, code),
    ensures
        resolve_spec(links, code, now) is Missing,
{
}

/// A code whose only link is inactive resolves to `Missing` too: an
/// inactive link is indistinguishable from an absent one.
pub proof fn lemma_inactive_not_found(links: Seq<LinkModel>, i: int, now: i64)
    requires
        codes_unique(links),
        0 <= i < links.len(),
        !links[i].active,
    ensures
        resolve_spec(links, links[i].code, now) is Missing,
{
    let code = links[i].code;
    if exists|k: int| 0 <= k < links.len() && links[k].code == code && links[k].active {
        let k = choose|k: int| 0 <= k < links.len() && links[k].code == code && links[k].active;
        if k < i {
            assert(links[k].code != links[i].code);
        }
        if k > i {
            assert(links[i].code != links[k].code);
        }
    }
}

/// An active link whose expiry lies in the past resolves to `Expired` —
/// distinct from `Missing`.
pub proof fn lemma_expired_is_gone(links: Seq<LinkModel>, i: int, now: i64)
    requires
        codes_unique(links),
        0 <= i < links.len(),
        links[i].active,
        links[i].expires matches Some(t) && t < now,
    ensures
        resolve_spec(links, links[i].code, now) is Expired,
{
    lemma_find_active_at(links, i);
}

/// With unique codes, an active link is exactly what `find_active`
/// returns for its code.
pub proof fn lemma_find_active_at(links: Seq<LinkModel>, i: int)
    requires
        codes_unique(links),
        0 <= i < links.len(),
        links[i].active,
    ensures
        find_active(links, links[i].code) == Some(links[i]),
{
    let code = links[i].code;
    let k = choose|k: int| 0 <= k < links.len() && links[k].code == code && links[k].active;
    if k < i {
        assert(links[k].code != links[i].code);
    }
    if k > i {
        assert(links[i].code != links[k].code);
    }
}

/// A freshly created link — active, without an expiry, its code
/// previously unused — resolves to its own URL at any time.
pub proof fn lemma_create_then_resolve(links: Seq<LinkModel>, l: LinkModel, now: i64)
    requires
        codes_unique(links),
        !has_code(links, l.code),
        l.active,
        l.expires is None,
    ensures
        resolve_spec(links.push(l), l.code, now) == ResolveModel::Redirect(l.url, l.id),
{
    let grown = links.push(l);
    assert(grown[links.len() as int] == l);
    assert(codes_unique(grown)) by {
        assert(forall|i: int| 0 <= i < links.len() ==> grown[i] == links[i]);
    }
    lemma_find_active_at(grown, links.len() as int);
}

/// The redirect outcome depends on the stored links alone: two stores
/// with the same links — whatever their click logs, reachable or not —
/// resolve every code alike. A failed click write is invisible.
pub proof fn lemma_click_log_invisible(a: LinkStore, b: LinkStore, code: Seq<char>, now: i64)
    requires
        a.links() == b.links(),
    ensures
        resolve_spec(a.links(), code, now) == resolve_spec(b.links(), code, now),
{
}

} // verus!
