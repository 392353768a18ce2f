//! The link store: a durable table of links keyed by short code, with a
//! uniqueness constraint on the code, and an append-only click log whose
//! availability never influences link lookups.

use vstd::prelude::*;

verus! {

/// One stored link.
pub struct Link {
    /// Identifier assigned by the store at insertion.
    pub id: u64,
    /// The unique short code, immutable once created.
    pub short_code: String,
    /// The validated long URL, immutable.
    pub original_url: String,
    /// Flipped to false by an external deactivation process; resolution
    /// treats an inactive link as nonexistent.
    pub is_active: bool,
    /// When present and in the past, the link is gone but its row remains.
    pub expires_at: Option<i64>,
    /// When the row was created.
    pub created_at: i64,
}

/// The mathematical image of a stored link.
pub struct LinkModel {
    pub id: u64,
    pub code: Seq<char>,
    pub url: Seq<char>,
    pub active: bool,
    pub expires: Option<i64>,
    pub created: i64,
}

impl View for Link {
    type V = LinkModel;

    open spec fn view(&self) -> LinkModel {
        LinkModel {
            id: self.id,
            code: self.short_code@,
            url: self.original_url@,
            active: self.is_active,
            expires: self.expires_at,
            created: self.created_at,
        }
    }
}

impl Clone for Link {
    fn clone(&self) -> (r: Self)
        ensures
            r == *self,
    {
        Link {
            id: self.id,
            short_code: self.short_code.clone(),
            original_url: self.original_url.clone(),
            is_active: self.is_active,
            expires_at: self.expires_at,
            created_at: self.created_at,
        }
    }
}

/// One recorded resolution of a link.
#[derive(Clone, Copy)]
pub struct ClickEvent {
    pub link_id: u64,
    pub occurred_at: i64,
}

/// What an insertion reports: the new row's identifier, a uniqueness
/// violation on the short code, or any other store failure with its cause.
pub enum InsertOutcome {
    Inserted(u64),
    DuplicateCode,
    Failed(String),
}

/// No two links share a short code.
pub open spec fn codes_unique(links: Seq<LinkModel>) -> bool {
    forall|i: int, j: int|
        0 <= i < j < links.len() ==> links[i].code != links[j].code
}

/// Identifiers equal row positions, so they are unique as well.
pub open spec fn ids_sequential(links: Seq<LinkModel>) -> bool {
    forall|i: int| 0 <= i < links.len() ==> links[i].id == i
}

/// Some link (active or not) carries this code.
pub open spec fn has_code(links: Seq<LinkModel>, code: Seq<char>) -> bool {
    exists|i: int| 0 <= i < links.len() && links[i].code == code
}

/// The position of the link carrying this code (unique when codes are).
pub open spec fn index_of(links: Seq<LinkModel>, code: Seq<char>) -> int {
    choose|i: int| 0 <= i < links.len() && links[i].code == code
}

/// The active link carrying this code, if any. Inactive links are
/// invisible here, indistinguishable from absent ones.
pub open spec fn find_active(links: Seq<LinkModel>, code: Seq<char>) -> Option<LinkModel> {
    if exists|i: int| 0 <= i < links.len() && links[i].code == code && links[i].active {
        Some(
            links[choose|i: int|
                0 <= i < links.len() && links[i].code == code && links[i].active],
        )
    } else {
        None
    }
}

/// An in-memory link store: the table of links, the click log, and a
/// flag modelling whether the click log is currently reachable.
pub struct LinkStore {
    entries: Vec<Link>,
    click_log: Vec<ClickEvent>,
    click_log_up: bool,
}

impl LinkStore {
    /// The stored links, in insertion order.
    pub closed spec fn links(&self) -> Seq<LinkModel> {
        self.entries@.map_values(|l: Link| l@)
    }

    /// The recorded clicks, in insertion order.
    pub closed spec fn clicks(&self) -> Seq<ClickEvent> {
        self.click_log@
    }

    /// Whether a click can currently be recorded.
    pub closed spec fn click_log_available(&self) -> bool {
        self.click_log_up
    }

    /// The store's invariant: unique codes, positional identifiers.
    pub open spec fn wf(&self) -> bool {
        codes_unique(self.links()) && ids_sequential(self.links())
    }

    /// An empty store with a reachable click log.
    pub fn new() -> (s: Self)
        ensures
            s.wf(),
            s.links() == Seq::<LinkModel>::empty(),
            s.clicks() == Seq::<ClickEvent>::empty(),
            s.click_log_available(),
    {
        let s = LinkStore { entries: Vec::new(), click_log: Vec::new(), click_log_up: true };
        proof {
            assert(s.links() =~= Seq::<LinkModel>::empty());
            assert(s.clicks() =~= Seq::<ClickEvent>::empty());
        }
        s
    }

    /// Insert a link, rejecting a duplicate short code. The new link is
    /// active, carries no expiry, and gets the next identifier.
    pub fn insert_link(&mut self, code: String, url: String, now: i64) -> (r: InsertOutcome)
        requires
            old(self).wf(),
        ensures
            final(self).wf(),
            final(self).clicks() == old(self).clicks(),
            final(self).click_log_available() == old(self).click_log_available(),
            has_code(old(self).links(), code@) ==> r is DuplicateCode && final(self).links()
                == old(self).links(),
            !has_code(old(self).links(), code@) ==> (r matches InsertOutcome::Inserted(id) && id
                == old(self).links().len() && final(self).links() == old(self).links().push(
                LinkModel {
                    id: old(self).links().len() as u64,
                    code: code@,
                    url: url@,
                    active: true,
                    expires: None,
                    created: now,
                },
            )),
    {
        let n = self.entries.len();
        let mut i: usize = 0;
        while i < n
            invariant
                old(self).wf(),
                *self == *old(self),
                n == self.links().len(),
                0 <= i <= n,
                forall|j: int| 0 <= j < i ==> self.links()[j].code != code@,
            decreases n - i,
        {
            if crate::text::str_eq(self.entries[i].short_code.as_str(), code.as_str()) {
                assert(self.links()[i as int].code == code@);
                return InsertOutcome::DuplicateCode;
            }
            i = i + 1;
        }
        assert(!has_code(self.links(), code@));
        let id = self.entries.len() as u64;
        let ghost prev = self.links();
        let row = Link {
            id,
            short_code: code,
            original_url: url,
            is_active: true,
            expires_at: None,
            created_at: now,
        };
        self.entries.push(row);
        proof {
            assert(self.links() =~= prev.push(row@));
        }
        InsertOutcome::Inserted(id)
    }

    /// Look up the active link with this code; inactive and absent codes
    /// both come back as `None`.
    pub fn find_active_link(&self, code: &str) -> (r: Option<Link>)
        requires
            self.wf(),
        ensures
            match r {
                None => find_active(self.links(), code@) is None,
                Some(l) => find_active(self.links(), code@) == Some(l@),
            },
    {
        let n = self.entries.len();
        let mut i: usize = 0;
        while i < n
            invariant
                self.wf(),
                n == self.links().len(),
                0 <= i <= n,
                forall|j: int|
                    0 <= j < i ==> !(self.links()[j].code == code@ && self.links()[j].active),
            decreases n - i,
        {
            if self.entries[i].is_active && crate::text::str_eq(
                self.entries[i].short_code.as_str(),
                code,
            ) {
                let found = self.entries[i].clone();
                proof {
                    let links = self.links();
                    assert(links[i as int].code == code@ && links[i as int].active);
                    let j = choose|k: int|
                        0 <= k < links.len() && links[k].code == code@ && links[k].active;
                    if j < i as int {
                        assert(links[j].code != links[i as int].code);
                    }
                    if j > i as int {
                        assert(links[i as int].code != links[j].code);
                    }
                }
                return Some(found);
            }
            i = i + 1;
        }
        None
    }

    /// Append a click to the log if it is reachable; report whether the
    /// write happened. The link table is never touched.
    pub fn record_click(&mut self, link_id: u64, now: i64) -> (ok: bool)
        ensures
            final(self).links() == old(self).links(),
            final(self).click_log_available() == old(self).click_log_available(),
            ok == old(self).click_log_available(),
            ok ==> final(self).clicks() == old(self).clicks().push(
                ClickEvent { link_id, occurred_at: now },
            ),
            !ok ==> final(self).clicks() == old(self).clicks(),
    {
        if self.click_log_up {
            self.click_log.push(ClickEvent { link_id, occurred_at: now });
            proof {
                assert(self.clicks() =~= old(self).clicks().push(
                    ClickEvent { link_id, occurred_at: now },
                ));
            }
            true
        } else {
            false
        }
    }

    /// The external deactivation process: flip the link with this code to
    /// inactive. Reports whether such a link existed.
    pub fn deactivate(&mut self, code: &str) -> (found: bool)
        requires
            old(self).wf(),
        ensures
            final(self).wf(),
            final(self).clicks() == old(self).clicks(),
            final(self).click_log_available() == old(self).click_log_available(),
            found == has_code(old(self).links(), code@),
            !found ==> final(self).links() == old(self).links(),
            found ==> final(self).links() == old(self).links().update(
                index_of(old(self).links(), code@),
                LinkModel { active: false, ..old(self).links()[index_of(old(self).links(), code@)] },
            ),
    {
        let n = self.entries.len();
        let mut i: usize = 0;
        while i < n
            invariant
                old(self).wf(),
                self.links() == old(self).links(),
                self.clicks() == old(self).clicks(),
                self.click_log_available() == old(self).click_log_available(),
                n == self.links().len(),
                0 <= i <= n,
                forall|j: int| 0 <= j < i ==> self.links()[j].code != code@,
            decreases n - i,
        {
            if crate::text::str_eq(self.entries[i].short_code.as_str(), code) {
                let ghost prev = self.links();
                let mut row = self.entries[i].clone();
                row.is_active = false;
                let _ = self.entries.remove(i);
                self.entries.insert(i, row);
                proof {
                    assert(prev[i as int].code == code@);
                    let j = index_of(prev, code@);
                    assert(prev[j].code == code@);
                    if j < i as int {
                        assert(prev[j].code != prev[i as int].code);
                    }
                    if j > i as int {
                        assert(prev[i as int].code != prev[j].code);
                    }
                    assert(self.links() =~= prev.update(
                        i as int,
                        LinkModel { active: false, ..prev[i as int] },
                    ));
                }
                return true;
            }
            i = i + 1;
        }
        false
    }

    /// The external expiry process: give the link with this code an
    /// expiry timestamp (or take it away). Reports whether it existed.
    pub fn set_expiry(&mut self, code: &str, expires_at: Option<i64>) -> (found: bool)
        requires
            old(self).wf(),
        ensures
            final(self).wf(),
            final(self).clicks() == old(self).clicks(),
            final(self).click_log_available() == old(self).click_log_available(),
            found == has_code(old(self).links(), code@),
            !found ==> final(self).links() == old(self).links(),
            found ==> final(self).links() == old(self).links().update(
                index_of(old(self).links(), code@),
                LinkModel {
                    expires: expires_at,
                    ..old(self).links()[index_of(old(self).links(), code@)]
                },
            ),
    {
        let n = self.entries.len();
        let mut i: usize = 0;
        while i < n
            invariant
                old(self).wf(),
                self.links() == old(self).links(),
                self.clicks() == old(self).clicks(),
                self.click_log_available() == old(self).click_log_available(),
                n == self.links().len(),
                0 <= i <= n,
                forall|j: int| 0 <= j < i ==> self.links()[j].code != code@,
            decreases n - i,
        {
            if crate::text::str_eq(self.entries[i].short_code.as_str(), code) {
                let ghost prev = self.links();
                let mut row = self.entries[i].clone();
                row.expires_at = expires_at;
                let _ = self.entries.remove(i);
                self.entries.insert(i, row);
                proof {
                    assert(prev[i as int].code == code@);
                    let j = index_of(prev, code@);
                    assert(prev[j].code == code@);
                    if j < i as int {
                        assert(prev[j].code != prev[i as int].code);
                    }
                    if j > i as int {
                        assert(prev[i as int].code != prev[j].code);
                    }
                    assert(self.links() =~= prev.update(
                        i as int,
                        LinkModel { expires: expires_at, ..prev[i as int] },
                    ));
                }
                return true;
            }
            i = i + 1;
        }
        false
    }

    /// Make the click log reachable or unreachable (models an outage).
    pub fn set_click_log_available(&mut self, up: bool)
        ensures
            final(self).links() == old(self).links(),
            final(self).clicks() == old(self).clicks(),
            final(self).click_log_available() == up,
    {
        self.click_log_up = up;
    }

    /// How many links the store holds.
    pub fn link_count(&self) -> (n: usize)
        ensures
            n == self.links().len(),
    {
        self.entries.len()
    }

    /// How many clicks have been recorded.
    pub fn click_count(&self) -> (n: usize)
        ensures
            n == self.clicks().len(),
    {
        self.click_log.len()
    }

    /// The click at a position of the log.
    pub fn click_at(&self, i: usize) -> (c: ClickEvent)
        requires
            i < self.clicks().len(),
        ensures
            c == self.clicks()[i as int],
    {
        self.click_log[i]
    }
}

} // verus!
