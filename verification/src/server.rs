//! Decisions of the server's life cycle: which data to delete on startup,
//! where to listen, and whether a stop is a restart.
use vstd::prelude::*;
use crate::text::push_str;
use crate::text::{decimal, push_decimal, string_from_chars};

verus! {

/// Data that can be deleted on startup.
#[derive(Clone, Copy, PartialEq, Eq, Structural, Debug, Hash)]
pub enum DeleteKind {
    /// All data: the database files themselves.
    All,
    /// What indexing created.
    Indexing,
    /// The known storage locations.
    StorageLocations,
    /// User data (not permissions and groups).
    Users,
    /// Login and viewing sessions.
    Sessions,
}

/// The deletion script of a kind of data; deleting everything removes the
/// database files instead.
pub open spec fn script_of(kind: DeleteKind) -> Option<Seq<char>> {
    match kind {
        DeleteKind::All => None,
        DeleteKind::Indexing => Some("indexing.sql"@),
        DeleteKind::StorageLocations => Some("storage_locations.sql"@),
        DeleteKind::Users => Some("users.sql"@),
        DeleteKind::Sessions => Some("sessions.sql"@),
    }
}

fn script_name(kind: DeleteKind) -> (r: Option<&'static str>)
    ensures
        match r {
            Some(s) => script_of(kind) == Some(s@),
            None => script_of(kind) is None,
        },
{
    match kind {
        DeleteKind::All => None,
        DeleteKind::Indexing => Some("indexing.sql"),
        DeleteKind::StorageLocations => Some("storage_locations.sql"),
        DeleteKind::Users => Some("users.sql"),
        DeleteKind::Sessions => Some("sessions.sql"),
    }
}

/// What to delete: whether the database files go, and which deletion
/// scripts run, each once.
pub struct DeletionPlan {
    pub delete_database_files: bool,
    pub kinds: Vec<DeleteKind>,
}

/// The plan for the kinds asked for: each kind once, in the order first
/// asked; the database files go when everything is to be deleted.
pub fn deletion_plan(requested: &Vec<DeleteKind>) -> (r: DeletionPlan)
    ensures
        r.delete_database_files <==> requested@.contains(DeleteKind::All),
        r.kinds@.no_duplicates(),
        forall|k: DeleteKind| r.kinds@.contains(k) <==> (requested@.contains(k) && k != DeleteKind::All),
{
    let mut kinds: Vec<DeleteKind> = Vec::new();
    let mut all = false;
    let mut i: usize = 0;
    while i < requested.len()
        invariant
            i <= requested@.len(),
            all <==> requested@.subrange(0, i as int).contains(DeleteKind::All),
            kinds@.no_duplicates(),
            forall|k: DeleteKind| kinds@.contains(k) <==> (requested@.subrange(0, i as int).contains(k)
                && k != DeleteKind::All),
        decreases requested@.len() - i,
    {
        let k = requested[i];
        let ghost prefix = requested@.subrange(0, i + 1);
        assert(prefix =~= requested@.subrange(0, i as int).push(k));
        assert forall|x: DeleteKind| prefix.contains(x) <==> (requested@.subrange(0, i as int).contains(x)
            || x == k) by {
            if prefix.contains(x) {
                let j = choose|j: int| 0 <= j < prefix.len() && prefix[j] == x;
                if j < i {
                    assert(requested@.subrange(0, i as int)[j] == x);
                }
            }
            if requested@.subrange(0, i as int).contains(x) {
                let j = choose|j: int| 0 <= j < i && requested@.subrange(0, i as int)[j] == x;
                assert(prefix[j] == x);
            }
            if x == k {
                assert(prefix[i as int] == x);
            }
        }
        let ghost old_kinds = kinds@;
        if k == DeleteKind::All {
            all = true;
        } else {
            let mut seen = false;
            let mut j: usize = 0;
            while j < kinds.len()
                invariant
                    j <= kinds@.len(),
                    seen <==> kinds@.subrange(0, j as int).contains(k),
                decreases kinds@.len() - j,
            {
                let ghost pj = kinds@.subrange(0, j + 1);
                assert(pj =~= kinds@.subrange(0, j as int).push(kinds@[j as int]));
                if kinds[j] == k {
                    seen = true;
                    assert(pj[j as int] == k);
                }
                proof {
                    if pj.contains(k) && !kinds@.subrange(0, j as int).contains(k) {
                        let m = choose|m: int| 0 <= m < pj.len() && pj[m] == k;
                        if m < j {
                            assert(kinds@.subrange(0, j as int)[m] == k);
                        }
                    }
                    if kinds@.subrange(0, j as int).contains(k) {
                        let m = choose|m: int| 0 <= m < j && kinds@.subrange(0, j as int)[m] == k;
                        assert(pj[m] == k);
                    }
                }
                j = j + 1;
            }
            assert(kinds@.subrange(0, kinds@.len() as int) =~= kinds@);
            if !seen {
                let ghost before = kinds@;
                kinds.push(k);
                assert forall|a: int, b: int| 0 <= a < b < kinds@.len() implies kinds@[a] != kinds@[b] by {
                    if b == kinds@.len() - 1 {
                        assert(kinds@[a] == before[a]);
                        if before[a] == k {
                            assert(before.contains(k));
                        }
                    } else {
                        assert(kinds@[a] == before[a] && kinds@[b] == before[b]);
                    }
                }
                assert forall|x: DeleteKind| kinds@.contains(x) <==> (before.contains(x) || x == k) by {
                    if kinds@.contains(x) {
                        let m = choose|m: int| 0 <= m < kinds@.len() && kinds@[m] == x;
                        if m < before.len() {
                            assert(before[m] == x);
                        }
                    }
                    if before.contains(x) {
                        let m = choose|m: int| 0 <= m < before.len() && before[m] == x;
                        assert(kinds@[m] == x);
                    }
                    if x == k {
                        assert(kinds@[before.len() as int] == x);
                    }
                }
            }
        }
        assert forall|x: DeleteKind| kinds@.contains(x) <==> (prefix.contains(x) && x != DeleteKind::All) by {
            assert(prefix.contains(x) <==> (requested@.subrange(0, i as int).contains(x) || x == k));
            assert(old_kinds.contains(x) <==> (requested@.subrange(0, i as int).contains(x) && x != DeleteKind::All));
        }
        i = i + 1;
    }
    assert(requested@.subrange(0, requested@.len() as int) =~= requested@);
    DeletionPlan { delete_database_files: all, kinds }
}

/// The scripts of the kinds, in order; the database files have none.
pub open spec fn scripts_of(kinds: Seq<DeleteKind>) -> Seq<Seq<char>>
    decreases kinds.len(),
{
    if kinds.len() == 0 {
        Seq::empty()
    } else {
        match script_of(kinds.last()) {
            Some(s) => scripts_of(kinds.drop_last()).push(s),
            None => scripts_of(kinds.drop_last()),
        }
    }
}

pub open spec fn str_views(s: Seq<&'static str>) -> Seq<Seq<char>> {
    s.map_values(|x: &'static str| x@)
}

/// The deletion scripts of a plan, in its order.
pub fn deletion_scripts(plan: &DeletionPlan) -> (r: Vec<&'static str>)
    ensures
        str_views(r@) == scripts_of(plan.kinds@),
{
    let mut out: Vec<&'static str> = Vec::new();
    let mut j: usize = 0;
    while j < plan.kinds.len()
        invariant
            j <= plan.kinds@.len(),
            str_views(out@) == scripts_of(plan.kinds@.subrange(0, j as int)),
        decreases plan.kinds@.len() - j,
    {
        let ghost next = plan.kinds@.subrange(0, j + 1);
        assert(next.drop_last() =~= plan.kinds@.subrange(0, j as int));
        match script_name(plan.kinds[j]) {
            Some(s) => {
                out.push(s);
                assert(str_views(out@) =~= scripts_of(next));
            },
            None => {},
        }
        j = j + 1;
    }
    assert(plan.kinds@.subrange(0, plan.kinds@.len() as int) =~= plan.kinds@);
    out
}

/// The address the server listens on: every interface, at `port`.
pub fn listen_address(port: u16) -> (r: String)
    ensures
        r@ == "0.0.0.0:"@ + decimal(port as nat),
{
    let mut out: Vec<char> = Vec::new();
    push_str(&mut out, "0.0.0.0:");
    push_decimal(&mut out, port as u64);
    string_from_chars(out.as_slice())
}

/// Where the server's life cycle stands: running, or stopped for good or
/// for a restart. A stop can be asked for once.
#[derive(Clone, Copy, PartialEq, Eq, Structural, Debug)]
pub enum Lifecycle {
    Running,
    ShuttingDown,
    Restarting,
}

impl Lifecycle {
    /// Stops the server for good.
    pub fn shutdown(&mut self)
        requires
            *old(self) == Lifecycle::Running,
        ensures
            *final(self) == Lifecycle::ShuttingDown,
    {
        *self = Lifecycle::ShuttingDown;
    }

    /// Stops the server to start it again.
    pub fn restart(&mut self)
        requires
            *old(self) == Lifecycle::Running,
        ensures
            *final(self) == Lifecycle::Restarting,
    {
        *self = Lifecycle::Restarting;
    }

    /// Whether running tasks should end.
    pub fn cancelled(&self) -> (r: bool)
        ensures
            r == (*self != Lifecycle::Running),
    {
        !matches!(self, Lifecycle::Running)
    }
}

/// Whether the server starts again after it stopped: only when a restart
/// was asked for; a stop without any request (a signal) ends it.
pub fn should_restart(stopped: Option<bool>) -> (r: bool)
    ensures
        r == (stopped == Some(true)),
{
    match stopped {
        Some(restart) => restart,
        None => false,
    }
}

/// Opens connections to the server's database.
pub struct ConnectionManager;

impl ConnectionManager {
    /// Where the database file lies.
    pub fn database_path(&self) -> (r: &'static str)
        ensures
            r@ == "database/database.sqlite"@,
    {
        "database/database.sqlite"
    }

    /// The pragmas set on each new connection: write-ahead logging, normal
    /// synchronisation, and enforced foreign keys.
    pub fn pragmas(&self) -> (r: Vec<(&'static str, &'static str)>)
        ensures
            r@.len() == 3,
            r@[0].0@ == "journal_mode"@ && r@[0].1@ == "WAL"@,
            r@[1].0@ == "synchronous"@ && r@[1].1@ == "NORMAL"@,
            r@[2].0@ == "foreign_keys"@ && r@[2].1@ == "ON"@,
    {
        let mut v: Vec<(&'static str, &'static str)> = Vec::new();
        v.push(("journal_mode", "WAL"));
        v.push(("synchronous", "NORMAL"));
        v.push(("foreign_keys", "ON"));
        v
    }
}

} // verus!
